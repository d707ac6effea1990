//! Detection of unauthorized destructive actions.
//!
//! An inbound event is classified by its kind, judged against the
//! community's policy and the trust sets, counted in a sliding window where
//! its kind is one that only matters in bulk, and answered with a verdict.
//! The detector calls nothing outside; acting on a verdict is the caller's.

pub mod assets;
pub mod channels;
pub mod moderation;
pub mod roles;
pub mod server;

use crate::db::Database;
use crate::json::{as_items, member, text_or_empty, tree, Json};
use crate::rules::{Rule, SettingsSnapshot};
use crate::text::{has_substring, str_eq};
use crate::window::{pruned, ActionKind, ActionTracker};
use vstd::prelude::*;

verus! {

/// How many actions inside one window make an incident, unless the caller
/// names another number.
pub const THRESHOLD: usize = 1;

/// The kinds of event that the detector has a handler for.
#[derive(Clone, Copy, PartialEq, Eq, Structural, Debug)]
pub enum EventKind {
    GuildBanAdd,
    GuildBanRemove,
    GuildMemberRemove,
    ChannelCreate,
    ChannelUpdate,
    ChannelDelete,
    ThreadCreate,
    GuildRoleCreate,
    GuildRoleUpdate,
    GuildRoleDelete,
    GuildMemberUpdate,
    GuildUpdate,
    MessageCreate,
    GuildEmojisUpdate,
    GuildStickersUpdate,
    WebhooksUpdate,
}

/// The handler that an event kind belongs to.
#[derive(Clone, Copy, PartialEq, Eq, Structural, Debug)]
pub enum Handler {
    Moderation,
    Channels,
    Roles,
    Server,
    Assets,
}

impl EventKind {
    /// The kind that the platform names `name`, if the detector handles it.
    pub open spec fn named(name: Seq<char>) -> Option<EventKind> {
        if name == "GUILD_BAN_ADD"@ {
            Some(EventKind::GuildBanAdd)
        } else if name == "GUILD_BAN_REMOVE"@ {
            Some(EventKind::GuildBanRemove)
        } else if name == "GUILD_MEMBER_REMOVE"@ {
            Some(EventKind::GuildMemberRemove)
        } else if name == "CHANNEL_CREATE"@ {
            Some(EventKind::ChannelCreate)
        } else if name == "CHANNEL_UPDATE"@ {
            Some(EventKind::ChannelUpdate)
        } else if name == "CHANNEL_DELETE"@ {
            Some(EventKind::ChannelDelete)
        } else if name == "THREAD_CREATE"@ {
            Some(EventKind::ThreadCreate)
        } else if name == "GUILD_ROLE_CREATE"@ {
            Some(EventKind::GuildRoleCreate)
        } else if name == "GUILD_ROLE_UPDATE"@ {
            Some(EventKind::GuildRoleUpdate)
        } else if name == "GUILD_ROLE_DELETE"@ {
            Some(EventKind::GuildRoleDelete)
        } else if name == "GUILD_MEMBER_UPDATE"@ {
            Some(EventKind::GuildMemberUpdate)
        } else if name == "GUILD_UPDATE"@ {
            Some(EventKind::GuildUpdate)
        } else if name == "MESSAGE_CREATE"@ {
            Some(EventKind::MessageCreate)
        } else if name == "GUILD_EMOJIS_UPDATE"@ {
            Some(EventKind::GuildEmojisUpdate)
        } else if name == "GUILD_STICKERS_UPDATE"@ {
            Some(EventKind::GuildStickersUpdate)
        } else if name == "WEBHOOKS_UPDATE"@ {
            Some(EventKind::WebhooksUpdate)
        } else {
            None
        }
    }

    /// The handler that events of this kind go to.
    pub open spec fn handler(self) -> Handler {
        match self {
            EventKind::GuildBanAdd | EventKind::GuildBanRemove | EventKind::GuildMemberRemove =>
                Handler::Moderation,
            EventKind::ChannelCreate
            | EventKind::ChannelUpdate
            | EventKind::ChannelDelete
            | EventKind::ThreadCreate => Handler::Channels,
            EventKind::GuildRoleCreate
            | EventKind::GuildRoleUpdate
            | EventKind::GuildRoleDelete
            | EventKind::GuildMemberUpdate => Handler::Roles,
            EventKind::GuildUpdate | EventKind::MessageCreate => Handler::Server,
            EventKind::GuildEmojisUpdate
            | EventKind::GuildStickersUpdate
            | EventKind::WebhooksUpdate => Handler::Assets,
        }
    }

    /// Looks an event kind up by the name the platform gives it.
    pub fn from_name(name: &str) -> (kind: Option<EventKind>)
        ensures
            kind == EventKind::named(name@),
    {
        if str_eq(name, "GUILD_BAN_ADD") {
            Some(EventKind::GuildBanAdd)
        } else if str_eq(name, "GUILD_BAN_REMOVE") {
            Some(EventKind::GuildBanRemove)
        } else if str_eq(name, "GUILD_MEMBER_REMOVE") {
            Some(EventKind::GuildMemberRemove)
        } else if str_eq(name, "CHANNEL_CREATE") {
            Some(EventKind::ChannelCreate)
        } else if str_eq(name, "CHANNEL_UPDATE") {
            Some(EventKind::ChannelUpdate)
        } else if str_eq(name, "CHANNEL_DELETE") {
            Some(EventKind::ChannelDelete)
        } else if str_eq(name, "THREAD_CREATE") {
            Some(EventKind::ThreadCreate)
        } else if str_eq(name, "GUILD_ROLE_CREATE") {
            Some(EventKind::GuildRoleCreate)
        } else if str_eq(name, "GUILD_ROLE_UPDATE") {
            Some(EventKind::GuildRoleUpdate)
        } else if str_eq(name, "GUILD_ROLE_DELETE") {
            Some(EventKind::GuildRoleDelete)
        } else if str_eq(name, "GUILD_MEMBER_UPDATE") {
            Some(EventKind::GuildMemberUpdate)
        } else if str_eq(name, "GUILD_UPDATE") {
            Some(EventKind::GuildUpdate)
        } else if str_eq(name, "MESSAGE_CREATE") {
            Some(EventKind::MessageCreate)
        } else if str_eq(name, "GUILD_EMOJIS_UPDATE") {
            Some(EventKind::GuildEmojisUpdate)
        } else if str_eq(name, "GUILD_STICKERS_UPDATE") {
            Some(EventKind::GuildStickersUpdate)
        } else if str_eq(name, "WEBHOOKS_UPDATE") {
            Some(EventKind::WebhooksUpdate)
        } else {
            None
        }
    }

    /// The handler that events of this kind go to.
    pub fn handler_of(&self) -> (h: Handler)
        ensures
            h == self.handler(),
    {
        match self {
            EventKind::GuildBanAdd | EventKind::GuildBanRemove | EventKind::GuildMemberRemove =>
                Handler::Moderation,
            EventKind::ChannelCreate
            | EventKind::ChannelUpdate
            | EventKind::ChannelDelete
            | EventKind::ThreadCreate => Handler::Channels,
            EventKind::GuildRoleCreate
            | EventKind::GuildRoleUpdate
            | EventKind::GuildRoleDelete
            | EventKind::GuildMemberUpdate => Handler::Roles,
            EventKind::GuildUpdate | EventKind::MessageCreate => Handler::Server,
            EventKind::GuildEmojisUpdate
            | EventKind::GuildStickersUpdate
            | EventKind::WebhooksUpdate => Handler::Assets,
        }
    }
}

/// What the detector reads of an event's payload. A field that the payload
/// lacks is empty.
#[derive(Clone, PartialEq, Eq, Debug)]
pub struct EventData {
    /// The community in which the event happened.
    pub guild_id: String,
    /// Who carried out the action, where the payload says so.
    pub executor_id: String,
    /// The author of a message.
    pub author_id: String,
    /// The owner of a thread.
    pub owner_id: String,
    /// The id of the created thread.
    pub id: String,
    /// The channel of a message.
    pub channel_id: String,
    /// The text of a message.
    pub content: String,
}

/// The id of a message's author, as the payload `j` gives it: the string
/// `id` inside the object `author`, or the empty string.
pub open spec fn author_in(j: Json) -> Seq<char> {
    match j.field("author"@) {
        Some(author) => author.text_or_empty("id"@),
        None => Seq::empty(),
    }
}

impl EventData {
    /// The payload `j` holds what `self` says: every field is the string of
    /// its name in the payload, or empty where the payload has no such
    /// string.
    pub open spec fn reads(&self, j: Json) -> bool {
        &&& self.guild_id@ == j.text_or_empty("guild_id"@)
        &&& self.executor_id@ == j.text_or_empty("executor_id"@)
        &&& self.author_id@ == author_in(j)
        &&& self.owner_id@ == j.text_or_empty("owner_id"@)
        &&& self.id@ == j.text_or_empty("id"@)
        &&& self.channel_id@ == j.text_or_empty("channel_id"@)
        &&& self.content@ == j.text_or_empty("content"@)
    }

    /// Reads out of an event's payload what the detector needs.
    pub fn decode(payload: &serde_json::Value) -> (data: EventData)
        ensures
            data.reads(tree(*payload)),
    {
        let author_id = match member(payload, "author") {
            Some(author) => text_or_empty(author, "id"),
            None => String::new(),
        };
        EventData {
            guild_id: text_or_empty(payload, "guild_id"),
            executor_id: text_or_empty(payload, "executor_id"),
            author_id,
            owner_id: text_or_empty(payload, "owner_id"),
            id: text_or_empty(payload, "id"),
            channel_id: text_or_empty(payload, "channel_id"),
            content: text_or_empty(payload, "content"),
        }
    }
}

/// The alert that goes with an incident.
#[derive(Clone, Copy, PartialEq, Eq, Structural, Debug)]
pub enum Alert {
    MassBan,
    Unban,
    MassKick,
    ChannelDeletion,
    ChannelCreation,
    RoleCreation,
    RoleDeletion,
    ServerUpdate,
    EveryonePing,
    AssetChange,
    WebhookChange,
}

impl Alert {
    /// The name under which an alert is reported.
    pub open spec fn spec_label(self) -> Seq<char> {
        match self {
            Alert::MassBan => "BAN"@,
            Alert::Unban => "UNBAN"@,
            Alert::MassKick => "KICK"@,
            Alert::ChannelDeletion => "CHANNEL_DELETE"@,
            Alert::ChannelCreation => "CHANNEL_CREATE"@,
            Alert::RoleCreation => "ROLE_CREATE"@,
            Alert::RoleDeletion => "ROLE_DELETE"@,
            Alert::ServerUpdate => "SERVER_UPDATE"@,
            Alert::EveryonePing => "EVERYONE_PING"@,
            Alert::AssetChange => "ASSET_UPDATE"@,
            Alert::WebhookChange => "WEBHOOK_UPDATE"@,
        }
    }

    /// The name under which an alert is reported.
    pub fn label(&self) -> (name: &'static str)
        ensures
            name@ == self.spec_label(),
    {
        match self {
            Alert::MassBan => "BAN",
            Alert::Unban => "UNBAN",
            Alert::MassKick => "KICK",
            Alert::ChannelDeletion => "CHANNEL_DELETE",
            Alert::ChannelCreation => "CHANNEL_CREATE",
            Alert::RoleCreation => "ROLE_CREATE",
            Alert::RoleDeletion => "ROLE_DELETE",
            Alert::ServerUpdate => "SERVER_UPDATE",
            Alert::EveryonePing => "EVERYONE_PING",
            Alert::AssetChange => "ASSET_UPDATE",
            Alert::WebhookChange => "WEBHOOK_UPDATE",
        }
    }
}

/// Why an event is no incident.
#[derive(Clone, Copy, PartialEq, Eq, Structural, Debug)]
pub enum Pass {
    /// No rule watches events of this kind.
    Unhandled,
    /// The rule that watches them is off in this community.
    RuleDisabled,
    /// The actor is on the whitelist or an admin.
    ActorExempt,
    /// The message pings neither everyone nor here.
    NoMention,
    /// The window holds fewer actions than the threshold.
    BelowThreshold,
}

/// How the detector treats one kind of event.
#[derive(Clone, Copy, PartialEq, Eq, Debug)]
pub struct Profile {
    /// The rule that must be on.
    pub rule: Rule,
    /// The window in which events of this kind are counted, for the kinds
    /// that only matter in bulk.
    pub counted: Option<ActionKind>,
    /// The alert that an incident raises.
    pub alert: Alert,
    /// The audit-log action type under which the offender is looked up, for
    /// the kinds that are punished.
    pub action_type: Option<u8>,
}

/// A detected incident.
#[derive(Clone, Copy, PartialEq, Eq, Debug)]
pub struct Incident {
    pub rule: Rule,
    pub alert: Alert,
    /// The audit-log action type to punish under; `None` where the incident
    /// is only reported.
    pub action_type: Option<u8>,
}

/// The detector's answer to one event.
#[derive(Clone, Copy, PartialEq, Eq, Debug)]
pub enum Verdict {
    /// Nothing to do.
    Pass(Pass),
    /// A policy-relevant event by an actor who is not exempt.
    Incident(Incident),
    /// A thread was made while the thread lock is on, by an owner who is not
    /// exempt: the thread lock decides what becomes of it.
    ThreadLock,
}

/// How the detector treats events of `kind`; `None` for the kinds that no
/// rule watches.
pub open spec fn profile(kind: EventKind) -> Option<Profile> {
    match kind {
        EventKind::GuildBanAdd => Some(
            Profile {
                rule: Rule::AntiBan,
                counted: Some(ActionKind::Ban),
                alert: Alert::MassBan,
                action_type: Some(22u8),
            },
        ),
        EventKind::GuildBanRemove => Some(
            Profile {
                rule: Rule::AntiUnban,
                counted: None,
                alert: Alert::Unban,
                action_type: None,
            },
        ),
        EventKind::GuildMemberRemove => Some(
            Profile {
                rule: Rule::AntiKick,
                counted: Some(ActionKind::Kick),
                alert: Alert::MassKick,
                action_type: Some(20u8),
            },
        ),
        EventKind::ChannelCreate => Some(
            Profile {
                rule: Rule::AntiChannelCreate,
                counted: None,
                alert: Alert::ChannelCreation,
                action_type: Some(10u8),
            },
        ),
        EventKind::ChannelDelete => Some(
            Profile {
                rule: Rule::AntiChannelDelete,
                counted: Some(ActionKind::ChannelDelete),
                alert: Alert::ChannelDeletion,
                action_type: Some(12u8),
            },
        ),
        EventKind::ThreadCreate => Some(
            Profile {
                rule: Rule::ThreadLockEnabled,
                counted: None,
                alert: Alert::ChannelCreation,
                action_type: None,
            },
        ),
        EventKind::GuildRoleCreate => Some(
            Profile {
                rule: Rule::AntiRoleCreate,
                counted: None,
                alert: Alert::RoleCreation,
                action_type: Some(30u8),
            },
        ),
        EventKind::GuildRoleDelete => Some(
            Profile {
                rule: Rule::AntiRoleDelete,
                counted: None,
                alert: Alert::RoleDeletion,
                action_type: Some(32u8),
            },
        ),
        EventKind::GuildUpdate => Some(
            Profile {
                rule: Rule::AntiServerUpdate,
                counted: None,
                alert: Alert::ServerUpdate,
                action_type: None,
            },
        ),
        EventKind::MessageCreate => Some(
            Profile {
                rule: Rule::AntiEveryonePing,
                counted: None,
                alert: Alert::EveryonePing,
                action_type: None,
            },
        ),
        EventKind::GuildEmojisUpdate | EventKind::GuildStickersUpdate => Some(
            Profile {
                rule: Rule::AntiEmojiDelete,
                counted: None,
                alert: Alert::AssetChange,
                action_type: None,
            },
        ),
        EventKind::WebhooksUpdate => Some(
            Profile {
                rule: Rule::AntiWebhookCreate,
                counted: None,
                alert: Alert::WebhookChange,
                action_type: None,
            },
        ),
        EventKind::ChannelUpdate | EventKind::GuildRoleUpdate | EventKind::GuildMemberUpdate =>
            None,
    }
}

/// The actor of an event: the author of a message, the owner of a thread,
/// the executor of anything else.
pub open spec fn actor(kind: EventKind, data: EventData) -> Seq<char> {
    match kind {
        EventKind::MessageCreate => data.author_id@,
        EventKind::ThreadCreate => data.owner_id@,
        _ => data.executor_id@,
    }
}

/// The text pings everyone or everyone present.
pub open spec fn mentions_everyone(content: Seq<char>) -> bool {
    has_substring(content, "@everyone"@) || has_substring(content, "@here"@)
}

/// The event is one that the detector would count or report: its kind has a
/// rule, and a message pings everyone.
pub open spec fn relevant(kind: EventKind, data: EventData) -> bool {
    profile(kind) is Some && (kind == EventKind::MessageCreate ==> mentions_everyone(
        data.content@,
    ))
}

/// The event is appended to a sliding window: its kind is counted, the rule
/// is on and the actor is not exempt.
pub open spec fn counts(kind: EventKind, enabled: bool, exempt: bool) -> bool {
    profile(kind) matches Some(p) && p.counted is Some && enabled && !exempt
}

/// The verdict on an event of `kind`, given whether its rule is on, whether
/// its actor is exempt, whether it is relevant, and, for a counted kind, how
/// many actions its window holds after this one.
pub open spec fn verdict(
    kind: EventKind,
    enabled: bool,
    exempt: bool,
    mention: bool,
    count: int,
    threshold: int,
) -> Verdict {
    match profile(kind) {
        None => Verdict::Pass(Pass::Unhandled),
        Some(p) => if !enabled {
            Verdict::Pass(Pass::RuleDisabled)
        } else if kind == EventKind::MessageCreate && !mention {
            Verdict::Pass(Pass::NoMention)
        } else if exempt {
            Verdict::Pass(Pass::ActorExempt)
        } else if kind == EventKind::ThreadCreate {
            Verdict::ThreadLock
        } else if p.counted is Some && count < threshold {
            Verdict::Pass(Pass::BelowThreshold)
        } else {
            Verdict::Incident(Incident { rule: p.rule, alert: p.alert, action_type: p.action_type })
        },
    }
}

/// The verdict that the detector owes on an event, given the tracker as it
/// stands after the event.
pub open spec fn owed(
    kind: EventKind,
    data: EventData,
    flags: Seq<bool>,
    db: Database,
    after: ActionTracker,
    threshold: usize,
) -> Verdict {
    match profile(kind) {
        None => Verdict::Pass(Pass::Unhandled),
        Some(p) => verdict(
            kind,
            flags[p.rule.index()],
            db.exempt(actor(kind, data)),
            mentions_everyone(data.content@),
            match p.counted {
                Some(action) => after.history(action, data.guild_id@).len() as int,
                None => 0,
            },
            threshold as int,
        ),
    }
}

/// The verdict that the detector owes on an event of a kind that is not
/// counted: no window has a say in it.
pub open spec fn owed_at_once(
    kind: EventKind,
    data: EventData,
    flags: Seq<bool>,
    db: Database,
) -> Verdict {
    match profile(kind) {
        None => Verdict::Pass(Pass::Unhandled),
        Some(p) => verdict(
            kind,
            flags[p.rule.index()],
            db.exempt(actor(kind, data)),
            mentions_everyone(data.content@),
            0,
            0,
        ),
    }
}

/// What the event does to the tracker: a counted event of an actor who is
/// not exempt, under a rule that is on, is appended to its window, which is
/// then pruned; any other event leaves the tracker as it was.
pub open spec fn recorded(
    kind: EventKind,
    data: EventData,
    flags: Seq<bool>,
    db: Database,
    before: ActionTracker,
    after: ActionTracker,
    now: u64,
) -> bool {
    match profile(kind) {
        Some(Profile { rule, counted: Some(action), .. }) => if flags[rule.index()]
            && !db.exempt(actor(kind, data)) {
            &&& after.wf()
            &&& after.window() == before.window()
            &&& after.clock() == now
            &&& after.history(action, data.guild_id@) == pruned(
                before.history(action, data.guild_id@).push(now),
                now,
                before.window(),
            )
            &&& forall|k: ActionKind, c: Seq<char>|
                k != action || c != data.guild_id@ ==> #[trigger] after.history(k, c)
                    == before.history(k, c)
        } else {
            after == before
        },
        _ => after == before,
    }
}

/// Under a rule that is off no event is an incident, whoever acts and
/// however many actions the window holds.
pub proof fn lemma_disabled_rule_never_fires(
    kind: EventKind,
    exempt: bool,
    mention: bool,
    count: int,
    threshold: int,
)
    ensures
        !(verdict(kind, false, exempt, mention, count, threshold) is Incident),
        !counts(kind, false, exempt),
{
}

/// No event of an actor who is on the whitelist or an admin is an incident,
/// even under a rule that is on and with a window over the threshold.
pub proof fn lemma_exempt_actor_never_fires(
    kind: EventKind,
    enabled: bool,
    mention: bool,
    count: int,
    threshold: int,
)
    ensures
        !(verdict(kind, enabled, true, mention, count, threshold) is Incident),
        !(verdict(kind, enabled, true, mention, count, threshold) is ThreadLock),
        !counts(kind, enabled, true),
{
}

/// An event that is not counted is an incident as soon as its rule is on,
/// its actor is not exempt and, for a message, it pings everyone.
pub proof fn lemma_single_event_fires(kind: EventKind, count: int, threshold: int)
    requires
        profile(kind) matches Some(p) && p.counted is None,
        kind != EventKind::ThreadCreate,
    ensures
        verdict(kind, true, false, true, count, threshold) is Incident,
{
}

/// A counted event is an incident exactly when its window has reached the
/// threshold.
pub proof fn lemma_counted_event_fires(kind: EventKind, mention: bool, count: int, threshold: int)
    requires
        profile(kind) matches Some(p) && p.counted is Some,
    ensures
        verdict(kind, true, false, mention, count, threshold) is Incident <==> count >= threshold,
{
}

/// The incident that a counted action makes once its window is full.
pub open spec fn mass_incident(action: ActionKind) -> Incident {
    match action {
        ActionKind::Ban => Incident {
            rule: Rule::AntiBan,
            alert: Alert::MassBan,
            action_type: Some(22u8),
        },
        ActionKind::Kick => Incident {
            rule: Rule::AntiKick,
            alert: Alert::MassKick,
            action_type: Some(20u8),
        },
        ActionKind::ChannelDelete => Incident {
            rule: Rule::AntiChannelDelete,
            alert: Alert::ChannelDeletion,
            action_type: Some(12u8),
        },
    }
}

/// Whether a message pings everyone or everyone present.
pub fn pings_everyone(content: &str) -> (r: bool)
    ensures
        r == mentions_everyone(content@),
{
    crate::text::contains(content, "@everyone") || crate::text::contains(content, "@here")
}

/// A rule watches events of `kind`, and it is on in the policy `flags`.
pub open spec fn watched(kind: EventKind, flags: Seq<bool>) -> bool {
    profile(kind) matches Some(p) && flags[p.rule.index()]
}

/// Sends an event to the handler of its kind and returns that handler's
/// verdict.
///
/// Under a rule that is off, and for an actor who is exempt, the verdict is
/// never an incident and no window changes.
pub fn handle_event(
    kind: EventKind,
    data: &EventData,
    settings: &SettingsSnapshot,
    db: &Database,
    tracker: &mut ActionTracker,
    now: u64,
    threshold: usize,
) -> (v: Verdict)
    requires
        old(tracker).wf(),
        now >= old(tracker).clock(),
    ensures
        final(tracker).wf(),
        v == owed(kind, *data, settings@, *db, *final(tracker), threshold),
        recorded(kind, *data, settings@, *db, *old(tracker), *final(tracker), now),
        !watched(kind, settings@) ==> !(v is Incident) && *final(tracker) == *old(tracker),
        db.exempt(actor(kind, *data)) ==> !(v is Incident) && *final(tracker) == *old(tracker),
{
    match kind.handler_of() {
        Handler::Moderation => moderation::handle_event(
            kind,
            data,
            settings,
            db,
            tracker,
            now,
            threshold,
        ),
        Handler::Channels => channels::handle_event(
            kind,
            data,
            settings,
            db,
            tracker,
            now,
            threshold,
        ),
        Handler::Roles => roles::handle_event(kind, data, settings, db),
        Handler::Server => server::handle_event(kind, data, settings, db),
        Handler::Assets => assets::handle_event(kind, data, settings, db),
    }
}

/// Judges an event against the policy that the store has cached for the
/// event's community. Where the store has none cached, nothing is judged
/// and nothing counted: the policy is to be loaded first.
pub fn handle_stored_event(
    kind: EventKind,
    data: &EventData,
    db: &Database,
    tracker: &mut ActionTracker,
    now: u64,
    threshold: usize,
) -> (v: Option<Verdict>)
    requires
        old(tracker).wf(),
        now >= old(tracker).clock(),
    ensures
        final(tracker).wf(),
        match v {
            None => !db.settings().contains_key(data.guild_id@) && *final(tracker) == *old(
                tracker,
            ),
            Some(verdict) => {
                let flags = db.settings()[data.guild_id@];
                &&& db.settings().contains_key(data.guild_id@)
                &&& verdict == owed(kind, *data, flags, *db, *final(tracker), threshold)
                &&& recorded(kind, *data, flags, *db, *old(tracker), *final(tracker), now)
                &&& !watched(kind, flags) ==> !(verdict is Incident) && *final(tracker) == *old(
                    tracker,
                )
                &&& db.exempt(actor(kind, *data)) ==> !(verdict is Incident) && *final(tracker)
                    == *old(tracker)
            },
        },
{
    match db.get_antinuke_settings(data.guild_id.as_str()) {
        Some(settings) => Some(handle_event(kind, data, &settings, db, tracker, now, threshold)),
        None => None,
    }
}

/// How long the platform's audit log is given to record an action before
/// it is asked who did it, in milliseconds.
pub const SETTLE_DELAY_MS: u64 = 500;

/// How many audit entries are asked for: the most recent one.
pub const AUDIT_LIMIT: u8 = 1;

/// The reason that is written into the audit log with a ban.
pub const BAN_REASON: &'static str = "Rimuru Antinuke: Unauthorized Action";

/// The executor that an audit log names: the string `user_id` of the first
/// of its entries, empty where that entry has none. `None` for a log that is
/// no array or holds no entry.
pub open spec fn audit_offender(entries: Json) -> Option<Seq<char>> {
    match entries {
        Json::Array(items) => if items.len() > 0 {
            Some(items[0].text_or_empty("user_id"@))
        } else {
            None
        },
        _ => None,
    }
}

/// Reads out of the entries of an audit log who carried out the most recent
/// action.
pub fn audit_executor(entries: &serde_json::Value) -> (executor: Option<String>)
    ensures
        match executor {
            Some(id) => audit_offender(tree(*entries)) == Some(id@),
            None => audit_offender(tree(*entries)) is None,
        },
{
    match as_items(entries) {
        Some(items) => {
            if items.len() > 0 {
                Some(text_or_empty(&items[0], "user_id"))
            } else {
                None
            }
        },
        None => None,
    }
}

/// Where a punishment stands.
#[derive(Clone, Copy, PartialEq, Eq, Structural, Debug)]
pub enum PunishStep {
    /// Waiting for the settle delay to pass.
    Settling,
    /// Waiting for the audit log's answer.
    AwaitingAudit,
    /// Waiting to learn the bot's own identity.
    AwaitingIdentity,
    /// Waiting for the ban to be carried out.
    AwaitingBan,
    /// Nothing is left to do.
    Done,
}

/// How a punishment ended.
#[derive(Clone, Copy, PartialEq, Eq, Structural, Debug)]
pub enum Outcome {
    /// The audit log could not be read, held no entry, or its entry named
    /// nobody: nobody is punished.
    NoAuditEntry,
    /// The executor is on the whitelist or an admin.
    ExecutorExempt,
    /// The executor is the bot itself.
    ExecutorIsBot,
    /// The executor was banned.
    Banned,
    /// The ban was refused; it is not tried again.
    BanFailed,
}

/// What the caller reports back to a punishment.
#[derive(PartialEq, Eq, Debug)]
pub enum PunishEvent {
    /// The settle delay has passed.
    Settled,
    /// The audit log answered: the executor named by its most recent entry
    /// of the action type, or `None` where it could not be read or held no
    /// entry.
    AuditFetched(Option<String>),
    /// The bot's own id, or `None` where it could not be learned.
    IdentityFetched(Option<String>),
    /// The ban was carried out, or refused.
    BanFinished(bool),
}

/// What the caller is to do next for a punishment.
#[derive(Clone, Copy, PartialEq, Eq, Debug)]
pub enum PunishAction {
    /// Wait this many milliseconds, then report `Settled`.
    Sleep(u64),
    /// Ask the audit log of the community for the most recent entries of
    /// this action type, at most `limit`, then report `AuditFetched`.
    FetchAudit { action_type: u8, limit: u8 },
    /// Ask who the bot is, then report `IdentityFetched`.
    FetchIdentity,
    /// Ban the executor from the community, then report `BanFinished`.
    Ban,
    /// The punishment is over.
    Finish(Outcome),
    /// The event was not the one waited for: go on waiting.
    Wait,
}

/// The pursuit of whoever is responsible for one incident.
pub struct Punishment {
    guild_id: String,
    action_type: u8,
    executor: String,
    step: PunishStep,
}

/// The step, the executor and the action that follow from a step, its
/// executor and an event. `exempt` says whether the executor that the audit
/// log names is on the whitelist or an admin.
pub open spec fn punish_next(
    step: PunishStep,
    executor: Seq<char>,
    action_type: u8,
    event: PunishEvent,
    exempt: bool,
) -> (PunishStep, Seq<char>, PunishAction) {
    match (step, event) {
        (PunishStep::Settling, PunishEvent::Settled) => (
            PunishStep::AwaitingAudit,
            executor,
            PunishAction::FetchAudit { action_type, limit: AUDIT_LIMIT },
        ),
        (PunishStep::AwaitingAudit, PunishEvent::AuditFetched(None)) => (
            PunishStep::Done,
            executor,
            PunishAction::Finish(Outcome::NoAuditEntry),
        ),
        (PunishStep::AwaitingAudit, PunishEvent::AuditFetched(Some(id))) => if id@.len() == 0 {
            (PunishStep::Done, executor, PunishAction::Finish(Outcome::NoAuditEntry))
        } else if exempt {
            (PunishStep::Done, executor, PunishAction::Finish(Outcome::ExecutorExempt))
        } else {
            (PunishStep::AwaitingIdentity, id@, PunishAction::FetchIdentity)
        },
        (PunishStep::AwaitingIdentity, PunishEvent::IdentityFetched(Some(bot))) => if bot@
            == executor {
            (PunishStep::Done, executor, PunishAction::Finish(Outcome::ExecutorIsBot))
        } else {
            (PunishStep::AwaitingBan, executor, PunishAction::Ban)
        },
        (PunishStep::AwaitingIdentity, PunishEvent::IdentityFetched(None)) => (
            PunishStep::AwaitingBan,
            executor,
            PunishAction::Ban,
        ),
        (PunishStep::AwaitingBan, PunishEvent::BanFinished(done)) => (
            PunishStep::Done,
            executor,
            PunishAction::Finish(
                if done {
                    Outcome::Banned
                } else {
                    Outcome::BanFailed
                },
            ),
        ),
        _ => (step, executor, PunishAction::Wait),
    }
}

/// The executor that an event names, for the test of exemption: the one of
/// an audit entry, nobody for any other event.
pub open spec fn named_executor(event: PunishEvent) -> Seq<char> {
    match event {
        PunishEvent::AuditFetched(Some(id)) => id@,
        _ => Seq::empty(),
    }
}

/// Nobody is banned unless the audit log named somebody who is not exempt
/// and the bot is not known to be that somebody: a ban is only ever asked
/// for on the bot's identity, by a punishment that was waiting for it, and
/// that wait only begins on an audit entry with an executor who is not
/// exempt.
pub proof fn lemma_ban_needs_an_offender(
    step: PunishStep,
    executor: Seq<char>,
    action_type: u8,
    event: PunishEvent,
    exempt: bool,
)
    ensures
        punish_next(step, executor, action_type, event, exempt).2 == PunishAction::Ban ==> {
            &&& step == PunishStep::AwaitingIdentity
            &&& event matches PunishEvent::IdentityFetched(bot)
            &&& bot matches Some(id) ==> id@ != executor
        },
        punish_next(step, executor, action_type, event, exempt).0 == PunishStep::AwaitingIdentity
            && step != PunishStep::AwaitingIdentity ==> {
            &&& step == PunishStep::AwaitingAudit
            &&& event matches PunishEvent::AuditFetched(Some(id))
            &&& id@.len() > 0
            &&& !exempt
            &&& punish_next(step, executor, action_type, event, exempt).1 == id@
        },
{
}

/// Where the audit log names nobody the punishment ends at once, without a
/// ban and without an error; and a punishment that has ended asks for
/// nothing more.
pub proof fn lemma_no_entry_no_ban(
    executor: Seq<char>,
    action_type: u8,
    event: PunishEvent,
    exempt: bool,
)
    ensures
        punish_next(
            PunishStep::AwaitingAudit,
            executor,
            action_type,
            PunishEvent::AuditFetched(None),
            exempt,
        ) == (PunishStep::Done, executor, PunishAction::Finish(Outcome::NoAuditEntry)),
        punish_next(PunishStep::Done, executor, action_type, event, exempt) == (
            PunishStep::Done,
            executor,
            PunishAction::Wait,
        ),
{
}

impl Punishment {
    /// The community in which the incident happened.
    pub closed spec fn community(&self) -> Seq<char> {
        self.guild_id@
    }

    /// The audit-log action type of the incident.
    pub closed spec fn action(&self) -> u8 {
        self.action_type
    }

    /// The executor that the audit log named; empty until it has.
    pub closed spec fn offender(&self) -> Seq<char> {
        self.executor@
    }

    /// Where the punishment stands.
    pub closed spec fn step(&self) -> PunishStep {
        self.step
    }

    /// A ban is only ever under way against somebody.
    pub open spec fn wf(&self) -> bool {
        (self.step() == PunishStep::AwaitingIdentity || self.step() == PunishStep::AwaitingBan)
            ==> self.offender().len() > 0
    }

    /// Begins the punishment of an incident of `action_type` in `guild_id`:
    /// the first thing to do is to wait out the settle delay.
    pub fn new(guild_id: &str, action_type: u8) -> (r: (Punishment, PunishAction))
        ensures
            r.0.wf(),
            r.0.community() == guild_id@,
            r.0.action() == action_type,
            r.0.offender() == Seq::<char>::empty(),
            r.0.step() == PunishStep::Settling,
            r.1 == PunishAction::Sleep(SETTLE_DELAY_MS),
    {
        let p = Punishment {
            guild_id: guild_id.to_owned(),
            action_type,
            executor: String::new(),
            step: PunishStep::Settling,
        };
        (p, PunishAction::Sleep(SETTLE_DELAY_MS))
    }

    /// The community in which the incident happened.
    pub fn guild_id(&self) -> (s: &str)
        ensures
            s@ == self.community(),
    {
        self.guild_id.as_str()
    }

    /// The audit-log action type of the incident.
    pub fn action_type(&self) -> (a: u8)
        ensures
            a == self.action(),
    {
        self.action_type
    }

    /// The executor that the audit log named; empty until it has.
    pub fn executor(&self) -> (s: &str)
        ensures
            s@ == self.offender(),
    {
        self.executor.as_str()
    }

    /// The reason that a ban of this punishment is entered with.
    pub fn reason(&self) -> (r: &'static str)
        ensures
            r@ == BAN_REASON@,
    {
        BAN_REASON
    }

    /// Whether nothing is left to do.
    pub fn is_done(&self) -> (done: bool)
        ensures
            done == (self.step() == PunishStep::Done),
    {
        match self.step {
            PunishStep::Done => true,
            _ => false,
        }
    }
}

/// Takes a punishment one step further on an event and says what to do
/// next.
///
/// After the settle delay the audit log is asked. Where it names nobody, or
/// somebody on the whitelist or among the admins, the punishment ends and
/// nobody is banned. Otherwise the bot's own identity is asked for, and
/// unless the executor is the bot itself, the executor is banned. A refused
/// ban ends the punishment too. An event that the punishment is not waiting
/// for changes nothing.
pub fn punish_offender(p: &mut Punishment, event: &PunishEvent, db: &Database) -> (action:
    PunishAction)
    requires
        old(p).wf(),
    ensures
        final(p).wf(),
        final(p).community() == old(p).community(),
        final(p).action() == old(p).action(),
        (final(p).step(), final(p).offender(), action) == punish_next(
            old(p).step(),
            old(p).offender(),
            old(p).action(),
            *event,
            db.exempt(named_executor(*event)),
        ),
        action == PunishAction::Ban ==> final(p).offender().len() > 0,
{
    match p.step {
        PunishStep::Settling => match event {
            PunishEvent::Settled => {
                p.step = PunishStep::AwaitingAudit;
                PunishAction::FetchAudit { action_type: p.action_type, limit: AUDIT_LIMIT }
            },
            _ => PunishAction::Wait,
        },
        PunishStep::AwaitingAudit => match event {
            PunishEvent::AuditFetched(None) => {
                p.step = PunishStep::Done;
                PunishAction::Finish(Outcome::NoAuditEntry)
            },
            PunishEvent::AuditFetched(Some(id)) => {
                if id.as_str().is_empty() {
                    p.step = PunishStep::Done;
                    PunishAction::Finish(Outcome::NoAuditEntry)
                } else if db.is_exempt(id.as_str()) {
                    p.step = PunishStep::Done;
                    PunishAction::Finish(Outcome::ExecutorExempt)
                } else {
                    p.executor = id.clone();
                    p.step = PunishStep::AwaitingIdentity;
                    PunishAction::FetchIdentity
                }
            },
            _ => PunishAction::Wait,
        },
        PunishStep::AwaitingIdentity => match event {
            PunishEvent::IdentityFetched(Some(bot)) => {
                if str_eq(bot.as_str(), p.executor.as_str()) {
                    p.step = PunishStep::Done;
                    PunishAction::Finish(Outcome::ExecutorIsBot)
                } else {
                    p.step = PunishStep::AwaitingBan;
                    PunishAction::Ban
                }
            },
            PunishEvent::IdentityFetched(None) => {
                p.step = PunishStep::AwaitingBan;
                PunishAction::Ban
            },
            _ => PunishAction::Wait,
        },
        PunishStep::AwaitingBan => match event {
            PunishEvent::BanFinished(done) => {
                p.step = PunishStep::Done;
                if *done {
                    PunishAction::Finish(Outcome::Banned)
                } else {
                    PunishAction::Finish(Outcome::BanFailed)
                }
            },
            _ => PunishAction::Wait,
        },
        PunishStep::Done => PunishAction::Wait,
    }
}

} // verus!
