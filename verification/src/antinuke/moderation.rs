//! Bans, unbans and kicks.

use crate::antinuke::{
    mass_incident, owed, recorded, Alert, EventData, EventKind, Handler, Incident, Pass, Verdict,
};
use crate::db::Database;
use crate::rules::{Rule, SettingsSnapshot};
use crate::window::{pruned, ActionKind, ActionTracker};
use vstd::prelude::*;

verus! {

/// Judges a ban, an unban or a member's removal; any other kind of event is
/// not this handler's and passes unhandled.
///
/// Bans and removals are counted per community; an unban is reported at
/// once.
pub fn handle_event(
    kind: EventKind,
    data: &EventData,
    settings: &SettingsSnapshot,
    db: &Database,
    tracker: &mut ActionTracker,
    now: u64,
    threshold: usize,
) -> (v: Verdict)
    requires
        old(tracker).wf(),
        now >= old(tracker).clock(),
    ensures
        final(tracker).wf(),
        kind.handler() == Handler::Moderation ==> {
            &&& v == owed(kind, *data, settings@, *db, *final(tracker), threshold)
            &&& recorded(kind, *data, settings@, *db, *old(tracker), *final(tracker), now)
        },
        kind.handler() != Handler::Moderation ==> {
            &&& v == Verdict::Pass(Pass::Unhandled)
            &&& *final(tracker) == *old(tracker)
        },
{
    match kind {
        EventKind::GuildBanAdd => {
            if !settings.is_enabled(Rule::AntiBan) {
                Verdict::Pass(Pass::RuleDisabled)
            } else if db.is_exempt(data.executor_id.as_str()) {
                Verdict::Pass(Pass::ActorExempt)
            } else {
                detect_mass_action(ActionKind::Ban, data.guild_id.as_str(), tracker, now, threshold)
            }
        },
        EventKind::GuildBanRemove => {
            if !settings.is_enabled(Rule::AntiUnban) {
                Verdict::Pass(Pass::RuleDisabled)
            } else if db.is_exempt(data.executor_id.as_str()) {
                Verdict::Pass(Pass::ActorExempt)
            } else {
                Verdict::Incident(send_alert(Rule::AntiUnban, Alert::Unban))
            }
        },
        EventKind::GuildMemberRemove => {
            if !settings.is_enabled(Rule::AntiKick) {
                Verdict::Pass(Pass::RuleDisabled)
            } else if db.is_exempt(data.executor_id.as_str()) {
                Verdict::Pass(Pass::ActorExempt)
            } else {
                detect_mass_action(
                    ActionKind::Kick,
                    data.guild_id.as_str(),
                    tracker,
                    now,
                    threshold,
                )
            }
        },
        _ => Verdict::Pass(Pass::Unhandled),
    }
}

/// Counts one action in the window of its community. The action is appended
/// to the window, the window is pruned, and the action is an incident once
/// the window holds `threshold` actions; the incident names the audit-log
/// action type under which the offender is to be looked up.
pub fn detect_mass_action(
    action: ActionKind,
    guild_id: &str,
    tracker: &mut ActionTracker,
    now: u64,
    threshold: usize,
) -> (v: Verdict)
    requires
        old(tracker).wf(),
        now >= old(tracker).clock(),
    ensures
        final(tracker).wf(),
        final(tracker).window() == old(tracker).window(),
        final(tracker).clock() == now,
        final(tracker).history(action, guild_id@) == pruned(
            old(tracker).history(action, guild_id@).push(now),
            now,
            old(tracker).window(),
        ),
        forall|k: ActionKind, c: Seq<char>|
            k != action || c != guild_id@ ==> #[trigger] final(tracker).history(k, c) == old(
                tracker,
            ).history(k, c),
        v == if final(tracker).history(action, guild_id@).len() >= threshold {
            Verdict::Incident(mass_incident(action))
        } else {
            Verdict::Pass(Pass::BelowThreshold)
        },
{
    let count = tracker.observe(action, guild_id, now);
    if count < threshold {
        return Verdict::Pass(Pass::BelowThreshold);
    }
    let incident = match action {
        ActionKind::Ban => Incident {
            rule: Rule::AntiBan,
            alert: Alert::MassBan,
            action_type: Some(22u8),
        },
        ActionKind::Kick => Incident {
            rule: Rule::AntiKick,
            alert: Alert::MassKick,
            action_type: Some(20u8),
        },
        ActionKind::ChannelDelete => Incident {
            rule: Rule::AntiChannelDelete,
            alert: Alert::ChannelDeletion,
            action_type: Some(12u8),
        },
    };
    Verdict::Incident(incident)
}

/// The incident that is only reported: it names no audit-log action type,
/// so nobody is punished for it.
pub fn send_alert(rule: Rule, alert: Alert) -> (incident: Incident)
    ensures
        incident == (Incident { rule, alert, action_type: None }),
{
    Incident { rule, alert, action_type: None }
}

} // verus!
