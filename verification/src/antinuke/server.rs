//! Changes to the server's settings, and messages that ping everyone.

use crate::antinuke::{
    owed_at_once, pings_everyone, Alert, EventData, EventKind, Handler, Pass, Verdict,
};
use crate::antinuke::moderation::send_alert;
use crate::db::Database;
use crate::rules::{Rule, SettingsSnapshot};
use vstd::prelude::*;

verus! {

/// Judges an update of the server and a message. An update is an incident
/// at once; a message is one where it pings everyone or everyone present.
/// Both need their rule to be on and an actor who is not exempt. Any other
/// kind of event is not this handler's and passes unhandled.
pub fn handle_event(
    kind: EventKind,
    data: &EventData,
    settings: &SettingsSnapshot,
    db: &Database,
) -> (v: Verdict)
    ensures
        kind.handler() == Handler::Server ==> v == owed_at_once(kind, *data, settings@, *db),
        kind.handler() != Handler::Server ==> v == Verdict::Pass(Pass::Unhandled),
{
    match kind {
        EventKind::GuildUpdate => {
            if !settings.is_enabled(Rule::AntiServerUpdate) {
                Verdict::Pass(Pass::RuleDisabled)
            } else if db.is_exempt(data.executor_id.as_str()) {
                Verdict::Pass(Pass::ActorExempt)
            } else {
                Verdict::Incident(send_alert(Rule::AntiServerUpdate, Alert::ServerUpdate))
            }
        },
        EventKind::MessageCreate => {
            if !settings.is_enabled(Rule::AntiEveryonePing) {
                Verdict::Pass(Pass::RuleDisabled)
            } else if !pings_everyone(data.content.as_str()) {
                Verdict::Pass(Pass::NoMention)
            } else if db.is_exempt(data.author_id.as_str()) {
                Verdict::Pass(Pass::ActorExempt)
            } else {
                Verdict::Incident(send_alert(Rule::AntiEveryonePing, Alert::EveryonePing))
            }
        },
        _ => Verdict::Pass(Pass::Unhandled),
    }
}

} // verus!
