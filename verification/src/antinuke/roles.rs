//! Creation and deletion of roles.

use crate::antinuke::{owed_at_once, Alert, EventData, EventKind, Handler, Incident, Pass, Verdict};
use crate::db::Database;
use crate::rules::{Rule, SettingsSnapshot};
use vstd::prelude::*;

verus! {

/// Judges the creation or deletion of a role: an incident at once under a
/// rule that is on, unless the executor is exempt. Updates of roles and of
/// members' roles are watched by no rule; any other kind of event is not
/// this handler's. Both pass unhandled.
pub fn handle_event(
    kind: EventKind,
    data: &EventData,
    settings: &SettingsSnapshot,
    db: &Database,
) -> (v: Verdict)
    ensures
        kind.handler() == Handler::Roles ==> v == owed_at_once(kind, *data, settings@, *db),
        kind.handler() != Handler::Roles ==> v == Verdict::Pass(Pass::Unhandled),
{
    match kind {
        EventKind::GuildRoleCreate => {
            if !settings.is_enabled(Rule::AntiRoleCreate) {
                Verdict::Pass(Pass::RuleDisabled)
            } else if db.is_exempt(data.executor_id.as_str()) {
                Verdict::Pass(Pass::ActorExempt)
            } else {
                Verdict::Incident(
                    Incident {
                        rule: Rule::AntiRoleCreate,
                        alert: Alert::RoleCreation,
                        action_type: Some(30u8),
                    },
                )
            }
        },
        EventKind::GuildRoleDelete => {
            if !settings.is_enabled(Rule::AntiRoleDelete) {
                Verdict::Pass(Pass::RuleDisabled)
            } else if db.is_exempt(data.executor_id.as_str()) {
                Verdict::Pass(Pass::ActorExempt)
            } else {
                Verdict::Incident(
                    Incident {
                        rule: Rule::AntiRoleDelete,
                        alert: Alert::RoleDeletion,
                        action_type: Some(32u8),
                    },
                )
            }
        },
        _ => Verdict::Pass(Pass::Unhandled),
    }
}

} // verus!
