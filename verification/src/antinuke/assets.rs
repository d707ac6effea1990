//! Changes to emojis, stickers and webhooks.

use crate::antinuke::{owed_at_once, Alert, EventData, EventKind, Handler, Pass, Verdict};
use crate::antinuke::moderation::send_alert;
use crate::db::Database;
use crate::rules::{Rule, SettingsSnapshot};
use vstd::prelude::*;

verus! {

/// Judges a change to the emojis, stickers or webhooks of a community: an
/// incident at once under a rule that is on, unless the executor is exempt.
/// Any other kind of event is not this handler's and passes unhandled.
pub fn handle_event(
    kind: EventKind,
    data: &EventData,
    settings: &SettingsSnapshot,
    db: &Database,
) -> (v: Verdict)
    ensures
        kind.handler() == Handler::Assets ==> v == owed_at_once(kind, *data, settings@, *db),
        kind.handler() != Handler::Assets ==> v == Verdict::Pass(Pass::Unhandled),
{
    match kind {
        EventKind::GuildEmojisUpdate | EventKind::GuildStickersUpdate => {
            if !settings.is_enabled(Rule::AntiEmojiDelete) {
                Verdict::Pass(Pass::RuleDisabled)
            } else if db.is_exempt(data.executor_id.as_str()) {
                Verdict::Pass(Pass::ActorExempt)
            } else {
                Verdict::Incident(send_alert(Rule::AntiEmojiDelete, Alert::AssetChange))
            }
        },
        EventKind::WebhooksUpdate => {
            if !settings.is_enabled(Rule::AntiWebhookCreate) {
                Verdict::Pass(Pass::RuleDisabled)
            } else if db.is_exempt(data.executor_id.as_str()) {
                Verdict::Pass(Pass::ActorExempt)
            } else {
                Verdict::Incident(send_alert(Rule::AntiWebhookCreate, Alert::WebhookChange))
            }
        },
        _ => Verdict::Pass(Pass::Unhandled),
    }
}

} // verus!
