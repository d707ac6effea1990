use rimuru_bot::antinuke::{
    audit_executor, punish_offender, Outcome, PunishAction, PunishEvent, Punishment, AUDIT_LIMIT,
    BAN_REASON, SETTLE_DELAY_MS,
};
use rimuru_bot::db::Database;

fn json(text: &str) -> serde_json::Value {
    serde_json::from_str(text).unwrap()
}

#[test]
fn a_punishment_begins_with_the_settle_delay() {
    let (p, first) = Punishment::new("g", 22);
    assert_eq!(first, PunishAction::Sleep(500));
    assert_eq!(SETTLE_DELAY_MS, 500);
    assert_eq!(AUDIT_LIMIT, 1);
    assert_eq!(BAN_REASON, "Rimuru Antinuke: Unauthorized Action");
    assert_eq!(p.guild_id(), "g");
    assert_eq!(p.action_type(), 22);
    assert_eq!(p.executor(), "");
    assert!(!p.is_done());
}

#[test]
fn no_audit_entry_means_no_ban() {
    let db = Database::new();
    let (mut p, _) = Punishment::new("g", 22);
    assert_eq!(
        punish_offender(&mut p, &PunishEvent::Settled, &db),
        PunishAction::FetchAudit { action_type: 22, limit: 1 }
    );
    let answer = audit_executor(&json("[]"));
    assert_eq!(answer, None);
    assert_eq!(
        punish_offender(&mut p, &PunishEvent::AuditFetched(answer), &db),
        PunishAction::Finish(Outcome::NoAuditEntry)
    );
    assert!(p.is_done());
    assert_eq!(p.executor(), "");
    assert_eq!(punish_offender(&mut p, &PunishEvent::BanFinished(true), &db), PunishAction::Wait);
    assert_eq!(punish_offender(&mut p, &PunishEvent::IdentityFetched(None), &db), PunishAction::Wait);
}

#[test]
fn an_entry_that_names_nobody_means_no_ban() {
    let db = Database::new();
    let (mut p, _) = Punishment::new("g", 12);
    punish_offender(&mut p, &PunishEvent::Settled, &db);
    let answer = audit_executor(&json(r#"[{"action_type":12}]"#));
    assert_eq!(answer, Some(String::new()));
    assert_eq!(
        punish_offender(&mut p, &PunishEvent::AuditFetched(answer), &db),
        PunishAction::Finish(Outcome::NoAuditEntry)
    );
    assert!(p.is_done());
}

#[test]
fn the_executor_of_the_newest_entry_is_banned() {
    let db = Database::new();
    let (mut p, _) = Punishment::new("g", 30);
    assert_eq!(
        punish_offender(&mut p, &PunishEvent::Settled, &db),
        PunishAction::FetchAudit { action_type: 30, limit: 1 }
    );
    let answer = audit_executor(&json(r#"[{"user_id":"666"},{"user_id":"777"}]"#));
    assert_eq!(answer, Some("666".to_string()));
    assert_eq!(
        punish_offender(&mut p, &PunishEvent::AuditFetched(answer), &db),
        PunishAction::FetchIdentity
    );
    assert_eq!(p.executor(), "666");
    assert_eq!(
        punish_offender(&mut p, &PunishEvent::IdentityFetched(Some("1".to_string())), &db),
        PunishAction::Ban
    );
    assert_eq!(p.executor(), "666");
    assert_eq!(p.guild_id(), "g");
    assert!(!p.is_done());
    assert_eq!(
        punish_offender(&mut p, &PunishEvent::BanFinished(true), &db),
        PunishAction::Finish(Outcome::Banned)
    );
    assert!(p.is_done());
}

#[test]
fn a_refused_ban_ends_the_punishment() {
    let db = Database::new();
    let (mut p, _) = Punishment::new("g", 30);
    punish_offender(&mut p, &PunishEvent::Settled, &db);
    punish_offender(&mut p, &PunishEvent::AuditFetched(Some("666".to_string())), &db);
    assert_eq!(punish_offender(&mut p, &PunishEvent::IdentityFetched(None), &db), PunishAction::Ban);
    assert_eq!(
        punish_offender(&mut p, &PunishEvent::BanFinished(false), &db),
        PunishAction::Finish(Outcome::BanFailed)
    );
    assert!(p.is_done());
    assert_eq!(punish_offender(&mut p, &PunishEvent::Settled, &db), PunishAction::Wait);
}

#[test]
fn the_trusted_are_not_banned() {
    let mut db = Database::new();
    db.add_whitelist("w", true).unwrap();
    db.add_admin("a", true).unwrap();
    for executor in ["w", "a"] {
        let (mut p, _) = Punishment::new("g", 22);
        punish_offender(&mut p, &PunishEvent::Settled, &db);
        assert_eq!(
            punish_offender(&mut p, &PunishEvent::AuditFetched(Some(executor.to_string())), &db),
            PunishAction::Finish(Outcome::ExecutorExempt)
        );
        assert!(p.is_done());
    }
}

#[test]
fn the_bot_does_not_ban_itself() {
    let db = Database::new();
    let (mut p, _) = Punishment::new("g", 22);
    punish_offender(&mut p, &PunishEvent::Settled, &db);
    punish_offender(&mut p, &PunishEvent::AuditFetched(Some("42".to_string())), &db);
    assert_eq!(
        punish_offender(&mut p, &PunishEvent::IdentityFetched(Some("42".to_string())), &db),
        PunishAction::Finish(Outcome::ExecutorIsBot)
    );
    assert!(p.is_done());
}

#[test]
fn events_out_of_turn_change_nothing() {
    let db = Database::new();
    let (mut p, _) = Punishment::new("g", 22);
    assert_eq!(
        punish_offender(&mut p, &PunishEvent::AuditFetched(Some("1".to_string())), &db),
        PunishAction::Wait
    );
    assert_eq!(punish_offender(&mut p, &PunishEvent::BanFinished(true), &db), PunishAction::Wait);
    assert_eq!(p.executor(), "");
    assert!(!p.is_done());
    assert_eq!(
        punish_offender(&mut p, &PunishEvent::Settled, &db),
        PunishAction::FetchAudit { action_type: 22, limit: 1 }
    );
    assert_eq!(punish_offender(&mut p, &PunishEvent::Settled, &db), PunishAction::Wait);
}

#[test]
fn an_audit_log_that_is_no_list_names_nobody() {
    assert_eq!(audit_executor(&json(r#"{"user_id":"1"}"#)), None);
    assert_eq!(audit_executor(&json("null")), None);
    assert_eq!(audit_executor(&json(r#"[{"user_id":7}]"#)), Some(String::new()));
    assert_eq!(audit_executor(&json(r#"["x"]"#)), Some(String::new()));
}
