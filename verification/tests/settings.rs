use rimuru_bot::db::{Database, DbError, StoredRow};
use rimuru_bot::rules::{Rule, SettingsSnapshot, RULE_COUNT};

fn every_rule() -> Vec<Rule> {
    (0..RULE_COUNT).map(|i| Rule::from_ordinal(i).unwrap()).collect()
}

#[test]
fn rules_are_numbered_in_the_order_of_their_columns() {
    assert_eq!(RULE_COUNT, 31);
    assert_eq!(Rule::AntiBan.ordinal(), 0);
    assert_eq!(Rule::AntiKick.ordinal(), 2);
    assert_eq!(Rule::AutoRecovery.ordinal(), 29);
    assert_eq!(Rule::ThreadLockEnabled.ordinal(), 30);
    assert_eq!(Rule::from_ordinal(31), None);
    for (i, rule) in every_rule().into_iter().enumerate() {
        assert_eq!(rule.ordinal(), i);
    }
}

#[test]
fn rules_are_found_by_their_names() {
    assert_eq!(Rule::AntiBan.name(), "anti_ban");
    assert_eq!(Rule::AntiGuildEventDelete.name(), "anti_guild_event_delete");
    assert_eq!(Rule::ThreadLockEnabled.name(), "thread_lock_enabled");
    assert_eq!(Rule::from_name("anti_kick"), Some(Rule::AntiKick));
    assert_eq!(Rule::from_name("auto_recovery"), Some(Rule::AutoRecovery));
    assert_eq!(Rule::from_name("anti_everything"), None);
    assert_eq!(Rule::from_name(""), None);
    assert_eq!(Rule::from_name("ANTI_BAN"), None);
    for rule in every_rule() {
        assert_eq!(Rule::from_name(rule.name()), Some(rule));
    }
}

#[test]
fn defaults_have_only_the_thread_lock_on() {
    let s = SettingsSnapshot::defaults();
    for rule in every_rule() {
        assert_eq!(s.is_enabled(rule), rule == Rule::ThreadLockEnabled);
    }
    assert_eq!(s.active_count(), 1);
}

#[test]
fn uniform_sets_every_rule() {
    let on = SettingsSnapshot::uniform(true);
    let off = SettingsSnapshot::uniform(false);
    for rule in every_rule() {
        assert!(on.is_enabled(rule));
        assert!(!off.is_enabled(rule));
    }
    assert_eq!(on.active_count(), 30);
    assert_eq!(off.active_count(), 0);
}

#[test]
fn with_changes_one_rule_only() {
    let s = SettingsSnapshot::defaults().with(Rule::AntiBot, true);
    for rule in every_rule() {
        assert_eq!(s.is_enabled(rule), rule == Rule::AntiBot || rule == Rule::ThreadLockEnabled);
    }
    let back = s.with(Rule::AntiBot, false);
    assert_eq!(back, SettingsSnapshot::defaults());
}

#[test]
fn a_row_is_read_column_by_column() {
    let mut row = vec![0i32; 31];
    row[0] = 1;
    row[7] = 1;
    row[12] = 2;
    row[30] = -1;
    let s = SettingsSnapshot::from_columns(&row).unwrap();
    for rule in every_rule() {
        assert_eq!(s.is_enabled(rule), rule == Rule::AntiBan || rule == Rule::AntiChannelDelete);
    }
    assert_eq!(SettingsSnapshot::from_columns(&vec![1; 30]), None);
    assert_eq!(SettingsSnapshot::from_columns(&vec![1; 32]), None);
    assert_eq!(SettingsSnapshot::from_columns(&Vec::new()), None);
}

#[test]
fn a_snapshot_goes_to_columns_and_back() {
    let s = SettingsSnapshot::defaults().with(Rule::AntiKick, true);
    let row = s.to_columns();
    assert_eq!(row.len(), 31);
    assert_eq!(row[2], 1);
    assert_eq!(row[0], 0);
    assert_eq!(row[30], 1);
    assert_eq!(SettingsSnapshot::from_columns(&row), Some(s));
}

#[test]
fn settings_of_a_community_without_a_row_are_the_defaults() {
    let mut db = Database::new();
    assert_eq!(db.get_antinuke_settings("g1"), None);
    let s = db.load_antinuke_settings("g1", &StoredRow::Missing);
    assert!(s.is_enabled(Rule::ThreadLockEnabled));
    for rule in every_rule() {
        if rule != Rule::ThreadLockEnabled {
            assert!(!s.is_enabled(rule));
        }
    }
    assert_eq!(db.get_antinuke_settings("g1"), Some(s));
}

#[test]
fn a_stored_row_is_cached_on_a_miss() {
    let mut db = Database::new();
    let mut row = vec![0i32; 31];
    row[1] = 1;
    let s = db.load_antinuke_settings("g", &StoredRow::Row(row));
    assert!(s.is_enabled(Rule::AntiUnban));
    assert!(!s.is_enabled(Rule::ThreadLockEnabled));
    assert_eq!(db.get_antinuke_settings("g"), Some(s));
    assert_eq!(db.get_antinuke_settings("other"), None);
}

#[test]
fn a_failed_read_gives_the_defaults_and_caches_nothing() {
    let mut db = Database::new();
    let s = db.load_antinuke_settings("g", &StoredRow::Failed);
    assert_eq!(s, SettingsSnapshot::defaults());
    assert_eq!(db.get_antinuke_settings("g"), None);
    let s = db.load_antinuke_settings("g", &StoredRow::Row(vec![1; 3]));
    assert_eq!(s, SettingsSnapshot::defaults());
    assert_eq!(db.get_antinuke_settings("g"), None);
}

#[test]
fn a_cached_snapshot_wins_over_a_row_loaded_late() {
    let mut db = Database::new();
    assert_eq!(db.bulk_update_antinuke("g", true, true), Ok(()));
    let s = db.load_antinuke_settings("g", &StoredRow::Missing);
    assert_eq!(s, SettingsSnapshot::uniform(true));
    assert_eq!(db.get_antinuke_settings("g"), Some(SettingsSnapshot::uniform(true)));
}

#[test]
fn bulk_update_then_get_returns_every_rule_on() {
    let mut db = Database::new();
    assert_eq!(db.update_antinuke_setting("c", "anti_bot", true, true), Ok(()));
    assert_eq!(db.bulk_update_antinuke("c", true, true), Ok(()));
    let s = db.get_antinuke_settings("c").unwrap();
    for rule in every_rule() {
        assert!(s.is_enabled(rule));
    }
    assert_eq!(db.bulk_update_antinuke("c", false, true), Ok(()));
    let s = db.get_antinuke_settings("c").unwrap();
    for rule in every_rule() {
        assert!(!s.is_enabled(rule));
    }
    assert_eq!(s, SettingsSnapshot::uniform(false));
}

#[test]
fn two_updates_do_not_clobber_each_other() {
    let mut db = Database::new();
    let mut row = vec![0i32; 31];
    row[8] = 1;
    row[30] = 1;
    let before = db.load_antinuke_settings("c", &StoredRow::Row(row));
    assert_eq!(db.update_antinuke_setting("c", "anti_ban", true, true), Ok(()));
    assert_eq!(db.update_antinuke_setting("c", "anti_kick", true, true), Ok(()));
    let after = db.get_antinuke_settings("c").unwrap();
    assert!(after.is_enabled(Rule::AntiBan));
    assert!(after.is_enabled(Rule::AntiKick));
    for rule in every_rule() {
        if rule != Rule::AntiBan && rule != Rule::AntiKick {
            assert_eq!(after.is_enabled(rule), before.is_enabled(rule));
        }
    }
    assert!(after.is_enabled(Rule::AntiRoleCreate));
}

#[test]
fn an_update_without_a_cached_snapshot_starts_from_the_defaults() {
    let mut db = Database::new();
    assert_eq!(db.update_antinuke_setting("c", "anti_prune", true, true), Ok(()));
    let s = db.get_antinuke_settings("c").unwrap();
    assert_eq!(s, SettingsSnapshot::defaults().with(Rule::AntiPrune, true));
    assert_eq!(db.get_antinuke_settings("d"), None);
}

#[test]
fn an_update_of_an_unknown_setting_is_refused() {
    let mut db = Database::new();
    assert_eq!(
        db.update_antinuke_setting("c", "anti_gravity", true, true),
        Err(DbError::UnknownSetting)
    );
    assert_eq!(db.get_antinuke_settings("c"), None);
}

#[test]
fn a_failed_write_leaves_the_cache_alone() {
    let mut db = Database::new();
    assert_eq!(db.update_antinuke_setting("c", "anti_ban", true, false), Err(DbError::Storage));
    assert_eq!(db.get_antinuke_settings("c"), None);
    assert_eq!(db.bulk_update_antinuke("c", true, false), Err(DbError::Storage));
    assert_eq!(db.get_antinuke_settings("c"), None);
    assert_eq!(db.bulk_update_antinuke("c", true, true), Ok(()));
    assert_eq!(db.update_antinuke_setting("c", "anti_ban", false, false), Err(DbError::Storage));
    assert_eq!(db.get_antinuke_settings("c"), Some(SettingsSnapshot::uniform(true)));
}

#[test]
fn trust_sets_follow_successful_writes_only() {
    let mut db = Database::new();
    assert!(!db.is_whitelisted("1"));
    assert_eq!(db.add_whitelist("1", false), Err(DbError::Storage));
    assert!(!db.is_whitelisted("1"));
    assert_eq!(db.add_whitelist("1", true), Ok(()));
    assert!(db.is_whitelisted("1"));
    assert!(!db.is_admin("1"));
    assert!(db.is_exempt("1"));
    assert_eq!(db.remove_whitelist("1", false), Err(DbError::Storage));
    assert!(db.is_whitelisted("1"));
    assert_eq!(db.remove_whitelist("1", true), Ok(()));
    assert!(!db.is_whitelisted("1"));
    assert!(!db.is_exempt("1"));

    assert_eq!(db.add_admin("2", false), Err(DbError::Storage));
    assert!(!db.is_admin("2"));
    assert_eq!(db.add_admin("2", true), Ok(()));
    assert!(db.is_admin("2"));
    assert!(!db.is_whitelisted("2"));
    assert!(db.is_exempt("2"));
    assert_eq!(db.remove_admin("2", false), Err(DbError::Storage));
    assert!(db.is_admin("2"));
    assert_eq!(db.remove_admin("2", true), Ok(()));
    assert!(!db.is_admin("2"));
}

#[test]
fn removing_somebody_who_is_not_there_changes_nothing() {
    let mut db = Database::new();
    assert_eq!(db.add_whitelist("1", true), Ok(()));
    assert_eq!(db.remove_whitelist("9", true), Ok(()));
    assert!(db.is_whitelisted("1"));
    assert_eq!(db.add_whitelist("1", true), Ok(()));
    assert!(db.is_whitelisted("1"));
}

#[test]
fn preloading_fills_both_trust_sets() {
    let mut db = Database::new();
    db.preload_caches(
        &vec!["10".to_string(), "11".to_string(), "10".to_string()],
        &vec!["20".to_string()],
    );
    assert!(db.is_whitelisted("10"));
    assert!(db.is_whitelisted("11"));
    assert!(!db.is_whitelisted("20"));
    assert!(db.is_admin("20"));
    assert!(!db.is_admin("10"));
    assert!(!db.is_exempt("30"));
}

#[test]
fn prefixes_are_cached_and_default_to_a_bang() {
    let mut db = Database::new();
    assert_eq!(db.get_prefix("g"), None);
    assert_eq!(db.load_prefix("g", None), "!");
    assert_eq!(db.get_prefix("g"), Some("!".to_string()));
    assert_eq!(db.load_prefix("h", Some("?".to_string())), "?");
    assert_eq!(db.get_prefix("h"), Some("?".to_string()));
    assert_eq!(db.set_prefix("g", "$", false), Err(DbError::Storage));
    assert_eq!(db.get_prefix("g"), Some("!".to_string()));
    assert_eq!(db.set_prefix("g", "$", true), Ok(()));
    assert_eq!(db.get_prefix("g"), Some("$".to_string()));
    assert_eq!(db.get_prefix("h"), Some("?".to_string()));
}
