use rimuru_bot::commands::moderation::purge::{
    handle_purge, keeps, parse_amount, parse_plan, plan_in, select, PurgeOutcome, PurgePlan,
};
use rimuru_bot::commands::moderation::roles_lists::{
    admin_role_ids, hidden_entries, is_listed_kind, list_command, member_listed, role_command,
    role_target, ListCommand, MemberFilter, RoleCommand, LIST_LIMIT,
};
use rimuru_bot::commands::moderation::system::{
    command_switch, ignore_kind, ignore_target, required_permission, warn_command, warning_id,
    IgnoreKind, WarnCommand,
};
use rimuru_bot::gateway::decode_frame;
use rimuru_bot::rest::{
    find_role_permissions, has_permission, is_owner, member_permissions, role_permissions,
    ADMINISTRATOR,
};

fn json(text: &str) -> serde_json::Value {
    serde_json::from_str(text).unwrap()
}

fn list(text: &str) -> Vec<serde_json::Value> {
    serde_json::from_str(text).unwrap()
}

fn plan(filter_type: &str, amount: u8, target: Option<&str>, text: Option<&str>) -> PurgePlan {
    PurgePlan {
        filter_type: filter_type.to_string(),
        amount,
        target_id: target.map(|s| s.to_string()),
        filter_text: text.map(|s| s.to_string()),
    }
}

const ROLES: &str = r#"[
    {"id":"g","name":"@everyone","permissions":"1024"},
    {"id":"mod","name":"mods","permissions":"4"},
    {"id":"adm","name":"admins","permissions":"8"},
    {"id":"odd","name":"odd","permissions":"many"},
    {"id":"num","name":"num","permissions":12},
    {"name":"nameless","permissions":"8"},
    {"id":"mod","name":"shadowed","permissions":"2"}
]"#;

#[test]
fn the_owner_of_a_community_is_recognised() {
    let guild = json(r#"{"id":"g","owner_id":"42"}"#);
    assert!(is_owner(&guild, "42"));
    assert!(!is_owner(&guild, "43"));
    assert!(!is_owner(&json(r#"{"owner_id":42}"#), "42"));
    assert!(!is_owner(&json("{}"), ""));
}

#[test]
fn permissions_of_roles_are_read() {
    let roles = list(ROLES);
    assert_eq!(role_permissions(&roles[1]), 4);
    assert_eq!(role_permissions(&roles[3]), 0);
    assert_eq!(role_permissions(&roles[4]), 0);
    assert_eq!(find_role_permissions(&roles, "g"), 1024);
    assert_eq!(find_role_permissions(&roles, "mod"), 4);
    assert_eq!(find_role_permissions(&roles, "adm"), 8);
    assert_eq!(find_role_permissions(&roles, "odd"), 0);
    assert_eq!(find_role_permissions(&roles, "nobody"), 0);
    assert_eq!(find_role_permissions(&Vec::new(), "g"), 0);
}

#[test]
fn permissions_of_a_member_add_up() {
    let roles = list(ROLES);
    assert_eq!(member_permissions(&json(r#"{"roles":["mod"]}"#), &roles, "g"), 1024 | 4);
    assert_eq!(member_permissions(&json(r#"{"roles":["mod","adm",7,"x"]}"#), &roles, "g"), 1024 | 4 | 8);
    assert_eq!(member_permissions(&json(r#"{"roles":[]}"#), &roles, "g"), 1024);
    assert_eq!(member_permissions(&json(r#"{"roles":"mod"}"#), &roles, "g"), 1024);
    assert_eq!(member_permissions(&json("{}"), &roles, "g"), 1024);
    assert_eq!(member_permissions(&json(r#"{"roles":["mod"]}"#), &roles, "other"), 4);
}

#[test]
fn permissions_grant_what_they_hold() {
    assert_eq!(ADMINISTRATOR, 1 << 3);
    assert!(has_permission(8, 1 << 40));
    assert!(has_permission(4, 4));
    assert!(has_permission(6, 4));
    assert!(has_permission(6, 6));
    assert!(!has_permission(4, 6));
    assert!(!has_permission(0, 4));
    assert!(has_permission(0, 0));
    assert!(has_permission(u64::MAX, u64::MAX));
}

#[test]
fn the_plan_of_a_purge_is_read_from_its_words() {
    assert_eq!(parse_plan(""), None);
    assert_eq!(parse_plan("   "), None);
    assert_eq!(parse_plan("10"), Some(plan("10", 10, None, None)));
    assert_eq!(parse_plan("0"), Some(plan("0", 1, None, None)));
    assert_eq!(parse_plan("250"), Some(plan("250", 100, None, None)));
    assert_eq!(parse_plan("300"), Some(plan("300", 50, None, None)));
    assert_eq!(parse_plan("Bots"), Some(plan("bots", 50, None, None)));
    assert_eq!(parse_plan("bots 7"), Some(plan("bots", 7, None, None)));
    assert_eq!(parse_plan("bots lots"), Some(plan("bots", 50, None, None)));
    assert_eq!(parse_plan("<@!42>"), Some(plan("<@!42>", 50, Some("42"), None)));
    assert_eq!(parse_plan("<@42> 5"), Some(plan("<@42>", 5, None, None)));
    assert_eq!(
        parse_plan("contains Free  NITRO"),
        Some(plan("contains", 100, None, Some("free nitro")))
    );
    assert_eq!(parse_plan("contains 5"), Some(plan("contains", 100, None, Some("5"))));
    assert_eq!(parse_plan("contains"), Some(plan("contains", 50, None, None)));
    assert_eq!(plan_in(&Vec::new()), None);
    for text in ["0", "1", "100", "101", "255", "256", "", "x", "+9"] {
        assert_eq!(parse_amount(text), text.parse::<u8>().ok().map(|n| n.clamp(1, 100)));
    }
}

const MESSAGES: &str = r#"[
    {"id":"1","content":"Hello","author":{"id":"a","bot":false}},
    {"id":"2","content":"see HTTPS://x.y","author":{"id":"b","bot":true}},
    {"id":"3","content":"file","author":{"id":"a"},"attachments":[{"id":"f"}]},
    {"id":"4","content":"hey <@9>","author":{"id":"c"},"mentions":[{"id":"9"}],"attachments":[]},
    {"id":"5","content":"free NITRO here","author":{"id":"b","bot":true}},
    {"content":"no id","author":{"id":"a"}}
]"#;

fn selected(p: &PurgePlan) -> Vec<String> {
    select(p, &list(MESSAGES))
}

#[test]
fn a_purge_takes_the_messages_of_its_kind() {
    assert_eq!(selected(&plan("bots", 50, None, None)), vec!["2", "5"]);
    assert_eq!(selected(&plan("bot", 50, None, None)), vec!["2", "5"]);
    assert_eq!(selected(&plan("humans", 50, None, None)), vec!["1", "3", "4", ""]);
    assert_eq!(selected(&plan("human", 2, None, None)), vec!["1", "3"]);
    assert_eq!(selected(&plan("links", 50, None, None)), vec!["2"]);
    assert_eq!(selected(&plan("link", 50, None, None)), vec!["2"]);
    assert_eq!(selected(&plan("attachments", 50, None, None)), vec!["3"]);
    assert_eq!(selected(&plan("files", 50, None, None)), vec!["3"]);
    assert_eq!(selected(&plan("mentions", 50, None, None)), vec!["4"]);
    assert_eq!(selected(&plan("pings", 50, None, None)), vec!["4"]);
    assert_eq!(selected(&plan("contains", 100, None, Some("nitro"))), vec!["5"]);
    assert_eq!(selected(&plan("contains", 100, None, None)), Vec::<String>::new());
    assert_eq!(selected(&plan("text", 100, None, Some("nitro"))), vec!["5"]);
    assert_eq!(selected(&plan("<@a>", 50, Some("a"), None)), vec!["1", "3", ""]);
    assert_eq!(selected(&plan("10", 10, None, None)), vec!["1", "2", "3", "4", "5", ""]);
    assert_eq!(selected(&plan("3", 3, None, None)), vec!["1", "2", "3"]);
    assert_eq!(selected(&plan("0", 0, None, None)), Vec::<String>::new());
    assert_eq!(select(&plan("bots", 50, None, None), &Vec::new()), Vec::<String>::new());
}

#[test]
fn a_single_message_is_judged_by_the_plan() {
    let m = json(r#"{"id":"1","content":"Visit http://a.b","author":{"id":"a","bot":"yes"}}"#);
    assert!(keeps(&plan("links", 1, None, None), &m));
    assert!(!keeps(&plan("bots", 1, None, None), &m));
    assert!(keeps(&plan("humans", 1, None, None), &m));
    assert!(!keeps(&plan("contains", 1, None, Some("VISIT")), &m));
    assert!(keeps(&plan("contains", 1, None, Some("visit")), &m));
    assert!(keeps(&plan("anything", 1, None, None), &m));
    assert!(!keeps(&plan("anything", 1, Some("b"), None), &m));
    assert!(keeps(&plan("bots", 1, Some("b"), None), &json(r#"{"author":{"bot":true}}"#)));
}

#[test]
fn a_purge_deletes_in_bulk_from_two_messages_on() {
    assert_eq!(handle_purge(0), PurgeOutcome::NothingFound);
    assert_eq!(handle_purge(1), PurgeOutcome::SingleSkipped);
    assert_eq!(handle_purge(2), PurgeOutcome::BulkDelete);
    assert_eq!(handle_purge(100), PurgeOutcome::BulkDelete);
}

#[test]
fn role_and_list_commands_are_read() {
    assert_eq!(role_command(""), RoleCommand::Help);
    assert_eq!(role_command("user"), RoleCommand::User);
    for name in ["all", "humans", "bots"] {
        assert_eq!(role_command(name), RoleCommand::Mass);
    }
    assert_eq!(role_command("cancel"), RoleCommand::Unknown);
    assert_eq!(list_command(""), ListCommand::Help);
    assert_eq!(list_command("roles"), ListCommand::Roles);
    assert_eq!(list_command("bans"), ListCommand::Bans);
    assert_eq!(list_command("channels"), ListCommand::Channels);
    assert_eq!(list_command("bots"), ListCommand::Members(MemberFilter::Bots));
    assert_eq!(list_command("admin"), ListCommand::Members(MemberFilter::Admins));
    assert_eq!(list_command("admins"), ListCommand::Members(MemberFilter::Admins));
    assert_eq!(list_command("muted"), ListCommand::Members(MemberFilter::Muted));
    assert_eq!(list_command("ignore"), ListCommand::Ignores);
    assert_eq!(list_command("ignores"), ListCommand::Ignores);
    assert_eq!(list_command("emojis"), ListCommand::Unknown);
    assert_eq!(role_target("<@&77>"), "77");
    assert_eq!(role_target("77"), "77");
    assert_eq!(LIST_LIMIT, 20);
    assert_eq!(hidden_entries(0), 0);
    assert_eq!(hidden_entries(20), 0);
    assert_eq!(hidden_entries(21), 1);
    assert_eq!(hidden_entries(1000), 980);
    for kind in 0..8u64 {
        assert_eq!(is_listed_kind(kind), kind == 0 || kind == 2);
    }
}

#[test]
fn roles_with_the_administrators_bit_make_admins() {
    let roles = list(
        r#"[{"id":"a","permissions":"8"},{"id":"b","permissions":"4"},{"id":"c","permissions":"15"},
            {"id":"d","permissions":8},{"permissions":"8"},{"id":"e","permissions":"x"},
            {"id":"f","permissions":"9007199254740993"}]"#,
    );
    assert_eq!(admin_role_ids(&roles), vec!["a", "c"]);
    assert_eq!(admin_role_ids(&Vec::new()), Vec::<String>::new());
}

#[test]
fn members_are_listed_by_what_they_are() {
    let admins = vec!["adm".to_string()];
    let bot = json(r#"{"user":{"id":"1","bot":true},"roles":["adm"]}"#);
    let admin = json(r#"{"user":{"id":"2"},"roles":["x","adm"]}"#);
    let muted = json(r#"{"user":{"id":"3","bot":false},"roles":[],"communication_disabled_until":"2030-01-01T00:00:00Z"}"#);
    let plain = json(r#"{"user":{"id":"4"},"roles":["x",5],"communication_disabled_until":""}"#);
    let bare = json("{}");
    assert!(member_listed(MemberFilter::Bots, &bot, &admins));
    assert!(!member_listed(MemberFilter::Bots, &admin, &admins));
    assert!(!member_listed(MemberFilter::Bots, &bare, &admins));
    assert!(!member_listed(MemberFilter::Admins, &bot, &admins));
    assert!(member_listed(MemberFilter::Admins, &admin, &admins));
    assert!(!member_listed(MemberFilter::Admins, &plain, &admins));
    assert!(!member_listed(MemberFilter::Admins, &bare, &admins));
    assert!(!member_listed(MemberFilter::Admins, &admin, &Vec::new()));
    assert!(member_listed(MemberFilter::Muted, &muted, &admins));
    assert!(!member_listed(MemberFilter::Muted, &plain, &admins));
    assert!(!member_listed(MemberFilter::Muted, &admin, &admins));
}

#[test]
fn system_commands_are_read() {
    for name in ["warn", "warning"] {
        assert_eq!(required_permission(name), 1 << 40);
    }
    for name in ["command", "ignore", "unignore", "prefix"] {
        assert_eq!(required_permission(name), 1 << 5);
    }
    assert_eq!(required_permission("ban"), 0);
    assert_eq!(warn_command(""), WarnCommand::Help);
    assert_eq!(warn_command("list"), WarnCommand::List);
    assert_eq!(warn_command("remove"), WarnCommand::Remove);
    assert_eq!(warn_command("clear"), WarnCommand::Clear);
    assert_eq!(warn_command("<@5>"), WarnCommand::Issue);
    assert_eq!(warning_id("17"), 17);
    assert_eq!(warning_id("x"), 0);
    assert_eq!(warning_id("-3"), 0);
    assert_eq!(warning_id("9223372036854775807"), i64::MAX);
    assert_eq!(warning_id("9223372036854775808"), 0);
    assert_eq!(command_switch("disable"), Some(true));
    assert_eq!(command_switch("off"), Some(true));
    assert_eq!(command_switch("enable"), Some(false));
    assert_eq!(command_switch("on"), Some(false));
    assert_eq!(command_switch("toggle"), None);
}

#[test]
fn ignored_things_have_their_tables() {
    assert_eq!(ignore_kind("channel"), Some(IgnoreKind::Channel));
    assert_eq!(ignore_kind("role"), Some(IgnoreKind::Role));
    assert_eq!(ignore_kind("user"), Some(IgnoreKind::User));
    assert_eq!(ignore_kind("bypass"), Some(IgnoreKind::User));
    assert_eq!(ignore_kind("server"), None);
    assert_eq!(IgnoreKind::Channel.table(), "ignored_channels");
    assert_eq!(IgnoreKind::Channel.column(), "channel_id");
    assert_eq!(IgnoreKind::Role.table(), "ignored_roles");
    assert_eq!(IgnoreKind::Role.column(), "role_id");
    assert_eq!(IgnoreKind::User.table(), "bypass_users");
    assert_eq!(IgnoreKind::User.column(), "user_id");
    assert_eq!(ignore_target("<#12>"), "12");
    assert_eq!(ignore_target("<@&12>"), "12");
    assert_eq!(ignore_target("<@!12>"), "12");
}

#[test]
fn frames_are_decoded_from_their_text() {
    let hello = decode_frame(r#"{"t":null,"s":null,"op":10,"d":{"heartbeat_interval":41250}}"#).unwrap();
    assert_eq!(hello.op, 10);
    assert_eq!(hello.s, None);
    assert_eq!(hello.t, None);
    assert_eq!(hello.d, Some(json(r#"{"heartbeat_interval":41250}"#)));

    let event = decode_frame(r#"{"op":0,"s":42,"t":"GUILD_BAN_ADD","d":{"guild_id":"g"},"x":1}"#).unwrap();
    assert_eq!(event.op, 0);
    assert_eq!(event.s, Some(42));
    assert_eq!(event.t, Some("GUILD_BAN_ADD".to_string()));
    assert_eq!(event.d, Some(json(r#"{"guild_id":"g"}"#)));

    let ack = decode_frame(r#"{"op":11}"#).unwrap();
    assert_eq!(ack.op, 11);
    assert_eq!(ack.d, None);
    assert_eq!(ack.s, None);
    assert_eq!(ack.t, None);

    let falsy = decode_frame(r#"{"op":9,"d":false}"#).unwrap();
    assert_eq!(falsy.d, Some(json("false")));
    let null = decode_frame(r#"{"op":1,"d":null}"#).unwrap();
    assert_eq!(null.d, None);
}

#[test]
fn what_is_no_frame_is_not_decoded() {
    for text in [
        "",
        "{",
        "not json",
        "[]",
        "10",
        "{}",
        r#"{"op":"10"}"#,
        r#"{"op":256}"#,
        r#"{"op":-1}"#,
        r#"{"op":1.0}"#,
        r#"{"op":null}"#,
        r#"{"op":0,"s":"1"}"#,
        r#"{"op":0,"s":-1}"#,
        r#"{"op":0,"t":5}"#,
        r#"{"op":0,"t":["READY"]}"#,
    ] {
        assert!(decode_frame(text).is_none(), "{:?}", text);
    }
}
