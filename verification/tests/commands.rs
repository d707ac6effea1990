use rimuru_bot::commands::fun::{
    coinflip, dice_in, eight_ball, eight_ball_reply, parse_dice, response, roll, Dice, DiceError,
    EightBall, RESPONSE_COUNT,
};
use rimuru_bot::commands::general::{category_page, handle_help_interaction, HelpPage};
use rimuru_bot::commands::moderation::basic::{
    basic_command, is_forbidden, is_permitted, mute_minutes, parse_target, required_permission,
    slowmode_limit, target_in, words_after, BasicCommand, BAN_MEMBERS, KICK_MEMBERS,
    MANAGE_CHANNELS, MANAGE_GUILD, MANAGE_MESSAGES, MANAGE_NICKNAMES, MANAGE_ROLES,
    MODERATE_MEMBERS, NO_REASON,
};
use rimuru_bot::commands::moderation::channels::{
    channel_command, channel_target, is_managed_kind, overwrite_of, resolve, ChannelCommand,
    Overwrite,
};
use rimuru_bot::commands::moderation::{handle_command, ModerationCommand};
use rimuru_bot::commands::security::admin::{
    handle_admin, is_authorized, subcommand, AdminDecision, Subcommand,
};
use rimuru_bot::commands::security::antinuke::{
    button, button_style, handle_antinuke, protection_level, target_position, toggle_setting,
    toggle_target, AntinukeCommand, PanelAction, Protection, BUTTON_COUNT,
};
use rimuru_bot::commands::security::whitelist::{handle_whitelist, WhitelistDecision};
use rimuru_bot::commands::security::{security_cmd, SecurityCommand};
use rimuru_bot::constants::emojis;
use rimuru_bot::handler::{
    command_of, handle_interaction, handle_message, invocation_of, parse_invocation,
    respects_ignores, Command, InteractionRoute, Invocation, MessageRoute,
};
use rimuru_bot::models::{Interaction, InteractionData, Message, User};
use rimuru_bot::rules::{Rule, SettingsSnapshot};
use rimuru_bot::text::{join, parse_u64, trim_chars};

fn message(content: &str, bot: bool) -> Message {
    Message {
        id: "1".to_string(),
        guild_id: Some("g".to_string()),
        channel_id: "c".to_string(),
        author: User {
            id: "u".to_string(),
            username: "user".to_string(),
            discriminator: None,
            avatar: None,
            bot,
        },
        content: content.to_string(),
    }
}

fn interaction(custom_id: Option<&str>) -> Interaction {
    Interaction {
        id: "1".to_string(),
        application_id: "a".to_string(),
        kind: 3,
        data: Some(InteractionData {
            custom_id: custom_id.map(|s| s.to_string()),
            component_type: Some(2),
            values: None,
        }),
        guild_id: None,
        channel_id: None,
        message: None,
        member: None,
        user: None,
        token: "t".to_string(),
    }
}

fn words(list: &[&str]) -> Vec<String> {
    list.iter().map(|w| w.to_string()).collect()
}

#[test]
fn numbers_are_parsed_as_the_standard_library_does() {
    for text in ["0", "7", "007", "+5", "18446744073709551615", "18446744073709551616", "", "+",
        "-1", "1 ", " 1", "1_0", "0x10", "++1", "99999999999999999999999", "４"]
    {
        assert_eq!(parse_u64(text), text.parse::<u64>().ok(), "{:?}", text);
    }
}

#[test]
fn characters_are_trimmed_off_both_ends() {
    for text in ["<@123>", "<@!123>", "123", "", "<<>>", "<@1<2>!", "@", "a<@>b", "<@é>"] {
        assert_eq!(trim_chars(text, "<@>!"), text.trim_matches(&['<', '@', '>', '!'][..]));
    }
    assert_eq!(trim_chars("xxhixx", ""), "xxhixx");
    assert_eq!(trim_chars("<#5>", "<@>!#"), "5");
}

#[test]
fn words_are_joined_from_a_position_on() {
    let w = words(&["a", "b", "c"]);
    assert_eq!(join(&w, 0, " "), "a b c");
    assert_eq!(join(&w, 1, " "), "b c");
    assert_eq!(join(&w, 2, ", "), "c");
    assert_eq!(join(&w, 3, " "), "");
    assert_eq!(join(&w, 9, " "), "");
    assert_eq!(join(&w, 0, ""), "abc");
    assert_eq!(join(&Vec::new(), 0, " "), "");
}

#[test]
fn a_message_under_the_prefix_calls_a_command() {
    assert_eq!(
        handle_message(&message("!PING", false), "!"),
        MessageRoute::Serve {
            command: Command::Ping,
            invocation: Invocation { cmd: "ping".to_string(), args: String::new() },
            check_ignores: true,
        }
    );
    assert_eq!(
        handle_message(&message("??Ban   <@1>\t too   loud ", false), "??"),
        MessageRoute::Serve {
            command: Command::Moderation,
            invocation: Invocation { cmd: "ban".to_string(), args: "<@1> too loud".to_string() },
            check_ignores: true,
        }
    );
    assert_eq!(
        handle_message(&message("! help me", false), "!"),
        MessageRoute::Serve {
            command: Command::Help,
            invocation: Invocation { cmd: "help".to_string(), args: "me".to_string() },
            check_ignores: false,
        }
    );
}

#[test]
fn a_message_that_calls_nothing_is_ignored() {
    assert_eq!(handle_message(&message("!ping", true), "!"), MessageRoute::Ignore);
    assert_eq!(handle_message(&message("ping", false), "!"), MessageRoute::Ignore);
    assert_eq!(handle_message(&message("!", false), "!"), MessageRoute::Ignore);
    assert_eq!(handle_message(&message("!   ", false), "!"), MessageRoute::Ignore);
    assert_eq!(handle_message(&message("", false), "!"), MessageRoute::Ignore);
    assert_eq!(
        handle_message(&message("!dance now", false), "!"),
        MessageRoute::Unknown(Invocation { cmd: "dance".to_string(), args: "now".to_string() })
    );
}

#[test]
fn invocations_are_read_word_by_word() {
    assert_eq!(parse_invocation("!Roll 2D6", "!"), Some(Invocation { cmd: "roll".to_string(), args: "2D6".to_string() }));
    assert_eq!(parse_invocation("roll", ""), Some(Invocation { cmd: "roll".to_string(), args: String::new() }));
    assert_eq!(parse_invocation("?roll", "!"), None);
    assert_eq!(invocation_of(&Vec::new()), None);
    assert_eq!(
        invocation_of(&words(&["LIST", "Bots", "x"])),
        Some(Invocation { cmd: "list".to_string(), args: "Bots x".to_string() })
    );
}

#[test]
fn commands_are_found_by_all_their_names() {
    assert_eq!(command_of("ping"), Some(Command::Ping));
    assert_eq!(command_of("info"), Some(Command::Info));
    assert_eq!(command_of("help"), Some(Command::Help));
    for name in ["security", "s", "sec", "antinuke", "admin", "adm", "extraowner", "eo",
        "whitelist", "wl", "wlist", "unwhitelist", "uwl", "nightmode", "nm"]
    {
        assert_eq!(command_of(name), Some(Command::Security), "{}", name);
        assert!(security_cmd(name).is_some(), "{}", name);
    }
    for name in ["ban", "kick", "softban", "unban", "unbanall", "mute", "unmute", "unmuteall",
        "nick", "slowmode", "lock", "unlock", "lockall", "unlockall", "hide", "unhide", "hideall",
        "unhideall", "block", "unblock", "purge", "clear", "p", "c", "list", "l", "role", "r",
        "warn", "warning", "command", "ignore", "unignore", "prefix"]
    {
        assert_eq!(command_of(name), Some(Command::Moderation), "{}", name);
        assert!(handle_command(name).is_some(), "{}", name);
    }
    assert_eq!(command_of("8ball"), Some(Command::EightBall));
    assert_eq!(command_of("eightball"), Some(Command::EightBall));
    assert_eq!(command_of("roll"), Some(Command::Roll));
    assert_eq!(command_of("coinflip"), Some(Command::Coinflip));
    assert_eq!(command_of("Ping"), None);
    assert_eq!(command_of(""), None);
    assert!(respects_ignores("ban"));
    assert!(!respects_ignores("ignore"));
    assert!(!respects_ignores("unignore"));
    assert!(!respects_ignores("help"));
}

#[test]
fn security_commands_go_to_their_handlers() {
    assert_eq!(security_cmd("wl"), Some(SecurityCommand::Whitelist));
    assert_eq!(security_cmd("unwhitelist"), Some(SecurityCommand::Whitelist));
    assert_eq!(security_cmd("eo"), Some(SecurityCommand::Admin));
    assert_eq!(security_cmd("nm"), Some(SecurityCommand::Antinuke));
    assert_eq!(security_cmd("security"), Some(SecurityCommand::Antinuke));
    assert_eq!(security_cmd("ban"), None);
    let panel = rimuru_bot::commands::security::handle_interaction;
    assert_eq!(panel("antinuke_features"), Some(SecurityCommand::Antinuke));
    assert_eq!(panel("toggle_anti_ban"), Some(SecurityCommand::Antinuke));
    assert_eq!(panel("x_mass_y"), Some(SecurityCommand::Antinuke));
    assert_eq!(panel("whitelist_panel"), Some(SecurityCommand::Whitelist));
    assert_eq!(panel("admin_panel"), Some(SecurityCommand::Admin));
    assert_eq!(panel("help_home"), None);
    assert_eq!(panel(""), None);
}

#[test]
fn moderation_commands_go_to_their_handlers() {
    assert_eq!(handle_command("softban"), Some(ModerationCommand::Basic));
    assert_eq!(handle_command("unhideall"), Some(ModerationCommand::Channels));
    assert_eq!(handle_command("c"), Some(ModerationCommand::Purge));
    assert_eq!(handle_command("l"), Some(ModerationCommand::RolesLists));
    assert_eq!(handle_command("prefix"), Some(ModerationCommand::System));
    assert_eq!(handle_command("ping"), None);
}

#[test]
fn interactions_go_to_the_help_or_to_security() {
    assert_eq!(handle_interaction(&interaction(Some("help_home"))), InteractionRoute::Help);
    assert_eq!(handle_interaction(&interaction(Some("help_"))), InteractionRoute::Help);
    assert_eq!(handle_interaction(&interaction(Some("toggle_anti_ban"))), InteractionRoute::Security);
    assert_eq!(handle_interaction(&interaction(Some("helper"))), InteractionRoute::Security);
    assert_eq!(handle_interaction(&interaction(None)), InteractionRoute::Security);
    let mut bare = interaction(None);
    bare.data = None;
    assert_eq!(handle_interaction(&bare), InteractionRoute::Security);
}

#[test]
fn the_help_shows_the_page_asked_for() {
    assert_eq!(handle_help_interaction("help_home", ""), Some(HelpPage::Home));
    assert_eq!(handle_help_interaction("help_cat_fun", ""), Some(HelpPage::Fun));
    assert_eq!(handle_help_interaction("help_cat_general", "help_cat_fun"), Some(HelpPage::General));
    assert_eq!(handle_help_interaction("help_cat_security", ""), Some(HelpPage::Security));
    assert_eq!(handle_help_interaction("help_cat_moderation", ""), Some(HelpPage::Moderation));
    assert_eq!(
        handle_help_interaction("help_category_select", "help_cat_moderation"),
        Some(HelpPage::Moderation)
    );
    assert_eq!(handle_help_interaction("help_category_select", ""), Some(HelpPage::Unknown));
    assert_eq!(handle_help_interaction("help_commands_list", ""), None);
    assert_eq!(category_page("help_cat_nothing"), HelpPage::Unknown);
}

#[test]
fn the_eight_ball_answers_what_was_drawn() {
    assert_eq!(RESPONSE_COUNT, 20);
    assert_eq!(response(0), "It is certain.");
    assert_eq!(response(9), "Signs point to yes.");
    assert_eq!(response(10), "Reply hazy, try again.");
    assert_eq!(response(14), "Concentrate and ask again.");
    assert_eq!(response(15), "Don't count on it.");
    assert_eq!(response(19), "Very doubtful.");
    assert_eq!(eight_ball_reply("", 3), EightBall::Usage);
    assert_eq!(
        eight_ball_reply("will it work?", 12),
        EightBall::Answer {
            question: "will it work?".to_string(),
            emoji: emojis::CRYSTAL,
            answer: "Better not tell you now.",
        }
    );
}

#[test]
fn the_eight_ball_draws_one_of_its_answers() {
    assert_eq!(eight_ball("  \t "), EightBall::Usage);
    assert_eq!(eight_ball(""), EightBall::Usage);
    for _ in 0..200 {
        match eight_ball("  will it rain?  ") {
            EightBall::Answer { question, emoji, answer } => {
                assert_eq!(question, "will it rain?");
                let idx = (0..20).find(|i| response(*i) == answer).unwrap();
                assert_eq!(emoji, rimuru_bot::commands::fun::ball_emoji(idx));
            }
            EightBall::Usage => panic!("a question was asked"),
        }
    }
}

#[test]
fn dice_are_named_by_count_and_sides() {
    assert_eq!(dice_in("2d6"), Ok(Dice { count: 2, sides: 6 }));
    assert_eq!(dice_in("1d2"), Ok(Dice { count: 1, sides: 2 }));
    assert_eq!(dice_in("100d1000"), Ok(Dice { count: 100, sides: 1000 }));
    assert_eq!(dice_in("+3d+4"), Ok(Dice { count: 3, sides: 4 }));
    assert_eq!(dice_in("26"), Err(DiceError::Format));
    assert_eq!(dice_in("2d6d8"), Err(DiceError::Format));
    assert_eq!(dice_in(""), Err(DiceError::Format));
    assert_eq!(dice_in("d6"), Err(DiceError::Count));
    assert_eq!(dice_in("0d6"), Err(DiceError::Count));
    assert_eq!(dice_in("101d6"), Err(DiceError::Count));
    assert_eq!(dice_in("xd6"), Err(DiceError::Count));
    assert_eq!(dice_in("-1d6"), Err(DiceError::Count));
    assert_eq!(dice_in("2d"), Err(DiceError::Sides));
    assert_eq!(dice_in("2d1"), Err(DiceError::Sides));
    assert_eq!(dice_in("2d1001"), Err(DiceError::Sides));
    assert_eq!(dice_in("2d 6"), Err(DiceError::Sides));
    assert_eq!(dice_in("99999999999999999999d6"), Err(DiceError::Count));
}

#[test]
fn the_argument_of_a_roll_is_tidied_first() {
    assert_eq!(parse_dice(""), Ok(Dice { count: 1, sides: 6 }));
    assert_eq!(parse_dice("   "), Ok(Dice { count: 1, sides: 6 }));
    assert_eq!(parse_dice(" 3D20 "), Ok(Dice { count: 3, sides: 20 }));
    assert_eq!(parse_dice("3 d 20"), Err(DiceError::Count));
    assert_eq!(parse_dice("dice"), Err(DiceError::Count));
    assert_eq!(parse_dice("six"), Err(DiceError::Format));
}

#[test]
fn every_die_shows_one_of_its_sides() {
    for (count, sides) in [(1u32, 2u32), (1, 6), (5, 20), (100, 1000), (100, 2)] {
        for _ in 0..20 {
            let outcome = roll(Dice { count, sides });
            assert_eq!(outcome.rolls.len(), count as usize);
            assert!(outcome.rolls.iter().all(|r| 1 <= *r && *r <= sides));
            assert_eq!(outcome.total, outcome.rolls.iter().sum::<u32>());
        }
    }
}

#[test]
fn a_coin_has_two_sides() {
    assert_eq!(coinflip(true), "Heads!");
    assert_eq!(coinflip(false), "Tails!");
}

#[test]
fn every_basic_command_asks_its_permission() {
    assert_eq!(BAN_MEMBERS, 1 << 2);
    assert_eq!(KICK_MEMBERS, 1 << 1);
    assert_eq!(MODERATE_MEMBERS, 1 << 40);
    assert_eq!(MANAGE_NICKNAMES, 1 << 27);
    assert_eq!(MANAGE_CHANNELS, 1 << 4);
    assert_eq!(MANAGE_GUILD, 1 << 5);
    assert_eq!(MANAGE_MESSAGES, 1 << 13);
    assert_eq!(MANAGE_ROLES, 1 << 28);
    for name in ["ban", "softban", "unban", "unbanall"] {
        assert_eq!(required_permission(name), 1 << 2);
    }
    assert_eq!(required_permission("kick"), 1 << 1);
    assert_eq!(required_permission("mute"), 1 << 40);
    assert_eq!(required_permission("unmute"), 1 << 40);
    assert_eq!(required_permission("nick"), 1 << 27);
    assert_eq!(required_permission("slowmode"), 1 << 4);
    assert_eq!(required_permission("unmuteall"), 0);
    assert_eq!(required_permission("dance"), 0);
    assert!(is_permitted(0, false, false));
    assert!(is_permitted(4, true, false));
    assert!(is_permitted(4, false, true));
    assert!(!is_permitted(4, false, false));
    assert_eq!(basic_command("softban"), Some(BasicCommand::Softban));
    assert_eq!(basic_command("unbanall"), Some(BasicCommand::UnbanAll));
    assert_eq!(basic_command("unmuteall"), None);
}

#[test]
fn target_and_reason_are_read_from_the_arguments() {
    let t = parse_target("<@!42> spamming   the chat");
    assert_eq!(t.id, "42");
    assert_eq!(t.reason, "spamming the chat");
    let t = parse_target("42");
    assert_eq!(t.id, "42");
    assert_eq!(t.reason, NO_REASON);
    assert_eq!(NO_REASON, "No reason provided");
    let t = parse_target("");
    assert_eq!(t.id, "");
    assert_eq!(t.reason, "No reason provided");
    let t = target_in(&words(&["<@>", "x"]));
    assert_eq!(t.id, "");
    assert_eq!(t.reason, "x");
    assert_eq!(words_after(&words(&["a", "10m", "too", "loud"]), 2, NO_REASON), "too loud");
    assert_eq!(words_after(&words(&["a", "10m"]), 2, NO_REASON), "No reason provided");
}

#[test]
fn durations_are_counted_in_minutes() {
    assert_eq!(mute_minutes("10m"), Some(10));
    assert_eq!(mute_minutes("10"), Some(10));
    assert_eq!(mute_minutes("1h"), Some(60));
    assert_eq!(mute_minutes("2d"), Some(2880));
    assert_eq!(mute_minutes("+3h"), Some(180));
    assert_eq!(mute_minutes("0m"), None);
    assert_eq!(mute_minutes("0"), None);
    assert_eq!(mute_minutes("-5m"), None);
    assert_eq!(mute_minutes("m"), None);
    assert_eq!(mute_minutes(""), None);
    assert_eq!(mute_minutes("tenm"), None);
    assert_eq!(mute_minutes("1w"), None);
    assert_eq!(mute_minutes("9223372036854775807"), Some(i64::MAX));
    assert_eq!(mute_minutes("9223372036854775808"), None);
    assert_eq!(mute_minutes("9223372036854775807h"), None);
    assert_eq!(mute_minutes("6405119470038038d"), Some(6405119470038038 * 1440));
    assert_eq!(mute_minutes("6405119470038039d"), None);
}

#[test]
fn slow_mode_and_refusals_are_read() {
    assert_eq!(slowmode_limit("30"), 30);
    assert_eq!(slowmode_limit("65535"), 65535);
    assert_eq!(slowmode_limit("65536"), 0);
    assert_eq!(slowmode_limit("fast"), 0);
    assert_eq!(slowmode_limit(""), 0);
    assert!(is_forbidden("API error: 403 Forbidden - missing permissions"));
    assert!(!is_forbidden("API error: 404 Not Found"));
}

#[test]
fn channel_commands_change_the_right_permissions() {
    assert_eq!(channel_command("lock"), Some(ChannelCommand::Lock));
    assert_eq!(channel_command("unhideall"), Some(ChannelCommand::UnhideAll));
    assert_eq!(channel_command("ban"), None);
    assert_eq!(channel_target("<#123>"), "123");
    assert_eq!(channel_target("<@!5>"), "5");
    assert_eq!(channel_target("all"), "all");
    assert_eq!(resolve(ChannelCommand::Lock, "all"), ChannelCommand::LockAll);
    assert_eq!(resolve(ChannelCommand::Unlock, "all"), ChannelCommand::UnlockAll);
    assert_eq!(resolve(ChannelCommand::Hide, "all"), ChannelCommand::HideAll);
    assert_eq!(resolve(ChannelCommand::Unhide, "all"), ChannelCommand::UnhideAll);
    assert_eq!(resolve(ChannelCommand::Block, "all"), ChannelCommand::Block);
    assert_eq!(resolve(ChannelCommand::Lock, "123"), ChannelCommand::Lock);
    assert_eq!(resolve(ChannelCommand::Lock, ""), ChannelCommand::Lock);
    assert_eq!(overwrite_of(ChannelCommand::Lock), Overwrite { allow: "0", deny: "2048", kind: 0 });
    assert_eq!(overwrite_of(ChannelCommand::UnlockAll), Overwrite { allow: "2048", deny: "0", kind: 0 });
    assert_eq!(overwrite_of(ChannelCommand::Hide), Overwrite { allow: "0", deny: "1024", kind: 0 });
    assert_eq!(overwrite_of(ChannelCommand::Unhide), Overwrite { allow: "1024", deny: "0", kind: 0 });
    assert_eq!(overwrite_of(ChannelCommand::Block), Overwrite { allow: "0", deny: "3072", kind: 1 });
    assert_eq!(overwrite_of(ChannelCommand::Unblock), Overwrite { allow: "3072", deny: "0", kind: 1 });
    for kind in 0..10u64 {
        assert_eq!(is_managed_kind(kind), kind == 0 || kind == 2 || kind == 5);
    }
}

#[test]
fn commands_on_the_trust_lists_are_decided() {
    assert_eq!(subcommand("add"), Subcommand::Add);
    assert_eq!(subcommand("remove"), Subcommand::Remove);
    assert_eq!(subcommand("list"), Subcommand::List);
    assert_eq!(subcommand(""), Subcommand::Usage);
    assert_eq!(subcommand("ADD"), Subcommand::Unknown);
    assert!(is_authorized(true, false));
    assert!(is_authorized(false, true));
    assert!(!is_authorized(false, false));

    assert_eq!(handle_admin(false, false, Subcommand::List, "", "me"), AdminDecision::Denied);
    assert_eq!(handle_admin(true, false, Subcommand::Add, "9", "me"), AdminDecision::OwnerOnly);
    assert_eq!(handle_admin(true, false, Subcommand::Remove, "9", "me"), AdminDecision::OwnerOnly);
    assert_eq!(handle_admin(false, true, Subcommand::Add, "", "me"), AdminDecision::InvalidTarget);
    assert_eq!(handle_admin(false, true, Subcommand::Add, "9", "me"), AdminDecision::Add);
    assert_eq!(handle_admin(false, true, Subcommand::Add, "me", "me"), AdminDecision::Add);
    assert_eq!(handle_admin(false, true, Subcommand::Remove, "", "me"), AdminDecision::InvalidTarget);
    assert_eq!(handle_admin(false, true, Subcommand::Remove, "me", "me"), AdminDecision::SelfRemoval);
    assert_eq!(handle_admin(true, true, Subcommand::Remove, "9", "me"), AdminDecision::Remove);
    assert_eq!(handle_admin(true, false, Subcommand::List, "", "me"), AdminDecision::List);
    assert_eq!(handle_admin(true, false, Subcommand::Usage, "", "me"), AdminDecision::Usage);
    assert_eq!(handle_admin(true, false, Subcommand::Unknown, "", "me"), AdminDecision::Unknown);

    assert_eq!(handle_whitelist(false, false, Subcommand::Add, "9"), WhitelistDecision::Denied);
    assert_eq!(handle_whitelist(true, false, Subcommand::Add, "9"), WhitelistDecision::Add);
    assert_eq!(handle_whitelist(false, true, Subcommand::Add, ""), WhitelistDecision::InvalidTarget);
    assert_eq!(handle_whitelist(true, false, Subcommand::Remove, "9"), WhitelistDecision::Remove);
    assert_eq!(handle_whitelist(true, false, Subcommand::Remove, ""), WhitelistDecision::InvalidTarget);
    assert_eq!(handle_whitelist(true, false, Subcommand::List, ""), WhitelistDecision::List);
    assert_eq!(handle_whitelist(true, false, Subcommand::Usage, ""), WhitelistDecision::Usage);
    assert_eq!(handle_whitelist(true, false, Subcommand::Unknown, ""), WhitelistDecision::Unknown);
}

#[test]
fn the_detectors_commands_and_panel_are_read() {
    for name in ["config", "manage", "setup"] {
        assert_eq!(handle_antinuke(name), AntinukeCommand::Config);
    }
    for name in ["enable", "activate", "on"] {
        assert_eq!(handle_antinuke(name), AntinukeCommand::Enable);
    }
    for name in ["disable", "deactivate", "off"] {
        assert_eq!(handle_antinuke(name), AntinukeCommand::Disable);
    }
    for name in ["settings", "status", "info"] {
        assert_eq!(handle_antinuke(name), AntinukeCommand::Settings);
    }
    assert_eq!(handle_antinuke(""), AntinukeCommand::Dashboard);
    assert_eq!(handle_antinuke("explode"), AntinukeCommand::Unknown);

    let panel = rimuru_bot::commands::security::antinuke::handle_interaction;
    assert_eq!(panel("toggle_anti_ban"), PanelAction::Toggle);
    assert_eq!(panel("toggle_"), PanelAction::Toggle);
    assert_eq!(panel("antinuke_multi_select"), PanelAction::ToggleSelected);
    assert_eq!(panel("antinuke_config_menu"), PanelAction::ShowButtons);
    assert_eq!(panel("antinuke_sel_menu"), PanelAction::ShowSelect);
    assert_eq!(panel("antinuke_features"), PanelAction::ShowFeatures);
    assert_eq!(panel("antinuke_other"), PanelAction::Nothing);
    assert_eq!(panel(""), PanelAction::Nothing);
    assert_eq!(toggle_target("toggle_anti_ban"), "anti_ban");
    assert_eq!(toggle_target("toggle_"), "");
    assert_eq!(toggle_target("anti_ban"), "");
}

#[test]
fn switching_a_setting_gives_its_opposite() {
    let s = SettingsSnapshot::defaults();
    assert_eq!(toggle_setting(&s, "anti_ban"), Some((Rule::AntiBan, true)));
    assert_eq!(toggle_setting(&s, "thread_lock_enabled"), Some((Rule::ThreadLockEnabled, false)));
    assert_eq!(toggle_setting(&s, "anti_gravity"), None);
    let on = SettingsSnapshot::uniform(true);
    assert_eq!(toggle_setting(&on, "anti_ban"), Some((Rule::AntiBan, false)));
}

#[test]
fn the_panel_has_twenty_buttons() {
    assert_eq!(BUTTON_COUNT, 20);
    let expected = [
        ("BAN", Rule::AntiBan),
        ("UNBAN", Rule::AntiUnban),
        ("KICK", Rule::AntiKick),
        ("BOT", Rule::AntiBot),
        ("PRUNE", Rule::AntiPrune),
        ("CH-ADD", Rule::AntiChannelCreate),
        ("CH-UP", Rule::AntiChannelUpdate),
        ("CH-DEL", Rule::AntiChannelDelete),
        ("ROLE-ADD", Rule::AntiRoleCreate),
        ("ROLE-UP", Rule::AntiRoleUpdate),
        ("ROLE-DEL", Rule::AntiRoleDelete),
        ("JOIN-R", Rule::AntiMemberRoleUpdate),
        ("PING", Rule::AntiEveryonePing),
        ("SRV-UP", Rule::AntiServerUpdate),
        ("LOCK", Rule::ThreadLockEnabled),
        ("EMO-ADD", Rule::AntiEmojiCreate),
        ("STK-ADD", Rule::AntiStickerCreate),
        ("WB-ADD", Rule::AntiWebhookCreate),
        ("WB-UP", Rule::AntiWebhookUpdate),
        ("WB-DEL", Rule::AntiWebhookDelete),
    ];
    for (i, (label, rule)) in expected.into_iter().enumerate() {
        let b = button(i);
        assert_eq!(b.label, label);
        assert_eq!(b.rule, rule);
    }
    assert_eq!(button_style(true), 3);
    assert_eq!(button_style(false), 4);
}

#[test]
fn protection_grows_with_the_rules_that_are_on() {
    assert_eq!(protection_level(0), Protection::Minimum);
    assert_eq!(protection_level(10), Protection::Minimum);
    assert_eq!(protection_level(11), Protection::Standard);
    assert_eq!(protection_level(20), Protection::Standard);
    assert_eq!(protection_level(21), Protection::Maximum);
    assert_eq!(protection_level(30), Protection::Maximum);
    assert_eq!(target_position(0), 1);
    assert_eq!(target_position(1), 0);
    assert_eq!(target_position(7), 6);
}

#[test]
fn the_highest_role_of_a_member_is_found() {
    let roles: Vec<serde_json::Value> = serde_json::from_str(
        r#"[{"id":"a","position":3},{"id":"b","position":9},{"id":"c","position":5},
            {"id":"d","position":"7"},{"position":20},{"id":"e","position":1}]"#,
    )
    .unwrap();
    let member = |text: &str| serde_json::from_str::<serde_json::Value>(text).unwrap();
    let highest = rimuru_bot::commands::security::antinuke::highest_position;
    let holds = rimuru_bot::commands::security::antinuke::member_holds;
    assert_eq!(highest(&roles, &member(r#"{"roles":["a","c","e"]}"#)), 5);
    assert_eq!(highest(&roles, &member(r#"{"roles":["e"]}"#)), 1);
    assert_eq!(highest(&roles, &member(r#"{"roles":["a","b","c","d"]}"#)), 9);
    assert_eq!(highest(&roles, &member(r#"{"roles":["d"]}"#)), 0);
    assert_eq!(highest(&roles, &member(r#"{"roles":[]}"#)), 0);
    assert_eq!(highest(&roles, &member("{}")), 0);
    assert_eq!(highest(&Vec::new(), &member(r#"{"roles":["a"]}"#)), 0);
    assert!(holds(&member(r#"{"roles":["a",7,"b"]}"#), "b"));
    assert!(!holds(&member(r#"{"roles":["a",7,"b"]}"#), "7"));
    assert!(!holds(&member(r#"{"roles":"a"}"#), "a"));
}
