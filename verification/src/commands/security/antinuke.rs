//! The commands and panels of the detector.

use crate::json::{as_items, as_text, member, text_field, tree, unsigned_field, Json};
use crate::rest::trees;
use crate::rules::{Rule, SettingsSnapshot};
use crate::text::{chars_of, has_prefix, matches_at, starts_with, str_eq};
use vstd::prelude::*;
use vstd::string::StrSliceExecFns;

verus! {

/// How many buttons the panel of the detector shows.
pub const BUTTON_COUNT: usize = 20;

/// How many buttons stand in one row of the panel.
pub const ROW_LENGTH: usize = 5;

/// How many options a select menu shows at most.
pub const SELECT_LIMIT: usize = 25;

/// What an antinuke command does.
#[derive(Clone, Copy, PartialEq, Eq, Structural, Debug)]
pub enum AntinukeCommand {
    /// Shows the ways to configure the detector.
    Config,
    /// Switches every rule on.
    Enable,
    /// Switches every rule off.
    Disable,
    /// Shows which rules are on.
    Settings,
    /// Shows the dashboard.
    Dashboard,
    Unknown,
}

/// What the antinuke command does, by the first word of its arguments in
/// lowercase: the dashboard for no word.
pub open spec fn antinuke_named(word: Seq<char>) -> AntinukeCommand {
    if word == "config"@ || word == "manage"@ || word == "setup"@ {
        AntinukeCommand::Config
    } else if word == "enable"@ || word == "activate"@ || word == "on"@ {
        AntinukeCommand::Enable
    } else if word == "disable"@ || word == "deactivate"@ || word == "off"@ {
        AntinukeCommand::Disable
    } else if word == "settings"@ || word == "status"@ || word == "info"@ {
        AntinukeCommand::Settings
    } else if word.len() == 0 {
        AntinukeCommand::Dashboard
    } else {
        AntinukeCommand::Unknown
    }
}

/// Tells what the antinuke command does, by the first word of its arguments
/// in lowercase.
pub fn handle_antinuke(word: &str) -> (c: AntinukeCommand)
    ensures
        c == antinuke_named(word@),
{
    if str_eq(word, "config") || str_eq(word, "manage") || str_eq(word, "setup") {
        AntinukeCommand::Config
    } else if str_eq(word, "enable") || str_eq(word, "activate") || str_eq(word, "on") {
        AntinukeCommand::Enable
    } else if str_eq(word, "disable") || str_eq(word, "deactivate") || str_eq(word, "off") {
        AntinukeCommand::Disable
    } else if str_eq(word, "settings") || str_eq(word, "status") || str_eq(word, "info") {
        AntinukeCommand::Settings
    } else if word.is_empty() {
        AntinukeCommand::Dashboard
    } else {
        AntinukeCommand::Unknown
    }
}

/// How well a community is protected, by the number of its rules that are
/// on.
#[derive(Clone, Copy, PartialEq, Eq, Structural, Debug)]
pub enum Protection {
    Minimum,
    Standard,
    Maximum,
}

/// Tells how well a community is protected: at the maximum with more than
/// twenty rules on, at the standard with more than ten.
pub fn protection_level(active: usize) -> (p: Protection)
    ensures
        p == if active > 20 {
            Protection::Maximum
        } else if active > 10 {
            Protection::Standard
        } else {
            Protection::Minimum
        },
{
    if active > 20 {
        Protection::Maximum
    } else if active > 10 {
        Protection::Standard
    } else {
        Protection::Minimum
    }
}

/// One button of the panel: what it is labelled with and which rule it
/// switches.
#[derive(Clone, Copy, PartialEq, Eq, Debug)]
pub struct Button {
    pub label: &'static str,
    pub rule: Rule,
}

/// The label of the button at position `i` of the panel.
pub open spec fn button_label(i: int) -> Seq<char> {
    if i == 0 {
        "BAN"@
    } else if i == 1 {
        "UNBAN"@
    } else if i == 2 {
        "KICK"@
    } else if i == 3 {
        "BOT"@
    } else if i == 4 {
        "PRUNE"@
    } else if i == 5 {
        "CH-ADD"@
    } else if i == 6 {
        "CH-UP"@
    } else if i == 7 {
        "CH-DEL"@
    } else if i == 8 {
        "ROLE-ADD"@
    } else if i == 9 {
        "ROLE-UP"@
    } else if i == 10 {
        "ROLE-DEL"@
    } else if i == 11 {
        "JOIN-R"@
    } else if i == 12 {
        "PING"@
    } else if i == 13 {
        "SRV-UP"@
    } else if i == 14 {
        "LOCK"@
    } else if i == 15 {
        "EMO-ADD"@
    } else if i == 16 {
        "STK-ADD"@
    } else if i == 17 {
        "WB-ADD"@
    } else if i == 18 {
        "WB-UP"@
    } else {
        "WB-DEL"@
    }
}

/// The rule that the button at position `i` of the panel switches.
pub open spec fn button_rule(i: int) -> Rule {
    if i == 0 {
        Rule::AntiBan
    } else if i == 1 {
        Rule::AntiUnban
    } else if i == 2 {
        Rule::AntiKick
    } else if i == 3 {
        Rule::AntiBot
    } else if i == 4 {
        Rule::AntiPrune
    } else if i == 5 {
        Rule::AntiChannelCreate
    } else if i == 6 {
        Rule::AntiChannelUpdate
    } else if i == 7 {
        Rule::AntiChannelDelete
    } else if i == 8 {
        Rule::AntiRoleCreate
    } else if i == 9 {
        Rule::AntiRoleUpdate
    } else if i == 10 {
        Rule::AntiRoleDelete
    } else if i == 11 {
        Rule::AntiMemberRoleUpdate
    } else if i == 12 {
        Rule::AntiEveryonePing
    } else if i == 13 {
        Rule::AntiServerUpdate
    } else if i == 14 {
        Rule::ThreadLockEnabled
    } else if i == 15 {
        Rule::AntiEmojiCreate
    } else if i == 16 {
        Rule::AntiStickerCreate
    } else if i == 17 {
        Rule::AntiWebhookCreate
    } else if i == 18 {
        Rule::AntiWebhookUpdate
    } else {
        Rule::AntiWebhookDelete
    }
}

/// The button at position `i` of the panel.
pub fn button(i: usize) -> (b: Button)
    requires
        i < BUTTON_COUNT,
    ensures
        b.label@ == button_label(i as int),
        b.rule == button_rule(i as int),
{
    match i {
        0 => Button { label: "BAN", rule: Rule::AntiBan },
        1 => Button { label: "UNBAN", rule: Rule::AntiUnban },
        2 => Button { label: "KICK", rule: Rule::AntiKick },
        3 => Button { label: "BOT", rule: Rule::AntiBot },
        4 => Button { label: "PRUNE", rule: Rule::AntiPrune },
        5 => Button { label: "CH-ADD", rule: Rule::AntiChannelCreate },
        6 => Button { label: "CH-UP", rule: Rule::AntiChannelUpdate },
        7 => Button { label: "CH-DEL", rule: Rule::AntiChannelDelete },
        8 => Button { label: "ROLE-ADD", rule: Rule::AntiRoleCreate },
        9 => Button { label: "ROLE-UP", rule: Rule::AntiRoleUpdate },
        10 => Button { label: "ROLE-DEL", rule: Rule::AntiRoleDelete },
        11 => Button { label: "JOIN-R", rule: Rule::AntiMemberRoleUpdate },
        12 => Button { label: "PING", rule: Rule::AntiEveryonePing },
        13 => Button { label: "SRV-UP", rule: Rule::AntiServerUpdate },
        14 => Button { label: "LOCK", rule: Rule::ThreadLockEnabled },
        15 => Button { label: "EMO-ADD", rule: Rule::AntiEmojiCreate },
        16 => Button { label: "STK-ADD", rule: Rule::AntiStickerCreate },
        17 => Button { label: "WB-ADD", rule: Rule::AntiWebhookCreate },
        18 => Button { label: "WB-UP", rule: Rule::AntiWebhookUpdate },
        _ => Button { label: "WB-DEL", rule: Rule::AntiWebhookDelete },
    }
}

/// The colour of a button: green (3) for a rule that is on, red (4) for one
/// that is off.
pub fn button_style(enabled: bool) -> (style: u8)
    ensures
        style == if enabled {
            3u8
        } else {
            4u8
        },
{
    if enabled {
        3
    } else {
        4
    }
}

/// What the panel of the detector is asked to do.
#[derive(Clone, Copy, PartialEq, Eq, Structural, Debug)]
pub enum PanelAction {
    /// Switch the setting that the id names and show the buttons again.
    Toggle,
    /// Switch the setting that was selected and show the select menu again.
    ToggleSelected,
    /// Show the buttons.
    ShowButtons,
    /// Show the select menu.
    ShowSelect,
    /// Show what the detector can do.
    ShowFeatures,
    /// Nothing.
    Nothing,
}

/// What the panel is asked to do by the component with the id `custom_id`.
pub open spec fn panel_action(custom_id: Seq<char>) -> PanelAction {
    if has_prefix(custom_id, "toggle_"@) {
        PanelAction::Toggle
    } else if custom_id == "antinuke_multi_select"@ {
        PanelAction::ToggleSelected
    } else if custom_id == "antinuke_config_menu"@ {
        PanelAction::ShowButtons
    } else if custom_id == "antinuke_sel_menu"@ {
        PanelAction::ShowSelect
    } else if custom_id == "antinuke_features"@ {
        PanelAction::ShowFeatures
    } else {
        PanelAction::Nothing
    }
}

/// Tells what the panel is asked to do by the id of a component.
pub fn handle_interaction(custom_id: &str) -> (action: PanelAction)
    ensures
        action == panel_action(custom_id@),
{
    if starts_with(custom_id, "toggle_") {
        PanelAction::Toggle
    } else if str_eq(custom_id, "antinuke_multi_select") {
        PanelAction::ToggleSelected
    } else if str_eq(custom_id, "antinuke_config_menu") {
        PanelAction::ShowButtons
    } else if str_eq(custom_id, "antinuke_sel_menu") {
        PanelAction::ShowSelect
    } else if str_eq(custom_id, "antinuke_features") {
        PanelAction::ShowFeatures
    } else {
        PanelAction::Nothing
    }
}

/// The name of the setting that a button switches: what follows `toggle_`
/// in the id of the button; empty for an id that does not begin so.
pub open spec fn toggle_name(custom_id: Seq<char>) -> Seq<char> {
    if has_prefix(custom_id, "toggle_"@) {
        custom_id.skip(7)
    } else {
        Seq::empty()
    }
}

/// Reads the name of the setting that a button switches out of the
/// button's id.
pub fn toggle_target(custom_id: &str) -> (setting: &str)
    ensures
        setting@ == toggle_name(custom_id@),
{
    let chars = chars_of(custom_id);
    let lead = chars_of("toggle_");
    proof {
        reveal_strlit("toggle_");
    }
    if matches_at(&chars, &lead, 0) {
        let setting = custom_id.substring_char(7, chars.len());
        assert(setting@ =~= custom_id@.skip(7));
        setting
    } else {
        custom_id.substring_char(0, 0)
    }
}

/// The rule that a setting names and the value that switching gives it:
/// the opposite of what the snapshot holds. `None` for a name that no rule
/// goes by.
pub open spec fn toggled(settings: SettingsSnapshot, setting: Seq<char>) -> Option<(Rule, bool)> {
    match Rule::named(setting) {
        Some(rule) => Some((rule, !settings.enabled(rule))),
        None => None,
    }
}

/// Tells which rule a setting names and what switching makes of it.
pub fn toggle_setting(settings: &SettingsSnapshot, setting: &str) -> (r: Option<(Rule, bool)>)
    ensures
        r == toggled(*settings, setting@),
{
    match Rule::from_name(setting) {
        Some(rule) => Some((rule, !settings.is_enabled(rule))),
        None => None,
    }
}

/// The member holds the role with the id `id`: the member's list `roles`
/// names it.
pub open spec fn holds_role(member_data: Json, id: Seq<char>) -> bool {
    match member_data.field("roles"@) {
        Some(Json::Array(ids)) => ids.contains(Json::Text(id)),
        _ => false,
    }
}

/// The highest position among the first `upto` of `roles` that the member
/// holds; 0 where the member holds none of them. A role without an id or
/// without a position counts for nothing.
pub open spec fn highest_among(roles: Seq<Json>, member_data: Json, upto: int) -> u64
    decreases upto,
{
    if upto <= 0 {
        0
    } else {
        let earlier = highest_among(roles, member_data, upto - 1);
        match (roles[upto - 1].text_field("id"@), roles[upto - 1].unsigned_field("position"@)) {
            (Some(id), Some(position)) => if holds_role(member_data, id) && position > earlier {
                position
            } else {
                earlier
            },
            _ => earlier,
        }
    }
}

/// Tells whether a member holds the role with the id `id`.
pub fn member_holds(member_data: &serde_json::Value, id: &str) -> (r: bool)
    ensures
        r == holds_role(tree(*member_data), id@),
{
    let ids = match member(member_data, "roles") {
        Some(list) => match as_items(list) {
            Some(ids) => ids,
            None => {
                return false;
            },
        },
        None => {
            return false;
        },
    };
    let ghost models = tree(*member_data).field("roles"@)->0->Array_0;
    let mut i: usize = 0;
    while i < ids.len()
        invariant
            i <= ids.len(),
            ids@.len() == models.len(),
            forall|k: int| 0 <= k < ids@.len() ==> tree(#[trigger] ids@[k]) == models[k],
            tree(*member_data).field("roles"@) == Some(Json::Array(models)),
            forall|k: int| 0 <= k < i ==> models[k] != Json::Text(id@),
        decreases ids.len() - i,
    {
        assert(tree(ids@[i as int]) == models[i as int]);
        let found = match as_text(&ids[i]) {
            Some(held) => str_eq(held, id),
            None => false,
        };
        if found {
            assert(models[i as int] == Json::Text(id@));
            return true;
        }
        i += 1;
    }
    false
}

/// Finds the highest position among the roles that a member holds.
pub fn highest_position(roles: &Vec<serde_json::Value>, member_data: &serde_json::Value) -> (p:
    u64)
    ensures
        p == highest_among(trees(roles@), tree(*member_data), roles@.len() as int),
{
    let mut highest: u64 = 0;
    let mut i: usize = 0;
    while i < roles.len()
        invariant
            i <= roles.len(),
            highest == highest_among(trees(roles@), tree(*member_data), i as int),
        decreases roles.len() - i,
    {
        assert(trees(roles@)[i as int] == tree(roles@[i as int]));
        let id = text_field(&roles[i], "id");
        let position = unsigned_field(&roles[i], "position");
        match (id, position) {
            (Some(id), Some(position)) => {
                if member_holds(member_data, id.as_str()) && position > highest {
                    highest = position;
                }
            },
            _ => {},
        }
        i += 1;
    }
    highest
}

/// The position that the bot's own role of authority is moved to: just
/// below the highest of the bot's roles, or 1 where the bot has no role
/// above the bottom.
pub fn target_position(highest: u64) -> (position: u64)
    ensures
        position == if highest > 0 {
            highest - 1
        } else {
            1
        },
{
    if highest > 0 {
        highest - 1
    } else {
        1
    }
}

} // verus!
