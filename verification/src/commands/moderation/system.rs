//! Warnings, prefixes, ignore lists and the switching of commands.

use crate::commands::moderation::basic::{
    words_after, words_from, MANAGE_GUILD, MENTION_MARKS, MODERATE_MEMBERS, NO_REASON,
};
use crate::text::{
    lowercase_of, parse_u64, split_whitespace, str_eq, to_lowercase, trim_chars, trimmed_of,
    unsigned_of, views_of, word, word_at, words_of,
};
use vstd::prelude::*;

verus! {

/// The characters that stand around the id in a mention of a user, a
/// channel or a role.
pub const ANY_MARKS: &'static str = "<@!#&>";

/// The permission that the command `cmd` of this handler asks of whoever
/// calls it; 0 for a command that asks none.
pub open spec fn permission_for(cmd: Seq<char>) -> u64 {
    if cmd == "warn"@ || cmd == "warning"@ {
        MODERATE_MEMBERS
    } else if cmd == "command"@ || cmd == "ignore"@ || cmd == "unignore"@ || cmd == "prefix"@ {
        MANAGE_GUILD
    } else {
        0
    }
}

/// The permission that a command of this handler asks of whoever calls it.
pub fn required_permission(cmd: &str) -> (p: u64)
    ensures
        p == permission_for(cmd@),
{
    if str_eq(cmd, "warn") || str_eq(cmd, "warning") {
        MODERATE_MEMBERS
    } else if str_eq(cmd, "command") || str_eq(cmd, "ignore") || str_eq(cmd, "unignore")
        || str_eq(cmd, "prefix") {
        MANAGE_GUILD
    } else {
        0
    }
}

/// What a warn command does.
#[derive(Clone, Copy, PartialEq, Eq, Structural, Debug)]
pub enum WarnCommand {
    /// Shows the usage.
    Help,
    /// Lists the warnings of a member.
    List,
    /// Removes one warning.
    Remove,
    /// Clears the warnings of a member.
    Clear,
    /// Warns the member that the word names.
    Issue,
}

/// What the warn command does, by the first word of its arguments: the
/// usage for no word, a warning for any word that names no other action.
pub open spec fn warn_named(word: Seq<char>) -> WarnCommand {
    if word.len() == 0 {
        WarnCommand::Help
    } else if word == "list"@ {
        WarnCommand::List
    } else if word == "remove"@ {
        WarnCommand::Remove
    } else if word == "clear"@ {
        WarnCommand::Clear
    } else {
        WarnCommand::Issue
    }
}

/// Tells what the warn command does, by the first word of its arguments.
pub fn warn_command(word: &str) -> (c: WarnCommand)
    ensures
        c == warn_named(word@),
{
    if word.is_empty() {
        WarnCommand::Help
    } else if str_eq(word, "list") {
        WarnCommand::List
    } else if str_eq(word, "remove") {
        WarnCommand::Remove
    } else if str_eq(word, "clear") {
        WarnCommand::Clear
    } else {
        WarnCommand::Issue
    }
}

/// The number of the warning that a text names: the number that it writes
/// where that fits into 63 bits, 0 otherwise. No warning has the number 0.
pub open spec fn warning_id_in(text: Seq<char>) -> i64 {
    match unsigned_of(text, i64::MAX as int) {
        Some(n) => n as i64,
        None => 0,
    }
}

/// Reads the number of a warning out of a text.
pub fn warning_id(text: &str) -> (id: i64)
    ensures
        id == warning_id_in(text@),
{
    match parse_u64(text) {
        Some(n) => {
            if n <= i64::MAX as u64 {
                n as i64
            } else {
                0
            }
        },
        None => 0,
    }
}

/// The kinds of thing that can be ignored.
#[derive(Clone, Copy, PartialEq, Eq, Structural, Debug)]
pub enum IgnoreKind {
    Channel,
    Role,
    /// A user; `bypass` names the same list.
    User,
}

/// The kind of thing that goes by the name `name`.
pub open spec fn ignore_kind_named(name: Seq<char>) -> Option<IgnoreKind> {
    if name == "channel"@ {
        Some(IgnoreKind::Channel)
    } else if name == "role"@ {
        Some(IgnoreKind::Role)
    } else if name == "user"@ || name == "bypass"@ {
        Some(IgnoreKind::User)
    } else {
        None
    }
}

/// Looks a kind of thing to ignore up by its name.
pub fn ignore_kind(name: &str) -> (k: Option<IgnoreKind>)
    ensures
        k == ignore_kind_named(name@),
{
    if str_eq(name, "channel") {
        Some(IgnoreKind::Channel)
    } else if str_eq(name, "role") {
        Some(IgnoreKind::Role)
    } else if str_eq(name, "user") || str_eq(name, "bypass") {
        Some(IgnoreKind::User)
    } else {
        None
    }
}

/// The table in which things of a kind are ignored.
pub open spec fn table_of(kind: IgnoreKind) -> Seq<char> {
    match kind {
        IgnoreKind::Channel => "ignored_channels"@,
        IgnoreKind::Role => "ignored_roles"@,
        IgnoreKind::User => "bypass_users"@,
    }
}

/// The column that holds the id of an ignored thing.
pub open spec fn column_of(kind: IgnoreKind) -> Seq<char> {
    match kind {
        IgnoreKind::Channel => "channel_id"@,
        IgnoreKind::Role => "role_id"@,
        IgnoreKind::User => "user_id"@,
    }
}

impl IgnoreKind {
    /// The table in which things of this kind are ignored.
    pub fn table(&self) -> (name: &'static str)
        ensures
            name@ == table_of(*self),
    {
        match self {
            IgnoreKind::Channel => "ignored_channels",
            IgnoreKind::Role => "ignored_roles",
            IgnoreKind::User => "bypass_users",
        }
    }

    /// The column that holds the id of an ignored thing of this kind.
    pub fn column(&self) -> (name: &'static str)
        ensures
            name@ == column_of(*self),
    {
        match self {
            IgnoreKind::Channel => "channel_id",
            IgnoreKind::Role => "role_id",
            IgnoreKind::User => "user_id",
        }
    }
}

/// The id that an ignore command is aimed at: the word without the marks of
/// a mention at its ends.
pub fn ignore_target(word: &str) -> (id: &str)
    ensures
        id@ == trimmed_of(word@, ANY_MARKS@),
{
    trim_chars(word, ANY_MARKS)
}

/// The commands of this handler.
#[derive(Clone, Copy, PartialEq, Eq, Structural, Debug)]
pub enum SystemCommand {
    Warn,
    Prefix,
    Ignore,
    Unignore,
    Command,
}

/// The command of this handler that goes by the name `cmd`.
pub open spec fn system_named(cmd: Seq<char>) -> Option<SystemCommand> {
    if cmd == "warn"@ || cmd == "warning"@ {
        Some(SystemCommand::Warn)
    } else if cmd == "prefix"@ {
        Some(SystemCommand::Prefix)
    } else if cmd == "ignore"@ {
        Some(SystemCommand::Ignore)
    } else if cmd == "unignore"@ {
        Some(SystemCommand::Unignore)
    } else if cmd == "command"@ {
        Some(SystemCommand::Command)
    } else {
        None
    }
}

/// Looks a command of this handler up by its name.
pub fn system_command(cmd: &str) -> (c: Option<SystemCommand>)
    ensures
        c == system_named(cmd@),
{
    if str_eq(cmd, "warn") || str_eq(cmd, "warning") {
        Some(SystemCommand::Warn)
    } else if str_eq(cmd, "prefix") {
        Some(SystemCommand::Prefix)
    } else if str_eq(cmd, "ignore") {
        Some(SystemCommand::Ignore)
    } else if str_eq(cmd, "unignore") {
        Some(SystemCommand::Unignore)
    } else if str_eq(cmd, "command") {
        Some(SystemCommand::Command)
    } else {
        None
    }
}

/// What a command of this handler comes to.
#[derive(Clone, Copy, PartialEq, Eq, Structural, Debug)]
pub enum SystemAction {
    /// The caller lacks the permission that the command asks for.
    Denied,
    /// Nothing is done and nothing is said.
    Nothing,
    /// The usage of the command is shown.
    Help,
    /// The warnings of the target are listed.
    WarnList,
    /// The warning with the plan's number is removed.
    WarnRemove,
    /// The warnings of the target are cleared.
    WarnClear,
    /// The target is warned; the plan's text is the reason.
    WarnIssue,
    /// The prefix in force is shown.
    PrefixShow,
    /// The plan's text becomes the prefix.
    PrefixSet,
    /// The kind of thing to ignore is none that is known.
    IgnoreInvalid,
    /// The target is put on the ignore list of the plan's kind.
    Ignore,
    /// The target is taken off the ignore list of the plan's kind.
    Unignore,
    /// The command that the plan's text names is switched off or on.
    Switch,
}

/// A command of this handler with what it needs to be carried out.
#[derive(Clone, PartialEq, Eq, Debug)]
pub struct SystemPlan {
    pub action: SystemAction,
    pub target: String,
    pub text: String,
    /// The number of the warning to remove.
    pub number: i64,
    /// The kind of thing to ignore.
    pub kind: Option<IgnoreKind>,
    /// Whether a command is switched off rather than on.
    pub disable: bool,
}

/// What a command comes to, given its words and whether the caller may run
/// it.
pub open spec fn system_action(command: SystemCommand, words: Seq<Seq<char>>, permitted: bool) -> SystemAction {
    if !permitted {
        SystemAction::Denied
    } else {
        match command {
            SystemCommand::Warn => match warn_named(word_at(words, 0)) {
                WarnCommand::Help => SystemAction::Help,
                WarnCommand::List => if trimmed_of(word_at(words, 1), MENTION_MARKS@).len() == 0 {
                    SystemAction::Nothing
                } else {
                    SystemAction::WarnList
                },
                WarnCommand::Remove => if words.len() < 3 {
                    SystemAction::Nothing
                } else {
                    SystemAction::WarnRemove
                },
                WarnCommand::Clear => if words.len() < 2 {
                    SystemAction::Nothing
                } else {
                    SystemAction::WarnClear
                },
                WarnCommand::Issue => SystemAction::WarnIssue,
            },
            SystemCommand::Prefix => if words.len() == 0 || words[0].len() == 0 {
                SystemAction::PrefixShow
            } else {
                SystemAction::PrefixSet
            },
            SystemCommand::Ignore | SystemCommand::Unignore => if words.len() < 2 {
                SystemAction::Help
            } else if ignore_kind_named(lowercase_of(words[0])) is None {
                SystemAction::IgnoreInvalid
            } else if command == SystemCommand::Ignore {
                SystemAction::Ignore
            } else {
                SystemAction::Unignore
            },
            SystemCommand::Command => if words.len() < 2 {
                SystemAction::Help
            } else if switch_named(lowercase_of(words[0])) is None {
                SystemAction::Nothing
            } else {
                SystemAction::Switch
            },
        }
    }
}

/// The id that a command is aimed at.
pub open spec fn system_target(command: SystemCommand, words: Seq<Seq<char>>) -> Seq<char> {
    match command {
        SystemCommand::Warn => match warn_named(word_at(words, 0)) {
            WarnCommand::Issue => trimmed_of(word_at(words, 0), MENTION_MARKS@),
            _ => trimmed_of(word_at(words, 1), MENTION_MARKS@),
        },
        SystemCommand::Ignore | SystemCommand::Unignore => trimmed_of(
            word_at(words, words.len() - 1),
            ANY_MARKS@,
        ),
        _ => Seq::empty(),
    }
}

/// The text that goes with a command: the reason of a warning, the new
/// prefix, or the name in lowercase of the command to switch.
pub open spec fn system_text(command: SystemCommand, words: Seq<Seq<char>>) -> Seq<char> {
    match command {
        SystemCommand::Warn => words_from(words, 1, NO_REASON@),
        SystemCommand::Prefix => word_at(words, 0),
        SystemCommand::Command => if words.len() < 2 {
            Seq::empty()
        } else {
            lowercase_of(words[1])
        },
        _ => Seq::empty(),
    }
}

/// Plans a command of this handler from its words.
pub fn plan_system(command: SystemCommand, words: &Vec<String>, permitted: bool) -> (plan: SystemPlan)
    ensures
        plan.action == system_action(command, views_of(words@), permitted),
        plan.target@ == system_target(command, views_of(words@)),
        plan.text@ == system_text(command, views_of(words@)),
        plan.number == warning_id_in(word_at(views_of(words@), 2)),
        plan.kind == ignore_kind_named(lowercase_of(word_at(views_of(words@), 0))),
        plan.action == SystemAction::Switch ==> switch_named(
            lowercase_of(word_at(views_of(words@), 0)),
        ) == Some(plan.disable),
{
    let first = word(words, 0);
    let lowered = to_lowercase(first);
    let kind = ignore_kind(lowered.as_str());
    let switch = command_switch(lowered.as_str());
    let number = warning_id(word(words, 2));
    let warn = warn_command(first);
    let target = match command {
        SystemCommand::Warn => match warn {
            WarnCommand::Issue => trim_chars(first, MENTION_MARKS).to_owned(),
            _ => trim_chars(word(words, 1), MENTION_MARKS).to_owned(),
        },
        SystemCommand::Ignore | SystemCommand::Unignore => {
            if words.len() == 0 {
                ignore_target(word(words, 0)).to_owned()
            } else {
                ignore_target(word(words, words.len() - 1)).to_owned()
            }
        },
        _ => String::new(),
    };
    let text = match command {
        SystemCommand::Warn => words_after(words, 1, NO_REASON),
        SystemCommand::Prefix => first.to_owned(),
        SystemCommand::Command => {
            if words.len() < 2 {
                String::new()
            } else {
                to_lowercase(words[1].as_str())
            }
        },
        _ => String::new(),
    };
    let action = if !permitted {
        SystemAction::Denied
    } else {
        match command {
            SystemCommand::Warn => match warn {
                WarnCommand::Help => SystemAction::Help,
                WarnCommand::List => {
                    if target.as_str().is_empty() {
                        SystemAction::Nothing
                    } else {
                        SystemAction::WarnList
                    }
                },
                WarnCommand::Remove => {
                    if words.len() < 3 {
                        SystemAction::Nothing
                    } else {
                        SystemAction::WarnRemove
                    }
                },
                WarnCommand::Clear => {
                    if words.len() < 2 {
                        SystemAction::Nothing
                    } else {
                        SystemAction::WarnClear
                    }
                },
                WarnCommand::Issue => SystemAction::WarnIssue,
            },
            SystemCommand::Prefix => {
                if first.is_empty() {
                    SystemAction::PrefixShow
                } else {
                    SystemAction::PrefixSet
                }
            },
            SystemCommand::Ignore | SystemCommand::Unignore => {
                if words.len() < 2 {
                    SystemAction::Help
                } else if kind.is_none() {
                    SystemAction::IgnoreInvalid
                } else {
                    match command {
                        SystemCommand::Ignore => SystemAction::Ignore,
                        _ => SystemAction::Unignore,
                    }
                }
            },
            SystemCommand::Command => {
                if words.len() < 2 {
                    SystemAction::Help
                } else if switch.is_none() {
                    SystemAction::Nothing
                } else {
                    SystemAction::Switch
                }
            },
        }
    };
    let disable = match switch {
        Some(disable) => disable,
        None => false,
    };
    SystemPlan { action, target, text, number, kind, disable }
}

/// Plans a command of this handler from its name and arguments; a name that
/// is none of this handler's comes to nothing.
pub fn handle_system(cmd: &str, args: &str, permitted: bool) -> (plan: Option<SystemPlan>)
    ensures
        match system_named(cmd@) {
            None => plan is None,
            Some(command) => plan matches Some(p) && p.action == system_action(
                command,
                words_of(args@),
                permitted,
            ) && p.target@ == system_target(command, words_of(args@)) && p.text@ == system_text(
                command,
                words_of(args@),
            ) && p.number == warning_id_in(word_at(words_of(args@), 2)) && p.kind
                == ignore_kind_named(lowercase_of(word_at(words_of(args@), 0))),
        },
{
    match system_command(cmd) {
        Some(command) => {
            let words = split_whitespace(args);
            Some(plan_system(command, &words, permitted))
        },
        None => None,
    }
}

/// Whether the action `action` switches a command off (`true`) or on
/// (`false`); `None` for a word that names neither.
pub open spec fn switch_named(action: Seq<char>) -> Option<bool> {
    if action == "disable"@ || action == "off"@ {
        Some(true)
    } else if action == "enable"@ || action == "on"@ {
        Some(false)
    } else {
        None
    }
}

/// Tells whether an action switches a command off or on.
pub fn command_switch(action: &str) -> (disable: Option<bool>)
    ensures
        disable == switch_named(action@),
{
    if str_eq(action, "disable") || str_eq(action, "off") {
        Some(true)
    } else if str_eq(action, "enable") || str_eq(action, "on") {
        Some(false)
    } else {
        None
    }
}

} // verus!
