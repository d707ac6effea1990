//! Locking, hiding and blocking in channels.

use crate::text::{split_whitespace, str_eq, trim_chars, trimmed_of, views_of, words_of};
use vstd::prelude::*;

verus! {

/// The characters that stand around the id in a mention of a user or of a
/// channel.
pub const CHANNEL_MARKS: &'static str = "<@>!#";

/// The bit that allows sending messages.
pub const SEND_MESSAGES: &'static str = "2048";

/// The bit that allows seeing a channel.
pub const VIEW_CHANNEL: &'static str = "1024";

/// Both of them.
pub const SEND_AND_VIEW: &'static str = "3072";

/// No bit at all.
pub const NOTHING: &'static str = "0";

/// The commands of this handler.
#[derive(Clone, Copy, PartialEq, Eq, Structural, Debug)]
pub enum ChannelCommand {
    Lock,
    Unlock,
    Hide,
    Unhide,
    Block,
    Unblock,
    LockAll,
    UnlockAll,
    HideAll,
    UnhideAll,
}

/// A change to the permissions of a channel: what is allowed, what is
/// denied, and whether it holds for a role (0) or for a member (1).
#[derive(Clone, Copy, PartialEq, Eq, Debug)]
pub struct Overwrite {
    pub allow: &'static str,
    pub deny: &'static str,
    pub kind: u8,
}

/// The command of this handler that goes by the name `cmd`.
pub open spec fn channel_named(cmd: Seq<char>) -> Option<ChannelCommand> {
    if cmd == "lock"@ {
        Some(ChannelCommand::Lock)
    } else if cmd == "unlock"@ {
        Some(ChannelCommand::Unlock)
    } else if cmd == "hide"@ {
        Some(ChannelCommand::Hide)
    } else if cmd == "unhide"@ {
        Some(ChannelCommand::Unhide)
    } else if cmd == "block"@ {
        Some(ChannelCommand::Block)
    } else if cmd == "unblock"@ {
        Some(ChannelCommand::Unblock)
    } else if cmd == "lockall"@ {
        Some(ChannelCommand::LockAll)
    } else if cmd == "unlockall"@ {
        Some(ChannelCommand::UnlockAll)
    } else if cmd == "hideall"@ {
        Some(ChannelCommand::HideAll)
    } else if cmd == "unhideall"@ {
        Some(ChannelCommand::UnhideAll)
    } else {
        None
    }
}

/// The command that is meant: one aimed at `all` goes for every channel.
pub open spec fn resolved(command: ChannelCommand, target: Seq<char>) -> ChannelCommand {
    if target == "all"@ {
        match command {
            ChannelCommand::Lock => ChannelCommand::LockAll,
            ChannelCommand::Unlock => ChannelCommand::UnlockAll,
            ChannelCommand::Hide => ChannelCommand::HideAll,
            ChannelCommand::Unhide => ChannelCommand::UnhideAll,
            other => other,
        }
    } else {
        command
    }
}

/// Looks a command of this handler up by its name.
pub fn channel_command(cmd: &str) -> (c: Option<ChannelCommand>)
    ensures
        c == channel_named(cmd@),
{
    if str_eq(cmd, "lock") {
        Some(ChannelCommand::Lock)
    } else if str_eq(cmd, "unlock") {
        Some(ChannelCommand::Unlock)
    } else if str_eq(cmd, "hide") {
        Some(ChannelCommand::Hide)
    } else if str_eq(cmd, "unhide") {
        Some(ChannelCommand::Unhide)
    } else if str_eq(cmd, "block") {
        Some(ChannelCommand::Block)
    } else if str_eq(cmd, "unblock") {
        Some(ChannelCommand::Unblock)
    } else if str_eq(cmd, "lockall") {
        Some(ChannelCommand::LockAll)
    } else if str_eq(cmd, "unlockall") {
        Some(ChannelCommand::UnlockAll)
    } else if str_eq(cmd, "hideall") {
        Some(ChannelCommand::HideAll)
    } else if str_eq(cmd, "unhideall") {
        Some(ChannelCommand::UnhideAll)
    } else {
        None
    }
}

/// The id that a command of this handler is aimed at: the word without the
/// marks of a mention at its ends.
pub fn channel_target(word: &str) -> (id: &str)
    ensures
        id@ == trimmed_of(word@, CHANNEL_MARKS@),
{
    trim_chars(word, CHANNEL_MARKS)
}

/// Finds the command that is meant, given the id it is aimed at.
pub fn resolve(command: ChannelCommand, target: &str) -> (c: ChannelCommand)
    ensures
        c == resolved(command, target@),
{
    if str_eq(target, "all") {
        match command {
            ChannelCommand::Lock => ChannelCommand::LockAll,
            ChannelCommand::Unlock => ChannelCommand::UnlockAll,
            ChannelCommand::Hide => ChannelCommand::HideAll,
            ChannelCommand::Unhide => ChannelCommand::UnhideAll,
            other => other,
        }
    } else {
        command
    }
}

/// The change of permissions that a command makes. Locking denies sending,
/// hiding denies seeing, blocking denies both to one member; the opposite
/// commands allow the same.
pub open spec fn overwrite_for(command: ChannelCommand) -> Overwrite {
    match command {
        ChannelCommand::Lock | ChannelCommand::LockAll => Overwrite {
            allow: NOTHING,
            deny: SEND_MESSAGES,
            kind: 0,
        },
        ChannelCommand::Unlock | ChannelCommand::UnlockAll => Overwrite {
            allow: SEND_MESSAGES,
            deny: NOTHING,
            kind: 0,
        },
        ChannelCommand::Hide | ChannelCommand::HideAll => Overwrite {
            allow: NOTHING,
            deny: VIEW_CHANNEL,
            kind: 0,
        },
        ChannelCommand::Unhide | ChannelCommand::UnhideAll => Overwrite {
            allow: VIEW_CHANNEL,
            deny: NOTHING,
            kind: 0,
        },
        ChannelCommand::Block => Overwrite { allow: NOTHING, deny: SEND_AND_VIEW, kind: 1 },
        ChannelCommand::Unblock => Overwrite { allow: SEND_AND_VIEW, deny: NOTHING, kind: 1 },
    }
}

/// The change of permissions that a command makes.
pub fn overwrite_of(command: ChannelCommand) -> (o: Overwrite)
    ensures
        o == overwrite_for(command),
{
    match command {
        ChannelCommand::Lock | ChannelCommand::LockAll => Overwrite {
            allow: NOTHING,
            deny: SEND_MESSAGES,
            kind: 0,
        },
        ChannelCommand::Unlock | ChannelCommand::UnlockAll => Overwrite {
            allow: SEND_MESSAGES,
            deny: NOTHING,
            kind: 0,
        },
        ChannelCommand::Hide | ChannelCommand::HideAll => Overwrite {
            allow: NOTHING,
            deny: VIEW_CHANNEL,
            kind: 0,
        },
        ChannelCommand::Unhide | ChannelCommand::UnhideAll => Overwrite {
            allow: VIEW_CHANNEL,
            deny: NOTHING,
            kind: 0,
        },
        ChannelCommand::Block => Overwrite { allow: NOTHING, deny: SEND_AND_VIEW, kind: 1 },
        ChannelCommand::Unblock => Overwrite { allow: SEND_AND_VIEW, deny: NOTHING, kind: 1 },
    }
}

/// A command of this handler with what it needs to be carried out.
#[derive(Clone, PartialEq, Eq, Debug)]
pub struct ChannelPlan {
    /// The command that is meant.
    pub command: ChannelCommand,
    /// Whether the command lacks the member it is aimed at, so that its
    /// usage is shown.
    pub usage: bool,
    /// The id that the command is aimed at: a channel, or a member for a
    /// block; empty for the channel in which the command was given.
    pub target: String,
    pub overwrite: Overwrite,
}

/// The id that the words of a command aim at.
pub open spec fn channel_target_in(words: Seq<Seq<char>>) -> Seq<char> {
    if words.len() == 0 {
        Seq::empty()
    } else {
        trimmed_of(words[0], CHANNEL_MARKS@)
    }
}

/// A block and its lifting need a member to aim at.
pub open spec fn lacks_target(command: ChannelCommand, target: Seq<char>) -> bool {
    (command == ChannelCommand::Block || command == ChannelCommand::Unblock) && target.len() == 0
}

/// Plans a command of this handler from its words.
pub fn plan_channels(command: ChannelCommand, words: &Vec<String>) -> (plan: ChannelPlan)
    ensures
        plan.target@ == channel_target_in(views_of(words@)),
        plan.command == resolved(command, plan.target@),
        plan.usage == lacks_target(plan.command, plan.target@),
        plan.overwrite == overwrite_for(plan.command),
{
    let target = if words.len() == 0 {
        String::new()
    } else {
        channel_target(words[0].as_str()).to_owned()
    };
    let meant = resolve(command, target.as_str());
    let usage = match meant {
        ChannelCommand::Block | ChannelCommand::Unblock => target.as_str().is_empty(),
        _ => false,
    };
    ChannelPlan { command: meant, usage, target, overwrite: overwrite_of(meant) }
}

/// Plans a command of this handler from its name and arguments; a name that
/// is none of this handler's comes to nothing.
pub fn handle_channels(cmd: &str, args: &str) -> (plan: Option<ChannelPlan>)
    ensures
        match channel_named(cmd@) {
            None => plan is None,
            Some(command) => plan matches Some(p) && p.target@ == channel_target_in(
                words_of(args@),
            ) && p.command == resolved(command, p.target@) && p.usage == lacks_target(
                p.command,
                p.target@,
            ) && p.overwrite == overwrite_for(p.command),
        },
{
    match channel_command(cmd) {
        Some(command) => {
            let words = split_whitespace(args);
            Some(plan_channels(command, &words))
        },
        None => None,
    }
}

/// Whether a command for every channel touches a channel of the kind
/// `kind`: text channels (0), voice channels (2) and announcement channels
/// (5) are touched.
pub fn is_managed_kind(kind: u64) -> (r: bool)
    ensures
        r == (kind == 0 || kind == 2 || kind == 5),
{
    kind == 0 || kind == 2 || kind == 5
}

} // verus!
