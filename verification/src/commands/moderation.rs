//! The commands that moderate members, channels and messages.

pub mod basic;
pub mod channels;
pub mod purge;
pub mod roles_lists;
pub mod system;

use crate::text::str_eq;
use vstd::prelude::*;

verus! {

/// The handlers of the moderation commands.
#[derive(Clone, Copy, PartialEq, Eq, Structural, Debug)]
pub enum ModerationCommand {
    Basic,
    Channels,
    Purge,
    RolesLists,
    System,
}

/// The handler of the moderation command that goes by the name `cmd`.
pub open spec fn moderation_named(cmd: Seq<char>) -> Option<ModerationCommand> {
    if cmd == "ban"@ || cmd == "kick"@ || cmd == "softban"@ || cmd == "unban"@
        || cmd == "unbanall"@ || cmd == "mute"@ || cmd == "unmute"@ || cmd == "unmuteall"@
        || cmd == "nick"@ || cmd == "slowmode"@ {
        Some(ModerationCommand::Basic)
    } else if cmd == "lock"@ || cmd == "unlock"@ || cmd == "lockall"@ || cmd == "unlockall"@
        || cmd == "hide"@ || cmd == "unhide"@ || cmd == "hideall"@ || cmd == "unhideall"@
        || cmd == "block"@ || cmd == "unblock"@ {
        Some(ModerationCommand::Channels)
    } else if cmd == "purge"@ || cmd == "clear"@ || cmd == "p"@ || cmd == "c"@ {
        Some(ModerationCommand::Purge)
    } else if cmd == "list"@ || cmd == "l"@ || cmd == "role"@ || cmd == "r"@ {
        Some(ModerationCommand::RolesLists)
    } else if cmd == "warn"@ || cmd == "warning"@ || cmd == "command"@ || cmd == "ignore"@
        || cmd == "unignore"@ || cmd == "prefix"@ {
        Some(ModerationCommand::System)
    } else {
        None
    }
}

/// Finds the handler of a moderation command.
pub fn handle_command(cmd: &str) -> (c: Option<ModerationCommand>)
    ensures
        c == moderation_named(cmd@),
{
    if str_eq(cmd, "ban") || str_eq(cmd, "kick") || str_eq(cmd, "softban") || str_eq(cmd, "unban")
        || str_eq(cmd, "unbanall") || str_eq(cmd, "mute") || str_eq(cmd, "unmute")
        || str_eq(cmd, "unmuteall") || str_eq(cmd, "nick") || str_eq(cmd, "slowmode") {
        Some(ModerationCommand::Basic)
    } else if str_eq(cmd, "lock") || str_eq(cmd, "unlock") || str_eq(cmd, "lockall")
        || str_eq(cmd, "unlockall") || str_eq(cmd, "hide") || str_eq(cmd, "unhide")
        || str_eq(cmd, "hideall") || str_eq(cmd, "unhideall") || str_eq(cmd, "block")
        || str_eq(cmd, "unblock") {
        Some(ModerationCommand::Channels)
    } else if str_eq(cmd, "purge") || str_eq(cmd, "clear") || str_eq(cmd, "p") || str_eq(cmd, "c") {
        Some(ModerationCommand::Purge)
    } else if str_eq(cmd, "list") || str_eq(cmd, "l") || str_eq(cmd, "role") || str_eq(cmd, "r") {
        Some(ModerationCommand::RolesLists)
    } else if str_eq(cmd, "warn") || str_eq(cmd, "warning") || str_eq(cmd, "command")
        || str_eq(cmd, "ignore") || str_eq(cmd, "unignore") || str_eq(cmd, "prefix") {
        Some(ModerationCommand::System)
    } else {
        None
    }
}

} // verus!
