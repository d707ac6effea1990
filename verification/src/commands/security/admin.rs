//! The commands on the admins of the bot.

use crate::text::str_eq;
use vstd::prelude::*;

verus! {

/// What a command on a trust list does.
#[derive(Clone, Copy, PartialEq, Eq, Structural, Debug)]
pub enum Subcommand {
    Add,
    Remove,
    List,
    /// No word was given: the usage is shown.
    Usage,
    /// The word names nothing that can be done.
    Unknown,
}

/// What a command on a trust list does, by the first word of its arguments.
pub open spec fn subcommand_named(word: Seq<char>) -> Subcommand {
    if word == "add"@ {
        Subcommand::Add
    } else if word == "remove"@ {
        Subcommand::Remove
    } else if word == "list"@ {
        Subcommand::List
    } else if word.len() == 0 {
        Subcommand::Usage
    } else {
        Subcommand::Unknown
    }
}

/// Tells what a command on a trust list does, by the first word of its
/// arguments.
pub fn subcommand(word: &str) -> (s: Subcommand)
    ensures
        s == subcommand_named(word@),
{
    if str_eq(word, "add") {
        Subcommand::Add
    } else if str_eq(word, "remove") {
        Subcommand::Remove
    } else if str_eq(word, "list") {
        Subcommand::List
    } else if word.is_empty() {
        Subcommand::Usage
    } else {
        Subcommand::Unknown
    }
}

/// Whether somebody may use the commands on the trust lists: the owner of
/// the community and the admins of the bot may.
pub fn is_authorized(is_bot_admin: bool, is_owner: bool) -> (r: bool)
    ensures
        r == (is_bot_admin || is_owner),
{
    is_bot_admin || is_owner
}

/// What becomes of a command on the admins.
#[derive(Clone, Copy, PartialEq, Eq, Structural, Debug)]
pub enum AdminDecision {
    /// The caller is neither the owner nor an admin of the bot.
    Denied,
    /// Only the owner may add and remove admins.
    OwnerOnly,
    /// The target is no mention of a user.
    InvalidTarget,
    /// Nobody removes themselves.
    SelfRemoval,
    /// Make the target an admin.
    Add,
    /// Take the target from the admins.
    Remove,
    /// List the admins.
    List,
    /// Show the usage.
    Usage,
    /// The word names nothing that can be done.
    Unknown,
}

/// What becomes of a command on the admins, given who calls it, what it is
/// to do, and the id of its target as taken out of the mention.
pub open spec fn admin_decision(
    is_bot_admin: bool,
    is_owner: bool,
    sub: Subcommand,
    target_id: Seq<char>,
    author_id: Seq<char>,
) -> AdminDecision {
    if !is_bot_admin && !is_owner {
        AdminDecision::Denied
    } else {
        match sub {
            Subcommand::Add => if !is_owner {
                AdminDecision::OwnerOnly
            } else if target_id.len() == 0 {
                AdminDecision::InvalidTarget
            } else {
                AdminDecision::Add
            },
            Subcommand::Remove => if !is_owner {
                AdminDecision::OwnerOnly
            } else if target_id.len() == 0 {
                AdminDecision::InvalidTarget
            } else if target_id == author_id {
                AdminDecision::SelfRemoval
            } else {
                AdminDecision::Remove
            },
            Subcommand::List => AdminDecision::List,
            Subcommand::Usage => AdminDecision::Usage,
            Subcommand::Unknown => AdminDecision::Unknown,
        }
    }
}

/// Decides what becomes of a command on the admins.
pub fn handle_admin(
    is_bot_admin: bool,
    is_owner: bool,
    sub: Subcommand,
    target_id: &str,
    author_id: &str,
) -> (d: AdminDecision)
    ensures
        d == admin_decision(is_bot_admin, is_owner, sub, target_id@, author_id@),
{
    if !is_authorized(is_bot_admin, is_owner) {
        return AdminDecision::Denied;
    }
    match sub {
        Subcommand::Add => {
            if !is_owner {
                AdminDecision::OwnerOnly
            } else if target_id.is_empty() {
                AdminDecision::InvalidTarget
            } else {
                AdminDecision::Add
            }
        },
        Subcommand::Remove => {
            if !is_owner {
                AdminDecision::OwnerOnly
            } else if target_id.is_empty() {
                AdminDecision::InvalidTarget
            } else if str_eq(target_id, author_id) {
                AdminDecision::SelfRemoval
            } else {
                AdminDecision::Remove
            }
        },
        Subcommand::List => AdminDecision::List,
        Subcommand::Usage => AdminDecision::Usage,
        Subcommand::Unknown => AdminDecision::Unknown,
    }
}

} // verus!
