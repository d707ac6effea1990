//! Mentions of users.

use crate::commands::security::admin::{is_authorized, Subcommand};
use crate::text::{chars_of, has_prefix, has_suffix, matches_at, occurs_at};
use vstd::prelude::*;
use vstd::string::StrSliceExecFns;

verus! {

/// The id inside a mention: what stands between `<@` and `>`, without one
/// leading `!` and, after that, one leading `&`. Empty for a text that is no
/// mention.
pub open spec fn mention_id(target: Seq<char>) -> Seq<char> {
    if has_prefix(target, "<@"@) && has_suffix(target.skip(2), ">"@) {
        let inner = target.subrange(2, target.len() - 1);
        let named = if has_prefix(inner, "!"@) {
            inner.skip(1)
        } else {
            inner
        };
        if has_prefix(named, "&"@) {
            named.skip(1)
        } else {
            named
        }
    } else {
        Seq::empty()
    }
}

/// A pattern of one character occurs where that character stands.
proof fn lemma_occurs_single(s: Seq<char>, c: char, at: int)
    ensures
        occurs_at(s, seq![c], at) <==> 0 <= at < s.len() && s[at] == c,
{
    if 0 <= at < s.len() {
        assert(s.subrange(at, at + 1) =~= seq![s[at]]);
        assert(seq![s[at]][0] == s[at]);
        assert(seq![c][0] == c);
    }
}

/// Takes the id out of a mention such as `<@123>`, `<@!123>` or `<@&123>`;
/// gives the empty string for a text that is no mention.
pub fn extract_id(target: &str) -> (id: &str)
    ensures
        id@ == mention_id(target@),
{
    let chars = chars_of(target);
    let open = chars_of("<@");
    let close = chars_of(">");
    let bang = chars_of("!");
    let amp = chars_of("&");
    proof {
        reveal_strlit("<@");
        reveal_strlit(">");
        reveal_strlit("!");
        reveal_strlit("&");
        assert(">"@ =~= seq!['>']);
        assert("!"@ =~= seq!['!']);
        assert("&"@ =~= seq!['&']);
    }
    let n = chars.len();
    let ghost rest = target@.skip(2);
    proof {
        if n >= 2 {
            lemma_occurs_single(rest, '>', rest.len() - 1);
            lemma_occurs_single(chars@, '>', n - 1);
        }
    }
    if n < 3 || !matches_at(&chars, &open, 0) || !matches_at(&chars, &close, n - 1) {
        return target.substring_char(0, 0);
    }
    let ghost inner = target@.subrange(2, n - 1);
    let mut from: usize = 2;
    let to: usize = n - 1;
    proof {
        lemma_occurs_single(inner, '!', 0);
        lemma_occurs_single(chars@, '!', 2);
    }
    if from < to && matches_at(&chars, &bang, from) {
        from += 1;
    }
    let ghost named = if has_prefix(inner, "!"@) {
        inner.skip(1)
    } else {
        inner
    };
    assert(named =~= target@.subrange(from as int, to as int));
    proof {
        lemma_occurs_single(named, '&', 0);
        lemma_occurs_single(chars@, '&', from as int);
    }
    if from < to && matches_at(&chars, &amp, from) {
        from += 1;
        assert(named.skip(1) =~= target@.subrange(from as int, to as int));
    }
    target.substring_char(from, to)
}

/// What becomes of a command on the whitelist.
#[derive(Clone, Copy, PartialEq, Eq, Structural, Debug)]
pub enum WhitelistDecision {
    /// The caller is neither the owner nor an admin of the bot.
    Denied,
    /// The target is no mention of a user.
    InvalidTarget,
    /// Put the target on the whitelist.
    Add,
    /// Take the target off the whitelist.
    Remove,
    /// List the whitelist.
    List,
    /// Show the usage.
    Usage,
    /// The word names nothing that can be done.
    Unknown,
}

/// What becomes of a command on the whitelist, given who calls it, what it
/// is to do, and the id of its target as taken out of the mention.
pub open spec fn whitelist_decision(
    is_bot_admin: bool,
    is_owner: bool,
    sub: Subcommand,
    target_id: Seq<char>,
) -> WhitelistDecision {
    if !is_bot_admin && !is_owner {
        WhitelistDecision::Denied
    } else {
        match sub {
            Subcommand::Add => if target_id.len() == 0 {
                WhitelistDecision::InvalidTarget
            } else {
                WhitelistDecision::Add
            },
            Subcommand::Remove => if target_id.len() == 0 {
                WhitelistDecision::InvalidTarget
            } else {
                WhitelistDecision::Remove
            },
            Subcommand::List => WhitelistDecision::List,
            Subcommand::Usage => WhitelistDecision::Usage,
            Subcommand::Unknown => WhitelistDecision::Unknown,
        }
    }
}

/// Decides what becomes of a command on the whitelist.
pub fn handle_whitelist(is_bot_admin: bool, is_owner: bool, sub: Subcommand, target_id: &str) -> (d:
    WhitelistDecision)
    ensures
        d == whitelist_decision(is_bot_admin, is_owner, sub, target_id@),
{
    if !is_authorized(is_bot_admin, is_owner) {
        return WhitelistDecision::Denied;
    }
    match sub {
        Subcommand::Add => {
            if target_id.is_empty() {
                WhitelistDecision::InvalidTarget
            } else {
                WhitelistDecision::Add
            }
        },
        Subcommand::Remove => {
            if target_id.is_empty() {
                WhitelistDecision::InvalidTarget
            } else {
                WhitelistDecision::Remove
            }
        },
        Subcommand::List => WhitelistDecision::List,
        Subcommand::Usage => WhitelistDecision::Usage,
        Subcommand::Unknown => WhitelistDecision::Unknown,
    }
}

} // verus!
