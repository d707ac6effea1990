//! Bans, kicks, mutes, nicknames and slow mode.

use crate::text::{
    chars_of, contains, has_substring, has_suffix, join, joined, lowercase_of, parse_u64,
    split_whitespace, str_eq, to_lowercase, trim_chars, trimmed_of, unsigned_of, views_of,
    words_of,
};
use vstd::prelude::*;
use vstd::string::StrSliceExecFns;

verus! {

/// The permission to kick members: bit 1 of the platform's permissions.
pub const KICK_MEMBERS: u64 = 0x2;

/// The permission to ban members: bit 2.
pub const BAN_MEMBERS: u64 = 0x4;

/// The permission to manage channels: bit 4.
pub const MANAGE_CHANNELS: u64 = 0x10;

/// The permission to manage the community: bit 5.
pub const MANAGE_GUILD: u64 = 0x20;

/// The permission to manage messages: bit 13.
pub const MANAGE_MESSAGES: u64 = 0x2000;

/// The permission to manage nicknames: bit 27.
pub const MANAGE_NICKNAMES: u64 = 0x800_0000;

/// The permission to manage roles: bit 28.
pub const MANAGE_ROLES: u64 = 0x1000_0000;

/// The permission to time members out: bit 40.
pub const MODERATE_MEMBERS: u64 = 0x100_0000_0000;

/// The characters that stand around the id in a mention of a user.
pub const MENTION_MARKS: &'static str = "<@>!";

/// The reason that is given where the command names none.
pub const NO_REASON: &'static str = "No reason provided";

/// The commands of this handler.
#[derive(Clone, Copy, PartialEq, Eq, Structural, Debug)]
pub enum BasicCommand {
    Ban,
    Kick,
    Softban,
    Unban,
    UnbanAll,
    Mute,
    Unmute,
    Nick,
    Slowmode,
}

/// The command of this handler that goes by the name `cmd`.
pub open spec fn basic_named(cmd: Seq<char>) -> Option<BasicCommand> {
    if cmd == "ban"@ {
        Some(BasicCommand::Ban)
    } else if cmd == "kick"@ {
        Some(BasicCommand::Kick)
    } else if cmd == "softban"@ {
        Some(BasicCommand::Softban)
    } else if cmd == "unban"@ {
        Some(BasicCommand::Unban)
    } else if cmd == "unbanall"@ {
        Some(BasicCommand::UnbanAll)
    } else if cmd == "mute"@ {
        Some(BasicCommand::Mute)
    } else if cmd == "unmute"@ {
        Some(BasicCommand::Unmute)
    } else if cmd == "nick"@ {
        Some(BasicCommand::Nick)
    } else if cmd == "slowmode"@ {
        Some(BasicCommand::Slowmode)
    } else {
        None
    }
}

/// Looks a command of this handler up by its name.
pub fn basic_command(cmd: &str) -> (c: Option<BasicCommand>)
    ensures
        c == basic_named(cmd@),
{
    if str_eq(cmd, "ban") {
        Some(BasicCommand::Ban)
    } else if str_eq(cmd, "kick") {
        Some(BasicCommand::Kick)
    } else if str_eq(cmd, "softban") {
        Some(BasicCommand::Softban)
    } else if str_eq(cmd, "unban") {
        Some(BasicCommand::Unban)
    } else if str_eq(cmd, "unbanall") {
        Some(BasicCommand::UnbanAll)
    } else if str_eq(cmd, "mute") {
        Some(BasicCommand::Mute)
    } else if str_eq(cmd, "unmute") {
        Some(BasicCommand::Unmute)
    } else if str_eq(cmd, "nick") {
        Some(BasicCommand::Nick)
    } else if str_eq(cmd, "slowmode") {
        Some(BasicCommand::Slowmode)
    } else {
        None
    }
}

/// The permission that the command `cmd` asks of whoever calls it; 0 for a
/// command that asks none.
pub open spec fn permission_for(cmd: Seq<char>) -> u64 {
    if cmd == "ban"@ || cmd == "softban"@ || cmd == "unban"@ || cmd == "unbanall"@ {
        BAN_MEMBERS
    } else if cmd == "kick"@ {
        KICK_MEMBERS
    } else if cmd == "mute"@ || cmd == "unmute"@ {
        MODERATE_MEMBERS
    } else if cmd == "nick"@ {
        MANAGE_NICKNAMES
    } else if cmd == "slowmode"@ {
        MANAGE_CHANNELS
    } else {
        0
    }
}

/// The permission that a command asks of whoever calls it.
pub fn required_permission(cmd: &str) -> (p: u64)
    ensures
        p == permission_for(cmd@),
{
    if str_eq(cmd, "ban") || str_eq(cmd, "softban") || str_eq(cmd, "unban")
        || str_eq(cmd, "unbanall") {
        BAN_MEMBERS
    } else if str_eq(cmd, "kick") {
        KICK_MEMBERS
    } else if str_eq(cmd, "mute") || str_eq(cmd, "unmute") {
        MODERATE_MEMBERS
    } else if str_eq(cmd, "nick") {
        MANAGE_NICKNAMES
    } else if str_eq(cmd, "slowmode") {
        MANAGE_CHANNELS
    } else {
        0
    }
}

/// Whether a command may be run: it asks no permission, or the caller has
/// it, or the caller is an admin of the bot.
pub fn is_permitted(required: u64, has_permission: bool, is_bot_admin: bool) -> (r: bool)
    ensures
        r == (required == 0 || has_permission || is_bot_admin),
{
    required == 0 || has_permission || is_bot_admin
}

/// Whom a command is aimed at, and why.
#[derive(Clone, PartialEq, Eq, Debug)]
pub struct Target {
    /// The id of the target: the first word without the marks of a mention
    /// at its ends; empty where there is no word.
    pub id: String,
    /// The words after the first, or the stock reason where there are none.
    pub reason: String,
}

/// The id that the words of a command aim at.
pub open spec fn target_id_in(words: Seq<Seq<char>>) -> Seq<char> {
    if words.len() == 0 {
        Seq::empty()
    } else {
        trimmed_of(words[0], MENTION_MARKS@)
    }
}

/// The words from position `from` on, joined by spaces, or `fallback`
/// where there are none.
pub open spec fn words_from(words: Seq<Seq<char>>, from: int, fallback: Seq<char>) -> Seq<char> {
    if words.len() > from {
        joined(words, from, " "@)
    } else {
        fallback
    }
}

/// Joins the words from position `from` on by spaces, or gives `fallback`
/// where there are none.
pub fn words_after(words: &Vec<String>, from: usize, fallback: &str) -> (r: String)
    ensures
        r@ == words_from(views_of(words@), from as int, fallback@),
{
    if words.len() > from {
        join(words, from, " ")
    } else {
        fallback.to_owned()
    }
}

/// Reads target and reason out of the words of a command.
pub fn target_in(words: &Vec<String>) -> (t: Target)
    ensures
        t.id@ == target_id_in(views_of(words@)),
        t.reason@ == words_from(views_of(words@), 1, NO_REASON@),
{
    let id = if words.len() == 0 {
        String::new()
    } else {
        trim_chars(words[0].as_str(), MENTION_MARKS).to_owned()
    };
    Target { id, reason: words_after(words, 1, NO_REASON) }
}

/// Reads target and reason out of the arguments of a command.
pub fn parse_target(args: &str) -> (t: Target)
    ensures
        t.id@ == target_id_in(words_of(args@)),
        t.reason@ == words_from(words_of(args@), 1, NO_REASON@),
{
    let words = split_whitespace(args);
    target_in(&words)
}

/// How many minutes one unit of a duration lasts: the unit is the last
/// character, `m` for minutes, `h` for hours, `d` for days. A duration
/// without a unit counts minutes.
pub open spec fn unit_minutes(duration: Seq<char>) -> int {
    if has_suffix(duration, "h"@) {
        60
    } else if has_suffix(duration, "d"@) {
        1440
    } else {
        1
    }
}

/// The number of a duration: the duration without its unit.
pub open spec fn duration_number(duration: Seq<char>) -> Seq<char> {
    if has_suffix(duration, "m"@) || has_suffix(duration, "h"@) || has_suffix(duration, "d"@) {
        duration.drop_last()
    } else {
        duration
    }
}

/// The minutes that a duration in lowercase lasts, where it names at least
/// one minute and no more than fit into 63 bits.
pub open spec fn minutes_in(duration: Seq<char>) -> Option<int> {
    match unsigned_of(duration_number(duration), i64::MAX as int) {
        Some(n) => if n > 0 && n * unit_minutes(duration) <= i64::MAX {
            Some(n * unit_minutes(duration))
        } else {
            None
        },
        None => None,
    }
}

/// A text ends in a given character exactly where its last character is
/// that one.
proof fn lemma_suffix_single(s: Seq<char>, c: char)
    ensures
        has_suffix(s, seq![c]) <==> s.len() > 0 && s.last() == c,
{
    if s.len() > 0 {
        assert(s.subrange(s.len() - 1, s.len() as int) =~= seq![s.last()]);
        assert(seq![s.last()][0] == s.last());
        assert(seq![c][0] == c);
    }
}

/// Reads how many minutes a mute lasts out of a duration in lowercase such
/// as `10m`, `1h` or `1d`.
pub fn mute_minutes(duration: &str) -> (r: Option<i64>)
    ensures
        match r {
            Some(m) => minutes_in(duration@) == Some(m as int),
            None => minutes_in(duration@) is None,
        },
{
    let chars = chars_of(duration);
    let n = chars.len();
    proof {
        reveal_strlit("m");
        reveal_strlit("h");
        reveal_strlit("d");
        assert("m"@ =~= seq!['m']);
        assert("h"@ =~= seq!['h']);
        assert("d"@ =~= seq!['d']);
        lemma_suffix_single(duration@, 'm');
        lemma_suffix_single(duration@, 'h');
        lemma_suffix_single(duration@, 'd');
    }
    let last = if n > 0 {
        chars[n - 1]
    } else {
        ' '
    };
    let multiplier: u64 = if n > 0 && last == 'h' {
        60
    } else if n > 0 && last == 'd' {
        1440
    } else {
        1
    };
    let number = if n > 0 && (last == 'm' || last == 'h' || last == 'd') {
        duration.substring_char(0, n - 1)
    } else {
        duration
    };
    assert(number@ =~= duration_number(duration@));
    let value = match parse_u64(number) {
        Some(value) => value,
        None => {
            return None;
        },
    };
    if value == 0 || value > (i64::MAX as u64) / multiplier {
        proof {
            assert(value > (i64::MAX as u64) / multiplier ==> value * multiplier > i64::MAX)
                by (nonlinear_arith)
                requires
                    multiplier == 1 || multiplier == 60 || multiplier == 1440,
            ;
        }
        return None;
    }
    proof {
        assert(value * multiplier <= i64::MAX) by (nonlinear_arith)
            requires
                value <= (i64::MAX as u64) / multiplier,
                multiplier == 1 || multiplier == 60 || multiplier == 1440,
        ;
    }
    Some((value * multiplier) as i64)
}

/// The seconds of slow mode that a text names: the number that it writes
/// where that fits into 16 bits, 0 otherwise.
pub open spec fn slowmode_in(text: Seq<char>) -> u16 {
    match unsigned_of(text, u16::MAX as int) {
        Some(n) => n as u16,
        None => 0,
    }
}

/// Reads the seconds of slow mode out of a text.
pub fn slowmode_limit(text: &str) -> (limit: u16)
    ensures
        limit == slowmode_in(text@),
{
    match parse_u64(text) {
        Some(n) => {
            if n <= u16::MAX as u64 {
                n as u16
            } else {
                0
            }
        },
        None => 0,
    }
}

/// What a command of this handler comes to.
#[derive(Clone, Copy, PartialEq, Eq, Structural, Debug)]
pub enum BasicAction {
    /// The caller lacks the permission that the command asks for.
    Denied,
    /// The command lacks what it needs: its usage is shown.
    Usage,
    /// The duration of a mute names no time.
    BadDuration,
    /// Carry the command out.
    Run,
}

/// A command of this handler with what it needs to be carried out.
#[derive(Clone, PartialEq, Eq, Debug)]
pub struct BasicPlan {
    pub command: BasicCommand,
    pub action: BasicAction,
    /// The id of the member that the command is aimed at.
    pub target: String,
    /// The reason of a ban, a kick or a mute, or the new nickname.
    pub text: String,
    /// Whether the command names a nickname; without one the nickname is
    /// taken away.
    pub has_text: bool,
    /// The minutes of a mute.
    pub minutes: i64,
    /// The seconds of slow mode.
    pub limit: u16,
}

/// The minutes that the second word of a mute names, in lowercase.
pub open spec fn planned_minutes(words: Seq<Seq<char>>) -> Option<int> {
    if words.len() < 2 {
        None
    } else {
        minutes_in(lowercase_of(words[1]))
    }
}

/// What a command comes to, given its words and whether the caller may run
/// it.
///
/// Bans, kicks and unmutes need a target, and so does a change of
/// nickname. A mute needs a duration of at least one minute as its second
/// word. Slow mode and the lifting of all bans need nothing.
pub open spec fn basic_action(command: BasicCommand, words: Seq<Seq<char>>, permitted: bool) -> BasicAction {
    if !permitted {
        BasicAction::Denied
    } else {
        match command {
            BasicCommand::Ban
            | BasicCommand::Kick
            | BasicCommand::Softban
            | BasicCommand::Unban
            | BasicCommand::Unmute
            | BasicCommand::Nick => if target_id_in(words).len() == 0 {
                BasicAction::Usage
            } else {
                BasicAction::Run
            },
            BasicCommand::Mute => if words.len() < 2 {
                BasicAction::Usage
            } else if planned_minutes(words) is None {
                BasicAction::BadDuration
            } else {
                BasicAction::Run
            },
            BasicCommand::UnbanAll | BasicCommand::Slowmode => BasicAction::Run,
        }
    }
}

/// The text that goes with a command: the reason after the duration for a
/// mute, the nickname for a change of nickname, the reason for any other.
pub open spec fn basic_text(command: BasicCommand, words: Seq<Seq<char>>) -> Seq<char> {
    match command {
        BasicCommand::Mute => words_from(words, 2, NO_REASON@),
        BasicCommand::Nick => words_from(words, 1, Seq::empty()),
        _ => words_from(words, 1, NO_REASON@),
    }
}

/// Plans a command of this handler from its words.
pub fn plan_basic(command: BasicCommand, words: &Vec<String>, permitted: bool) -> (plan: BasicPlan)
    ensures
        plan.command == command,
        plan.action == basic_action(command, views_of(words@), permitted),
        plan.target@ == target_id_in(views_of(words@)),
        plan.text@ == basic_text(command, views_of(words@)),
        plan.has_text == (words@.len() > 1),
        plan.action == BasicAction::Run && command == BasicCommand::Mute ==> planned_minutes(
            views_of(words@),
        ) == Some(plan.minutes as int),
        plan.limit == slowmode_in(plan.target@),
{
    let Target { id, reason } = target_in(words);
    let limit = slowmode_limit(id.as_str());
    let text = match command {
        BasicCommand::Mute => words_after(words, 2, NO_REASON),
        BasicCommand::Nick => words_after(words, 1, ""),
        _ => reason,
    };
    proof {
        reveal_strlit("");
        assert(""@ =~= Seq::<char>::empty());
    }
    let mut minutes: i64 = 0;
    let action = if !permitted {
        BasicAction::Denied
    } else {
        match command {
            BasicCommand::Ban
            | BasicCommand::Kick
            | BasicCommand::Softban
            | BasicCommand::Unban
            | BasicCommand::Unmute
            | BasicCommand::Nick => {
                if id.as_str().is_empty() {
                    BasicAction::Usage
                } else {
                    BasicAction::Run
                }
            },
            BasicCommand::Mute => {
                if words.len() < 2 {
                    BasicAction::Usage
                } else {
                    let duration = to_lowercase(words[1].as_str());
                    match mute_minutes(duration.as_str()) {
                        Some(m) => {
                            minutes = m;
                            BasicAction::Run
                        },
                        None => BasicAction::BadDuration,
                    }
                }
            },
            BasicCommand::UnbanAll | BasicCommand::Slowmode => BasicAction::Run,
        }
    };
    BasicPlan { command, action, target: id, text, has_text: words.len() > 1, minutes, limit }
}

/// Plans a command of this handler from its name and arguments; a name that
/// is none of this handler's comes to nothing.
pub fn handle_basic(cmd: &str, args: &str, permitted: bool) -> (plan: Option<BasicPlan>)
    ensures
        match basic_named(cmd@) {
            None => plan is None,
            Some(command) => plan matches Some(p) && p.command == command && p.action
                == basic_action(command, words_of(args@), permitted) && p.target@ == target_id_in(
                words_of(args@),
            ) && p.text@ == basic_text(command, words_of(args@)) && p.limit == slowmode_in(
                p.target@,
            ),
        },
{
    match basic_command(cmd) {
        Some(command) => {
            let words = split_whitespace(args);
            Some(plan_basic(command, &words, permitted))
        },
        None => None,
    }
}

/// Whether the platform refused a call because the bot may not make it: the
/// error's text holds the status `403`.
pub fn is_forbidden(error: &str) -> (r: bool)
    ensures
        r == has_substring(error@, "403"@),
{
    contains(error, "403")
}

} // verus!
