//! What becomes of a message and of an interaction.

use crate::models::{Interaction, InteractionData, Message};
use crate::text::{
    chars_of, has_prefix, join, joined, lowercase_of, matches_at, split_whitespace, starts_with,
    str_eq, to_lowercase, views_of, words_of,
};
use vstd::prelude::*;
use vstd::string::StrSliceExecFns;

verus! {

/// The commands that a message can call, by the handler that serves them.
#[derive(Clone, Copy, PartialEq, Eq, Structural, Debug)]
pub enum Command {
    Ping,
    Info,
    Help,
    /// The commands on the whitelist, the admins and the detector.
    Security,
    /// The commands that moderate members, channels and messages.
    Moderation,
    EightBall,
    Roll,
    Coinflip,
}

/// A command as a message calls it: its name in lowercase, and its
/// arguments with one space between each two.
#[derive(Clone, PartialEq, Eq, Debug)]
pub struct Invocation {
    pub cmd: String,
    pub args: String,
}

/// The command that goes by the name `cmd`.
pub open spec fn command_named(cmd: Seq<char>) -> Option<Command> {
    if cmd == "ping"@ {
        Some(Command::Ping)
    } else if cmd == "info"@ {
        Some(Command::Info)
    } else if cmd == "help"@ {
        Some(Command::Help)
    } else if cmd == "security"@ || cmd == "s"@ || cmd == "sec"@ || cmd == "antinuke"@
        || cmd == "admin"@ || cmd == "adm"@ || cmd == "extraowner"@ || cmd == "eo"@
        || cmd == "whitelist"@ || cmd == "wl"@ || cmd == "wlist"@ || cmd == "unwhitelist"@
        || cmd == "uwl"@ || cmd == "nightmode"@ || cmd == "nm"@ {
        Some(Command::Security)
    } else if cmd == "ban"@ || cmd == "kick"@ || cmd == "softban"@ || cmd == "unban"@
        || cmd == "unbanall"@ || cmd == "mute"@ || cmd == "unmute"@ || cmd == "unmuteall"@
        || cmd == "nick"@ || cmd == "slowmode"@ || cmd == "lock"@ || cmd == "unlock"@
        || cmd == "lockall"@ || cmd == "unlockall"@ || cmd == "hide"@ || cmd == "unhide"@
        || cmd == "hideall"@ || cmd == "unhideall"@ || cmd == "block"@ || cmd == "unblock"@
        || cmd == "purge"@ || cmd == "clear"@ || cmd == "p"@ || cmd == "c"@ || cmd == "list"@
        || cmd == "l"@ || cmd == "role"@ || cmd == "r"@ || cmd == "warn"@ || cmd == "warning"@
        || cmd == "command"@ || cmd == "ignore"@ || cmd == "unignore"@ || cmd == "prefix"@ {
        Some(Command::Moderation)
    } else if cmd == "8ball"@ || cmd == "eightball"@ {
        Some(Command::EightBall)
    } else if cmd == "roll"@ {
        Some(Command::Roll)
    } else if cmd == "coinflip"@ {
        Some(Command::Coinflip)
    } else {
        None
    }
}

/// Looks a command up by its name.
pub fn command_of(cmd: &str) -> (c: Option<Command>)
    ensures
        c == command_named(cmd@),
{
    if str_eq(cmd, "ping") {
        Some(Command::Ping)
    } else if str_eq(cmd, "info") {
        Some(Command::Info)
    } else if str_eq(cmd, "help") {
        Some(Command::Help)
    } else if str_eq(cmd, "security") || str_eq(cmd, "s") || str_eq(cmd, "sec")
        || str_eq(cmd, "antinuke") || str_eq(cmd, "admin") || str_eq(cmd, "adm")
        || str_eq(cmd, "extraowner") || str_eq(cmd, "eo") || str_eq(cmd, "whitelist")
        || str_eq(cmd, "wl") || str_eq(cmd, "wlist") || str_eq(cmd, "unwhitelist")
        || str_eq(cmd, "uwl") || str_eq(cmd, "nightmode") || str_eq(cmd, "nm") {
        Some(Command::Security)
    } else if str_eq(cmd, "ban") || str_eq(cmd, "kick") || str_eq(cmd, "softban")
        || str_eq(cmd, "unban") || str_eq(cmd, "unbanall") || str_eq(cmd, "mute")
        || str_eq(cmd, "unmute") || str_eq(cmd, "unmuteall") || str_eq(cmd, "nick")
        || str_eq(cmd, "slowmode") || str_eq(cmd, "lock") || str_eq(cmd, "unlock")
        || str_eq(cmd, "lockall") || str_eq(cmd, "unlockall") || str_eq(cmd, "hide")
        || str_eq(cmd, "unhide") || str_eq(cmd, "hideall") || str_eq(cmd, "unhideall")
        || str_eq(cmd, "block") || str_eq(cmd, "unblock") || str_eq(cmd, "purge")
        || str_eq(cmd, "clear") || str_eq(cmd, "p") || str_eq(cmd, "c") || str_eq(cmd, "list")
        || str_eq(cmd, "l") || str_eq(cmd, "role") || str_eq(cmd, "r") || str_eq(cmd, "warn")
        || str_eq(cmd, "warning") || str_eq(cmd, "command") || str_eq(cmd, "ignore")
        || str_eq(cmd, "unignore") || str_eq(cmd, "prefix") {
        Some(Command::Moderation)
    } else if str_eq(cmd, "8ball") || str_eq(cmd, "eightball") {
        Some(Command::EightBall)
    } else if str_eq(cmd, "roll") {
        Some(Command::Roll)
    } else if str_eq(cmd, "coinflip") {
        Some(Command::Coinflip)
    } else {
        None
    }
}

/// A command is served even in an ignored channel and to an ignored user
/// where it manages the ignore lists themselves, or is the help.
pub open spec fn ignores_apply(cmd: Seq<char>) -> bool {
    cmd != "ignore"@ && cmd != "unignore"@ && cmd != "help"@
}

/// Tells whether the ignore lists are to be asked before a command is
/// served.
pub fn respects_ignores(cmd: &str) -> (r: bool)
    ensures
        r == ignores_apply(cmd@),
{
    !str_eq(cmd, "ignore") && !str_eq(cmd, "unignore") && !str_eq(cmd, "help")
}

/// The invocation that a list of words makes: the first word in lowercase is
/// the command, the others are its arguments. No words make none.
pub open spec fn invocation_in(words: Seq<Seq<char>>) -> Option<(Seq<char>, Seq<char>)> {
    if words.len() == 0 {
        None
    } else {
        Some((lowercase_of(words[0]), joined(words, 1, " "@)))
    }
}

/// Makes an invocation of the words of a message.
pub fn invocation_of(words: &Vec<String>) -> (r: Option<Invocation>)
    ensures
        match r {
            Some(inv) => invocation_in(views_of(words@)) == Some((inv.cmd@, inv.args@)),
            None => invocation_in(views_of(words@)) is None,
        },
{
    if words.len() == 0 {
        return None;
    }
    let cmd = to_lowercase(words[0].as_str());
    let args = join(words, 1, " ");
    Some(Invocation { cmd, args })
}

/// The invocation that a message's text makes under a prefix: none where
/// the text does not begin with the prefix, otherwise the one that the
/// words after the prefix make.
pub open spec fn invocation_under(content: Seq<char>, prefix: Seq<char>) -> Option<
    (Seq<char>, Seq<char>),
> {
    if has_prefix(content, prefix) {
        invocation_in(words_of(content.skip(prefix.len() as int)))
    } else {
        None
    }
}

/// Reads the invocation out of a message's text.
pub fn parse_invocation(content: &str, prefix: &str) -> (r: Option<Invocation>)
    ensures
        match r {
            Some(inv) => invocation_under(content@, prefix@) == Some((inv.cmd@, inv.args@)),
            None => invocation_under(content@, prefix@) is None,
        },
{
    let text = chars_of(content);
    let lead = chars_of(prefix);
    if !matches_at(&text, &lead, 0) {
        return None;
    }
    let rest = content.substring_char(lead.len(), text.len());
    assert(rest@ =~= content@.skip(prefix@.len() as int));
    let words = split_whitespace(rest);
    invocation_of(&words)
}

/// What is to be done about a message.
#[derive(Clone, PartialEq, Eq, Debug)]
pub enum MessageRoute {
    /// Nothing: the author is a bot, or the text calls no command.
    Ignore,
    /// The text calls a command that nobody serves.
    Unknown(Invocation),
    /// Serve the command, after asking the ignore lists where
    /// `check_ignores` says so.
    Serve { command: Command, invocation: Invocation, check_ignores: bool },
}

/// Decides what is to be done about a message, given the prefix that is in
/// force where it was written.
///
/// A message of a bot is ignored, and so is one that does not begin with the
/// prefix or holds no word after it. The first word after the prefix, in
/// lowercase, names the command.
pub fn handle_message(msg: &Message, active_prefix: &str) -> (route: MessageRoute)
    ensures
        msg.author.bot ==> route == MessageRoute::Ignore,
        !msg.author.bot ==> match invocation_under(msg.content@, active_prefix@) {
            None => route == MessageRoute::Ignore,
            Some((cmd, args)) => match command_named(cmd) {
                None => route matches MessageRoute::Unknown(inv) && inv.cmd@ == cmd && inv.args@
                    == args,
                Some(c) => route matches MessageRoute::Serve { command, invocation, check_ignores }
                    && command == c && invocation.cmd@ == cmd && invocation.args@ == args
                    && check_ignores == ignores_apply(cmd),
            },
        },
{
    if msg.author.bot {
        return MessageRoute::Ignore;
    }
    let invocation = match parse_invocation(msg.content.as_str(), active_prefix) {
        Some(invocation) => invocation,
        None => {
            return MessageRoute::Ignore;
        },
    };
    match command_of(invocation.cmd.as_str()) {
        Some(command) => {
            let check_ignores = respects_ignores(invocation.cmd.as_str());
            MessageRoute::Serve { command, invocation, check_ignores }
        },
        None => MessageRoute::Unknown(invocation),
    }
}

/// The handlers that serve interactions.
#[derive(Clone, Copy, PartialEq, Eq, Structural, Debug)]
pub enum InteractionRoute {
    /// The help's pages.
    Help,
    /// The panels of the security commands.
    Security,
}

/// The id that the component of an interaction carries; empty where it
/// carries none.
pub open spec fn custom_id_of(data: Option<InteractionData>) -> Seq<char> {
    match data {
        Some(d) => match d.custom_id {
            Some(id) => id@,
            None => Seq::empty(),
        },
        None => Seq::empty(),
    }
}

/// Decides who serves an interaction: the help where the id of its
/// component begins with `help_`, the security panels otherwise.
pub fn handle_interaction(interaction: &Interaction) -> (route: InteractionRoute)
    ensures
        route == if has_prefix(custom_id_of(interaction.data), "help_"@) {
            InteractionRoute::Help
        } else {
            InteractionRoute::Security
        },
{
    let is_help = match &interaction.data {
        Some(d) => match &d.custom_id {
            Some(id) => starts_with(id.as_str(), "help_"),
            None => starts_with("", "help_"),
        },
        None => starts_with("", "help_"),
    };
    proof {
        reveal_strlit("");
        assert(""@ =~= Seq::<char>::empty());
    }
    if is_help {
        InteractionRoute::Help
    } else {
        InteractionRoute::Security
    }
}

} // verus!
