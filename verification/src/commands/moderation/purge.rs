//! The bulk deletion of messages.

use crate::commands::moderation::basic::MENTION_MARKS;
use crate::json::{as_flag, as_items, member, text_or_empty, tree, Json};
use crate::rest::trees;
use crate::text::{
    contains, has_prefix, has_substring, join, joined, lowercase_of, parse_u64, split_whitespace,
    starts_with, str_eq, to_lowercase, trim_chars, trimmed_of, unsigned_of, views_of, words_of,
};
use vstd::prelude::*;

verus! {

/// How many messages are deleted where the command names no number.
pub const DEFAULT_AMOUNT: u8 = 50;

/// The most messages that are deleted at once.
pub const MAX_AMOUNT: u8 = 100;

/// What to delete: the kind of message, how many at most, and for some
/// kinds whose or with what text.
#[derive(Clone, PartialEq, Eq, Debug)]
pub struct PurgePlan {
    /// The first word of the command, in lowercase.
    pub filter_type: String,
    pub amount: u8,
    /// The author whose messages go, for a command that names only a user.
    pub target_id: Option<String>,
    /// The text that the messages hold, in lowercase, for the filter
    /// `contains`.
    pub filter_text: Option<String>,
}

/// The number of messages that the text `s` names: the number it writes,
/// brought into the range from 1 to 100. `None` where it writes no number
/// that fits into 8 bits.
pub open spec fn amount_in(s: Seq<char>) -> Option<u8> {
    match unsigned_of(s, u8::MAX as int) {
        Some(n) => Some(
            if n < 1 {
                1u8
            } else if n > MAX_AMOUNT {
                MAX_AMOUNT
            } else {
                n as u8
            },
        ),
        None => None,
    }
}

/// Reads a number of messages.
pub fn parse_amount(s: &str) -> (r: Option<u8>)
    ensures
        r == amount_in(s@),
{
    match parse_u64(s) {
        Some(n) => {
            if n > u8::MAX as u64 {
                None
            } else if n < 1 {
                Some(1)
            } else if n > MAX_AMOUNT as u64 {
                Some(MAX_AMOUNT)
            } else {
                Some(n as u8)
            }
        },
        None => None,
    }
}

/// The number of messages that the words of a command name.
pub open spec fn planned_amount(words: Seq<Seq<char>>) -> u8 {
    if words.len() > 1 {
        if lowercase_of(words[0]) == "contains"@ {
            MAX_AMOUNT
        } else {
            match amount_in(words[1]) {
                Some(n) => n,
                None => DEFAULT_AMOUNT,
            }
        }
    } else {
        match amount_in(words[0]) {
            Some(n) => n,
            None => DEFAULT_AMOUNT,
        }
    }
}

/// The author that the words of a command name: the id in the only word,
/// where that word is a mention and no number.
pub open spec fn planned_target(words: Seq<Seq<char>>) -> Option<Seq<char>> {
    if words.len() == 1 && amount_in(words[0]) is None && has_prefix(words[0], "<@"@) {
        Some(trimmed_of(words[0], MENTION_MARKS@))
    } else {
        None
    }
}

/// The text that the words of a command name: with the filter `contains`,
/// the words after the first, in lowercase.
pub open spec fn planned_text(words: Seq<Seq<char>>) -> Option<Seq<char>> {
    if words.len() > 1 && lowercase_of(words[0]) == "contains"@ {
        Some(lowercase_of(joined(words, 1, " "@)))
    } else {
        None
    }
}

impl PurgePlan {
    /// The author whose messages go, as characters.
    pub open spec fn target(&self) -> Option<Seq<char>> {
        match self.target_id {
            Some(id) => Some(id@),
            None => None,
        }
    }

    /// The text that the messages hold, as characters.
    pub open spec fn text(&self) -> Option<Seq<char>> {
        match self.filter_text {
            Some(t) => Some(t@),
            None => None,
        }
    }

    /// The plan is the one that `words` make.
    pub open spec fn made_of(&self, words: Seq<Seq<char>>) -> bool {
        &&& self.filter_type@ == lowercase_of(words[0])
        &&& self.amount == planned_amount(words)
        &&& self.target() == planned_target(words)
        &&& self.text() == planned_text(words)
    }
}

/// Makes the plan of the words of a purge command; none where there is no
/// word, for which the usage is shown.
pub fn plan_in(words: &Vec<String>) -> (r: Option<PurgePlan>)
    ensures
        words@.len() == 0 ==> r is None,
        words@.len() > 0 ==> (r matches Some(plan) && plan.made_of(views_of(words@))),
{
    if words.len() == 0 {
        return None;
    }
    let filter_type = to_lowercase(words[0].as_str());
    let mut amount: u8 = DEFAULT_AMOUNT;
    let mut target_id: Option<String> = None;
    let mut filter_text: Option<String> = None;
    if words.len() > 1 {
        if let Some(n) = parse_amount(words[1].as_str()) {
            amount = n;
        }
        if str_eq(filter_type.as_str(), "contains") {
            let text = join(words, 1, " ");
            filter_text = Some(to_lowercase(text.as_str()));
            amount = MAX_AMOUNT;
        }
    } else {
        match parse_amount(words[0].as_str()) {
            Some(n) => {
                amount = n;
            },
            None => {
                if starts_with(words[0].as_str(), "<@") {
                    target_id = Some(trim_chars(words[0].as_str(), MENTION_MARKS).to_owned());
                }
            },
        }
    }
    Some(PurgePlan { filter_type, amount, target_id, filter_text })
}

/// Makes the plan of the arguments of a purge command.
pub fn parse_plan(args: &str) -> (r: Option<PurgePlan>)
    ensures
        words_of(args@).len() == 0 ==> r is None,
        words_of(args@).len() > 0 ==> (r matches Some(plan) && plan.made_of(words_of(args@))),
{
    let words = split_whitespace(args);
    plan_in(&words)
}

/// Whether the member `key` of a message is a list that holds something.
pub open spec fn has_some(m: Json, key: Seq<char>) -> bool {
    match m.field(key) {
        Some(Json::Array(items)) => items.len() > 0,
        _ => false,
    }
}

/// Whether the author of a message is a bot.
pub open spec fn by_bot(m: Json) -> bool {
    match m.field("author"@) {
        Some(author) => match author.field("bot"@) {
            Some(Json::Bool(b)) => b,
            _ => false,
        },
        None => false,
    }
}

/// The id of the author of a message; empty where it names none.
pub open spec fn author_of(m: Json) -> Seq<char> {
    match m.field("author"@) {
        Some(author) => author.text_or_empty("id"@),
        None => Seq::empty(),
    }
}

/// The text of a message in lowercase.
pub open spec fn lowered_text(m: Json) -> Seq<char> {
    lowercase_of(m.text_or_empty("content"@))
}

/// Whether a plan takes the message `m`.
///
/// The filters by kind take bots' messages, humans' messages, messages
/// with links, with attachments, with mentions, or with the plan's text.
/// Any other first word takes the messages of the plan's author, or every
/// message where the plan names no author.
pub open spec fn takes(plan: PurgePlan, m: Json) -> bool {
    let kind = plan.filter_type@;
    if kind == "bots"@ || kind == "bot"@ {
        by_bot(m)
    } else if kind == "humans"@ || kind == "human"@ {
        !by_bot(m)
    } else if kind == "links"@ || kind == "link"@ {
        has_substring(lowered_text(m), "http://"@) || has_substring(lowered_text(m), "https://"@)
    } else if kind == "attachments"@ || kind == "attachment"@ || kind == "files"@ {
        has_some(m, "attachments"@)
    } else if kind == "mentions"@ || kind == "mention"@ || kind == "pings"@ {
        has_some(m, "mentions"@)
    } else if kind == "contains"@ || kind == "text"@ {
        match plan.text() {
            Some(t) => has_substring(lowered_text(m), t),
            None => false,
        }
    } else {
        match plan.target() {
            Some(id) => author_of(m) == id,
            None => true,
        }
    }
}

/// Tells whether the member `key` of a message is a list that holds
/// something.
fn holds_some(m: &serde_json::Value, key: &str) -> (r: bool)
    ensures
        r == has_some(tree(*m), key@),
{
    match member(m, key) {
        Some(list) => match as_items(list) {
            Some(items) => items.len() > 0,
            None => false,
        },
        None => false,
    }
}

/// Tells whether a plan takes a message.
pub fn keeps(plan: &PurgePlan, m: &serde_json::Value) -> (r: bool)
    ensures
        r == takes(*plan, tree(*m)),
{
    let kind = plan.filter_type.as_str();
    if str_eq(kind, "bots") || str_eq(kind, "bot") || str_eq(kind, "humans") || str_eq(
        kind,
        "human",
    ) {
        let is_bot = match member(m, "author") {
            Some(author) => match member(author, "bot") {
                Some(flag) => match as_flag(flag) {
                    Some(b) => b,
                    None => false,
                },
                None => false,
            },
            None => false,
        };
        if str_eq(kind, "bots") || str_eq(kind, "bot") {
            is_bot
        } else {
            !is_bot
        }
    } else if str_eq(kind, "links") || str_eq(kind, "link") {
        let content = to_lowercase(text_or_empty(m, "content").as_str());
        contains(content.as_str(), "http://") || contains(content.as_str(), "https://")
    } else if str_eq(kind, "attachments") || str_eq(kind, "attachment") || str_eq(kind, "files") {
        holds_some(m, "attachments")
    } else if str_eq(kind, "mentions") || str_eq(kind, "mention") || str_eq(kind, "pings") {
        holds_some(m, "mentions")
    } else if str_eq(kind, "contains") || str_eq(kind, "text") {
        match &plan.filter_text {
            Some(t) => {
                let content = to_lowercase(text_or_empty(m, "content").as_str());
                contains(content.as_str(), t.as_str())
            },
            None => false,
        }
    } else {
        match &plan.target_id {
            Some(id) => {
                let author = match member(m, "author") {
                    Some(author) => text_or_empty(author, "id"),
                    None => String::new(),
                };
                str_eq(author.as_str(), id.as_str())
            },
            None => true,
        }
    }
}

/// The ids of the messages that a plan takes among the first `upto` of
/// `messages`, in their order, and no more of them than the plan's amount.
pub open spec fn selection(plan: PurgePlan, messages: Seq<Json>, upto: int) -> Seq<Seq<char>>
    decreases upto,
{
    if upto <= 0 {
        Seq::empty()
    } else {
        let earlier = selection(plan, messages, upto - 1);
        if earlier.len() < plan.amount && takes(plan, messages[upto - 1]) {
            earlier.push(messages[upto - 1].text_or_empty("id"@))
        } else {
            earlier
        }
    }
}

/// Selects the messages to delete: the ids of those that the plan takes, in
/// the order of the messages, until the plan's amount is reached.
pub fn select(plan: &PurgePlan, messages: &Vec<serde_json::Value>) -> (ids: Vec<String>)
    ensures
        views_of(ids@) == selection(*plan, trees(messages@), messages@.len() as int),
        ids@.len() <= plan.amount,
{
    let mut ids: Vec<String> = Vec::new();
    let mut i: usize = 0;
    while i < messages.len()
        invariant
            i <= messages.len(),
            views_of(ids@) == selection(*plan, trees(messages@), i as int),
            ids@.len() <= plan.amount,
        decreases messages.len() - i,
    {
        assert(trees(messages@)[i as int] == tree(messages@[i as int]));
        if ids.len() < plan.amount as usize && keeps(plan, &messages[i]) {
            let ghost before = views_of(ids@);
            let id = text_or_empty(&messages[i], "id");
            ids.push(id);
            assert(views_of(ids@) =~= before.push(id@));
        }
        i += 1;
    }
    ids
}

/// What becomes of a selection.
#[derive(Clone, Copy, PartialEq, Eq, Structural, Debug)]
pub enum PurgeOutcome {
    /// No message matched.
    NothingFound,
    /// One message matched: the platform deletes messages in bulk from two
    /// on, so it is left.
    SingleSkipped,
    /// Delete the selection in bulk.
    BulkDelete,
}

/// Decides what becomes of a selection of `count` messages.
pub fn handle_purge(count: usize) -> (o: PurgeOutcome)
    ensures
        o == if count == 0 {
            PurgeOutcome::NothingFound
        } else if count == 1 {
            PurgeOutcome::SingleSkipped
        } else {
            PurgeOutcome::BulkDelete
        },
{
    if count == 0 {
        PurgeOutcome::NothingFound
    } else if count == 1 {
        PurgeOutcome::SingleSkipped
    } else {
        PurgeOutcome::BulkDelete
    }
}

} // verus!
