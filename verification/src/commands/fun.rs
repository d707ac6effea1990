//! Games of chance.

use crate::constants::emojis;
use crate::text::{
    chars_of, lowercase_of, parse_u64, stripped_of, to_lowercase, trim, unsigned_of,
};
use rand::Rng;
use vstd::prelude::*;
use vstd::string::StrSliceExecFns;

verus! {

/// How many answers the eight ball knows.
pub const RESPONSE_COUNT: usize = 20;

/// The most dice that are rolled at once.
pub const MAX_DICE: u32 = 100;

/// The most sides that a die may have.
pub const MAX_SIDES: u32 = 1000;

/// The mood of the answer at position `idx` of the eight ball's answers:
/// the first ten say yes, the next five are undecided, the rest say no.
pub open spec fn ball_mood(idx: int) -> Seq<char> {
    if 0 <= idx <= 9 {
        emojis::SUCCESS@
    } else if 10 <= idx <= 14 {
        emojis::CRYSTAL@
    } else {
        emojis::ERROR@
    }
}

/// The symbol that goes with the eight ball's answer at position `idx`.
pub fn ball_emoji(idx: usize) -> (emoji: &'static str)
    ensures
        emoji@ == ball_mood(idx as int),
{
    if idx <= 9 {
        emojis::SUCCESS
    } else if idx <= 14 {
        emojis::CRYSTAL
    } else {
        emojis::ERROR
    }
}

/// The eight ball's answer at position `idx`.
pub open spec fn response_text(idx: int) -> Seq<char> {
    if idx == 0 {
        "It is certain."@
    } else if idx == 1 {
        "It is decidedly so."@
    } else if idx == 2 {
        "Without a doubt."@
    } else if idx == 3 {
        "Yes, definitely."@
    } else if idx == 4 {
        "You may rely on it."@
    } else if idx == 5 {
        "As I see it, yes."@
    } else if idx == 6 {
        "Most likely."@
    } else if idx == 7 {
        "Outlook good."@
    } else if idx == 8 {
        "Yes."@
    } else if idx == 9 {
        "Signs point to yes."@
    } else if idx == 10 {
        "Reply hazy, try again."@
    } else if idx == 11 {
        "Ask again later."@
    } else if idx == 12 {
        "Better not tell you now."@
    } else if idx == 13 {
        "Cannot predict now."@
    } else if idx == 14 {
        "Concentrate and ask again."@
    } else if idx == 15 {
        "Don't count on it."@
    } else if idx == 16 {
        "My reply is no."@
    } else if idx == 17 {
        "My sources say no."@
    } else if idx == 18 {
        "Outlook not so good."@
    } else {
        "Very doubtful."@
    }
}

/// The eight ball's answer at position `idx`.
pub fn response(idx: usize) -> (answer: &'static str)
    requires
        idx < RESPONSE_COUNT,
    ensures
        answer@ == response_text(idx as int),
{
    match idx {
        0 => "It is certain.",
        1 => "It is decidedly so.",
        2 => "Without a doubt.",
        3 => "Yes, definitely.",
        4 => "You may rely on it.",
        5 => "As I see it, yes.",
        6 => "Most likely.",
        7 => "Outlook good.",
        8 => "Yes.",
        9 => "Signs point to yes.",
        10 => "Reply hazy, try again.",
        11 => "Ask again later.",
        12 => "Better not tell you now.",
        13 => "Cannot predict now.",
        14 => "Concentrate and ask again.",
        15 => "Don't count on it.",
        16 => "My reply is no.",
        17 => "My sources say no.",
        18 => "Outlook not so good.",
        _ => "Very doubtful.",
    }
}

/// `Rng::gen_range` on the thread's generator, over `0..n`: some number
/// below `n`. Which one is left to chance.
#[verifier::external_body]
fn random_below(n: usize) -> (i: usize)
    requires
        n > 0,
    ensures
        i < n,
{
    rand::thread_rng().gen_range(0..n)
}

/// `Rng::gen_range` on the thread's generator, over `1..=sides`: the throw
/// of one die. Which side comes up is left to chance.
#[verifier::external_body]
fn roll_die(sides: u32) -> (side: u32)
    requires
        sides >= 1,
    ensures
        1 <= side <= sides,
{
    rand::thread_rng().gen_range(1..=sides)
}

/// What the eight ball says.
#[derive(Clone, PartialEq, Eq, Debug)]
pub enum EightBall {
    /// Nothing was asked: the usage is shown.
    Usage,
    /// The answer to a question, with the symbol of its mood.
    Answer { question: String, emoji: &'static str, answer: &'static str },
}

/// What the eight ball says to a question whose ends are already free of
/// whitespace, given the position of the answer that was drawn.
pub fn eight_ball_reply(question: &str, idx: usize) -> (reply: EightBall)
    requires
        idx < RESPONSE_COUNT,
    ensures
        question@.len() == 0 ==> reply == EightBall::Usage,
        question@.len() != 0 ==> (reply matches EightBall::Answer {
            question: asked,
            emoji,
            answer,
        } && asked@ == question@ && emoji@ == ball_mood(idx as int) && answer@ == response_text(
            idx as int,
        )),
{
    if question.is_empty() {
        return EightBall::Usage;
    }
    EightBall::Answer {
        question: question.to_owned(),
        emoji: ball_emoji(idx),
        answer: response(idx),
    }
}

/// Asks the eight ball. A question that is empty but for whitespace gets the
/// usage, any other an answer drawn by chance, with the symbol of that
/// answer's mood.
pub fn eight_ball(question: &str) -> (reply: EightBall)
    ensures
        stripped_of(question@).len() == 0 ==> reply == EightBall::Usage,
        stripped_of(question@).len() != 0 ==> (reply matches EightBall::Answer {
            question: asked,
            emoji,
            answer,
        } && asked@ == stripped_of(question@) && exists|idx: int|
            0 <= idx < RESPONSE_COUNT && emoji@ == ball_mood(idx) && answer@ == #[trigger] response_text(
                idx,
            )),
{
    let idx = random_below(RESPONSE_COUNT);
    eight_ball_reply(trim(question), idx)
}

/// What to roll: how many dice, and with how many sides each.
#[derive(Clone, Copy, PartialEq, Eq, Debug)]
pub struct Dice {
    pub count: u32,
    pub sides: u32,
}

/// Why a text names no dice.
#[derive(Clone, Copy, PartialEq, Eq, Structural, Debug)]
pub enum DiceError {
    /// The text is not two parts with one `d` between them.
    Format,
    /// The number of dice is no number from 1 to 100.
    Count,
    /// The number of sides is no number from 2 to 1000.
    Sides,
}

/// How often `c` occurs among the first `upto` characters of `s`.
pub open spec fn occurrences(s: Seq<char>, c: char, upto: int) -> int
    decreases upto,
{
    if upto <= 0 {
        0
    } else {
        occurrences(s, c, upto - 1) + if s[upto - 1] == c {
            1int
        } else {
            0int
        }
    }
}

/// The first place at which `c` stands in `s`; the length of `s` where it
/// stands nowhere.
pub open spec fn first_index(s: Seq<char>, c: char) -> int
    decreases s.len(),
{
    if s.len() == 0 || s[0] == c {
        0
    } else {
        1 + first_index(s.skip(1), c)
    }
}

/// The number from `low` to `high` that `s` writes, if it writes one.
pub open spec fn number_within(s: Seq<char>, low: int, high: int) -> Option<int> {
    match unsigned_of(s, u64::MAX as int) {
        Some(n) => if low <= n <= high {
            Some(n)
        } else {
            None
        },
        None => None,
    }
}

/// The dice that the text `s` names: a number of dice from 1 to 100, a `d`,
/// and a number of sides from 2 to 1000, with no other `d` in it.
pub open spec fn dice_named(s: Seq<char>) -> Result<Dice, DiceError> {
    if occurrences(s, 'd', s.len() as int) != 1 {
        Err(DiceError::Format)
    } else {
        let at = first_index(s, 'd');
        match number_within(s.take(at), 1, MAX_DICE as int) {
            None => Err(DiceError::Count),
            Some(count) => match number_within(s.skip(at + 1), 2, MAX_SIDES as int) {
                None => Err(DiceError::Sides),
                Some(sides) => Ok(Dice { count: count as u32, sides: sides as u32 }),
            },
        }
    }
}

/// Reads a number from `low` to `high`.
fn parse_within(s: &str, low: u32, high: u32) -> (r: Option<u32>)
    ensures
        match r {
            Some(n) => number_within(s@, low as int, high as int) == Some(n as int),
            None => number_within(s@, low as int, high as int) is None,
        },
{
    match parse_u64(s) {
        Some(n) => {
            if n >= low as u64 && n <= high as u64 {
                Some(n as u32)
            } else {
                None
            }
        },
        None => None,
    }
}

/// The first place of `c` in `s` is the place before which there is no `c`.
proof fn lemma_first_index(s: Seq<char>, c: char, at: int)
    requires
        0 <= at < s.len(),
        s[at] == c,
        forall|k: int| 0 <= k < at ==> s[k] != c,
    ensures
        first_index(s, c) == at,
    decreases at,
{
    if at > 0 {
        let rest = s.skip(1);
        assert(rest[at - 1] == s[at]);
        assert forall|k: int| 0 <= k < at - 1 implies rest[k] != c by {
            assert(rest[k] == s[k + 1]);
        }
        lemma_first_index(rest, c, at - 1);
    }
}

/// Reads the dice out of a text that is in lowercase and free of whitespace
/// at its ends.
pub fn dice_in(s: &str) -> (r: Result<Dice, DiceError>)
    ensures
        r == dice_named(s@),
{
    let chars = chars_of(s);
    let n = chars.len();
    let mut at: usize = 0;
    let mut seen: usize = 0;
    let mut i: usize = 0;
    while i < n
        invariant
            chars@ == s@,
            n == chars.len(),
            i <= n,
            seen == occurrences(s@, 'd', i as int),
            seen <= i,
            seen >= 1 ==> at < i && s@[at as int] == 'd' && forall|k: int|
                0 <= k < at ==> s@[k] != 'd',
            seen == 0 ==> forall|k: int| 0 <= k < i ==> s@[k] != 'd',
        decreases n - i,
    {
        if chars[i] == 'd' {
            if seen == 0 {
                at = i;
            }
            seen += 1;
        }
        i += 1;
    }
    if seen != 1 {
        return Err(DiceError::Format);
    }
    proof {
        lemma_first_index(s@, 'd', at as int);
    }
    let first = s.substring_char(0, at);
    let second = s.substring_char(at + 1, n);
    assert(first@ =~= s@.take(at as int));
    assert(second@ =~= s@.skip(at + 1));
    let count = match parse_within(first, 1, MAX_DICE) {
        Some(count) => count,
        None => {
            return Err(DiceError::Count);
        },
    };
    let sides = match parse_within(second, 2, MAX_SIDES) {
        Some(sides) => sides,
        None => {
            return Err(DiceError::Sides);
        },
    };
    Ok(Dice { count, sides })
}

/// The text that names the dice of a roll, as the command's argument gives
/// it: one die of six sides where the argument is empty but for whitespace,
/// otherwise the argument in lowercase and without the whitespace at its
/// ends.
pub open spec fn dice_text(input: Seq<char>) -> Seq<char> {
    if stripped_of(input).len() == 0 {
        "1d6"@
    } else {
        lowercase_of(stripped_of(input))
    }
}

/// Reads the dice out of the argument of the roll command.
pub fn parse_dice(input: &str) -> (r: Result<Dice, DiceError>)
    ensures
        r == dice_named(dice_text(input@)),
{
    let stripped = trim(input);
    if stripped.is_empty() {
        dice_in("1d6")
    } else {
        let lowered = to_lowercase(stripped);
        dice_in(lowered.as_str())
    }
}

/// The sum of the first `upto` of `rolls`.
pub open spec fn sum_of(rolls: Seq<u32>, upto: int) -> int
    decreases upto,
{
    if upto <= 0 {
        0
    } else {
        sum_of(rolls, upto - 1) + rolls[upto - 1]
    }
}

/// The outcome of a roll: what each die showed, and the sum.
#[derive(Clone, PartialEq, Eq, Debug)]
pub struct Rolls {
    pub rolls: Vec<u32>,
    pub total: u32,
}

/// Rolls the dice. Every die shows one of its sides; which one is left to
/// chance. The total is the sum of what the dice show.
pub fn roll(dice: Dice) -> (outcome: Rolls)
    requires
        1 <= dice.count <= MAX_DICE,
        2 <= dice.sides <= MAX_SIDES,
    ensures
        outcome.rolls@.len() == dice.count,
        forall|i: int| 0 <= i < outcome.rolls@.len() ==> 1 <= #[trigger] outcome.rolls@[i] <= dice.sides,
        outcome.total == sum_of(outcome.rolls@, outcome.rolls@.len() as int),
        dice.count <= outcome.total <= dice.count * dice.sides,
{
    let mut rolls: Vec<u32> = Vec::new();
    let mut total: u32 = 0;
    let mut i: u32 = 0;
    while i < dice.count
        invariant
            i <= dice.count <= MAX_DICE,
            2 <= dice.sides <= MAX_SIDES,
            rolls@.len() == i,
            forall|k: int| 0 <= k < rolls@.len() ==> 1 <= #[trigger] rolls@[k] <= dice.sides,
            total == sum_of(rolls@, i as int),
            i <= total <= i * dice.sides,
        decreases dice.count - i,
    {
        let side = roll_die(dice.sides);
        let ghost before = rolls@;
        rolls.push(side);
        proof {
            lemma_sum_of_prefix(before, rolls@, i as int);
            assert(total + side <= (i + 1) * dice.sides) by (nonlinear_arith)
                requires
                    total <= i * dice.sides,
                    side <= dice.sides,
            ;
            assert((i + 1) * dice.sides <= 100 * 1000) by (nonlinear_arith)
                requires
                    i + 1 <= 100,
                    dice.sides <= 1000,
            ;
        }
        total = total + side;
        i += 1;
    }
    Rolls { rolls, total }
}

/// The sum of a prefix does not change when the sequence is made longer.
proof fn lemma_sum_of_prefix(shorter: Seq<u32>, longer: Seq<u32>, upto: int)
    requires
        0 <= upto <= shorter.len() <= longer.len(),
        forall|k: int| 0 <= k < shorter.len() ==> shorter[k] == longer[k],
    ensures
        sum_of(shorter, upto) == sum_of(longer, upto),
    decreases upto,
{
    if upto > 0 {
        lemma_sum_of_prefix(shorter, longer, upto - 1);
    }
}

/// What a flipped coin shows.
pub open spec fn coin_side(heads: bool) -> Seq<char> {
    if heads {
        "Heads!"@
    } else {
        "Tails!"@
    }
}

/// Names the side that a flipped coin shows.
pub fn coinflip(heads: bool) -> (side: &'static str)
    ensures
        side@ == coin_side(heads),
{
    if heads {
        "Heads!"
    } else {
        "Tails!"
    }
}

} // verus!
