//! Character-level operations on strings, stated over the strings' views.

use vstd::prelude::*;
use vstd::string::{StrSliceExecFns, StringExecFns};

verus! {

/// `pat` occurs in `s` starting at position `at`.
pub open spec fn occurs_at(s: Seq<char>, pat: Seq<char>, at: int) -> bool {
    &&& 0 <= at
    &&& at + pat.len() <= s.len()
    &&& s.subrange(at, at + pat.len()) == pat
}

/// `pat` occurs somewhere in `s`.
pub open spec fn has_substring(s: Seq<char>, pat: Seq<char>) -> bool {
    exists|at: int| occurs_at(s, pat, at)
}

/// `s` begins with `pat`.
pub open spec fn has_prefix(s: Seq<char>, pat: Seq<char>) -> bool {
    occurs_at(s, pat, 0)
}

/// `s` ends with `pat`.
pub open spec fn has_suffix(s: Seq<char>, pat: Seq<char>) -> bool {
    occurs_at(s, pat, s.len() - pat.len())
}

/// Collects the characters of `s` into a vector, in order.
pub fn chars_of(s: &str) -> (v: Vec<char>)
    ensures
        v@ == s@,
{
    let mut v: Vec<char> = Vec::new();
    for c in it: s.chars()
        invariant
            v@ == it.seq().take(it.index() as int),
    {
        v.push(c);
    }
    v
}

/// Tells whether `pat` stands in `s` at position `at`.
pub fn matches_at(s: &Vec<char>, pat: &Vec<char>, at: usize) -> (r: bool)
    ensures
        r == occurs_at(s@, pat@, at as int),
{
    if pat.len() > s.len() || at > s.len() - pat.len() {
        return false;
    }
    let mut i: usize = 0;
    while i < pat.len()
        invariant
            at + pat.len() <= s.len(),
            i <= pat.len(),
            forall|k: int| 0 <= k < i ==> s@[at + k] == pat@[k],
        decreases pat.len() - i,
    {
        if s[at + i] != pat[i] {
            assert(s@.subrange(at as int, at + pat.len())[i as int] == s@[at + i]);
            return false;
        }
        i += 1;
    }
    assert(s@.subrange(at as int, at + pat.len()) =~= pat@);
    true
}

/// Equality of two strings, character by character.
pub fn str_eq(a: &str, b: &str) -> (r: bool)
    ensures
        r == (a@ == b@),
{
    let x = chars_of(a);
    let y = chars_of(b);
    if x.len() != y.len() {
        return false;
    }
    let r = matches_at(&x, &y, 0);
    assert(x@.subrange(0, x@.len() as int) =~= x@);
    r
}

/// Tells whether `s` begins with `pat`.
pub fn starts_with(s: &str, pat: &str) -> (r: bool)
    ensures
        r == has_prefix(s@, pat@),
{
    let x = chars_of(s);
    let y = chars_of(pat);
    matches_at(&x, &y, 0)
}

/// Tells whether `s` ends with `pat`.
pub fn ends_with(s: &str, pat: &str) -> (r: bool)
    ensures
        r == has_suffix(s@, pat@),
{
    let x = chars_of(s);
    let y = chars_of(pat);
    if y.len() > x.len() {
        return false;
    }
    matches_at(&x, &y, x.len() - y.len())
}

/// Tells whether `pat` occurs anywhere in `s`.
pub fn contains(s: &str, pat: &str) -> (r: bool)
    ensures
        r == has_substring(s@, pat@),
{
    let x = chars_of(s);
    let y = chars_of(pat);
    if y.len() > x.len() {
        return false;
    }
    let last: usize = x.len() - y.len();
    let mut at: usize = 0;
    loop
        invariant
            x@ == s@,
            y@ == pat@,
            last == x.len() - y.len(),
            at <= last,
            forall|k: int| 0 <= k < at ==> !occurs_at(x@, y@, k),
        decreases last - at,
    {
        if matches_at(&x, &y, at) {
            return true;
        }
        if at == last {
            return false;
        }
        at += 1;
    }
}

/// `c` is one of the ten decimal digits.
pub open spec fn is_digit(c: char) -> bool {
    '0' <= c <= '9'
}

/// Every character of `s` is a decimal digit.
pub open spec fn all_digits(s: Seq<char>) -> bool {
    forall|i: int| 0 <= i < s.len() ==> is_digit(#[trigger] s[i])
}

/// The number that the digits `s` write in base ten; 0 for no digits.
pub open spec fn decimal_value(s: Seq<char>) -> int
    decreases s.len(),
{
    if s.len() == 0 {
        0
    } else {
        decimal_value(s.drop_last()) * 10 + (s.last() as int - '0' as int)
    }
}

/// The number that `s` writes, where it writes one no greater than `max`:
/// an optional `+`, then one decimal digit or more.
pub open spec fn unsigned_of(s: Seq<char>, max: int) -> Option<int> {
    let digits = if s.len() > 0 && s[0] == '+' {
        s.skip(1)
    } else {
        s
    };
    if digits.len() > 0 && all_digits(digits) && decimal_value(digits) <= max {
        Some(decimal_value(digits))
    } else {
        None
    }
}

/// The digits before position `n` write a number that is not negative and
/// no greater than what the digits before a later position write.
proof fn lemma_decimal_value_grows(s: Seq<char>, n: int, m: int)
    requires
        all_digits(s),
        0 <= n <= m <= s.len(),
    ensures
        0 <= decimal_value(s.take(n)) <= decimal_value(s.take(m)),
    decreases m - n,
{
    lemma_decimal_value_nonnegative(s.take(n));
    if n < m {
        lemma_decimal_value_grows(s, n, m - 1);
        assert(s.take(m).drop_last() =~= s.take(m - 1));
        assert(is_digit(s[m - 1]));
        assert(s.take(m).last() == s[m - 1]);
        lemma_decimal_value_nonnegative(s.take(m - 1));
    }
}

/// Digits write a number that is not negative.
proof fn lemma_decimal_value_nonnegative(s: Seq<char>)
    requires
        all_digits(s),
    ensures
        0 <= decimal_value(s),
    decreases s.len(),
{
    if s.len() > 0 {
        assert(is_digit(s[s.len() - 1]));
        lemma_decimal_value_nonnegative(s.drop_last());
    }
}

/// Reads an unsigned number in base ten as the standard library's
/// `str::parse` does: an optional `+`, then digits only, and no more than
/// fit into 64 bits.
pub fn parse_u64(s: &str) -> (r: Option<u64>)
    ensures
        match r {
            Some(n) => unsigned_of(s@, u64::MAX as int) == Some(n as int),
            None => unsigned_of(s@, u64::MAX as int) is None,
        },
{
    let chars = chars_of(s);
    let start: usize = if chars.len() > 0 && chars[0] == '+' {
        1
    } else {
        0
    };
    let ghost digits = if s@.len() > 0 && s@[0] == '+' {
        s@.skip(1)
    } else {
        s@
    };
    if chars.len() == start {
        return None;
    }
    assert(s@.skip(0) =~= s@);
    let mut value: u64 = 0;
    let mut i: usize = start;
    while i < chars.len()
        invariant
            chars@ == s@,
            digits == s@.skip(start as int),
            digits == if s@.len() > 0 && s@[0] == '+' {
                s@.skip(1)
            } else {
                s@
            },
            start <= i <= chars.len(),
            all_digits(digits.take(i - start)),
            value == decimal_value(digits.take(i - start)),
        decreases chars.len() - i,
    {
        let c = chars[i];
        assert(digits[i - start] == c);
        if c < '0' || c > '9' {
            assert(!is_digit(digits[i - start]));
            return None;
        }
        let d: u64 = (c as u32 - '0' as u32) as u64;
        proof {
            let upto = digits.take(i - start + 1);
            assert(upto.drop_last() =~= digits.take(i - start));
            assert(upto.last() == c);
            assert(decimal_value(upto) == value * 10 + d);
            assert forall|k: int| 0 <= k < upto.len() implies is_digit(#[trigger] upto[k]) by {
                if k < i - start {
                    assert(upto[k] == digits.take(i - start)[k]);
                }
            }
        }
        if value > (u64::MAX - d) / 10 {
            proof {
                if all_digits(digits) {
                    lemma_decimal_value_grows(digits, i - start + 1, digits.len() as int);
                    assert(digits.take(digits.len() as int) =~= digits);
                }
            }
            return None;
        }
        value = value * 10 + d;
        i += 1;
    }
    assert(digits.take(digits.len() as int) =~= digits);
    Some(value)
}

/// `s` without the characters of `set` at its two ends.
pub open spec fn trimmed_of(s: Seq<char>, set: Seq<char>) -> Seq<char> {
    s.subrange(leading(s, set) as int, s.len() - trailing(s.skip(leading(s, set) as int), set))
}

/// How many characters at the front of `s` are in `set`.
pub open spec fn leading(s: Seq<char>, set: Seq<char>) -> nat
    decreases s.len(),
{
    if s.len() > 0 && set.contains(s[0]) {
        1 + leading(s.skip(1), set)
    } else {
        0
    }
}

/// How many characters at the back of `s` are in `set`.
pub open spec fn trailing(s: Seq<char>, set: Seq<char>) -> nat
    decreases s.len(),
{
    if s.len() > 0 && set.contains(s.last()) {
        1 + trailing(s.drop_last(), set)
    } else {
        0
    }
}

/// Tells whether `c` is among `set`.
pub fn is_among(c: char, set: &Vec<char>) -> (r: bool)
    ensures
        r == set@.contains(c),
{
    let mut i: usize = 0;
    while i < set.len()
        invariant
            i <= set.len(),
            forall|k: int| 0 <= k < i ==> set@[k] != c,
        decreases set.len() - i,
    {
        if set[i] == c {
            return true;
        }
        i += 1;
    }
    false
}

/// No more characters lead or trail than there are.
pub proof fn lemma_trim_bounds(s: Seq<char>, set: Seq<char>)
    ensures
        leading(s, set) <= s.len(),
        trailing(s, set) <= s.len(),
    decreases s.len(),
{
    if s.len() > 0 {
        lemma_trim_bounds(s.skip(1), set);
        lemma_trim_bounds(s.drop_last(), set);
    }
}

/// Counting the leading characters from position `from` on: the characters
/// before it were all in the set.
proof fn lemma_leading_step(s: Seq<char>, set: Seq<char>, from: int)
    requires
        0 <= from < s.len(),
        set.contains(s[from]),
    ensures
        leading(s.skip(from), set) == 1 + leading(s.skip(from + 1), set),
{
    assert(s.skip(from).skip(1) =~= s.skip(from + 1));
}

/// Counting the trailing characters up to position `to`.
proof fn lemma_trailing_step(s: Seq<char>, set: Seq<char>, from: int, to: int)
    requires
        0 <= from < to <= s.len(),
        set.contains(s[to - 1]),
    ensures
        trailing(s.subrange(from, to), set) == 1 + trailing(s.subrange(from, to - 1), set),
{
    assert(s.subrange(from, to).drop_last() =~= s.subrange(from, to - 1));
}

/// Takes the characters of `set` off both ends of `s`, as the standard
/// library's `str::trim_matches` does with a set of characters.
pub fn trim_chars<'a>(s: &'a str, set: &str) -> (r: &'a str)
    ensures
        r@ == trimmed_of(s@, set@),
{
    let chars = chars_of(s);
    let members = chars_of(set);
    let n = chars.len();
    let mut from: usize = 0;
    assert(s@.skip(0) =~= s@);
    while from < n && is_among(chars[from], &members)
        invariant
            chars@ == s@,
            members@ == set@,
            n == chars.len(),
            from <= n,
            leading(s@, set@) == from + leading(s@.skip(from as int), set@),
        decreases n - from,
    {
        proof {
            lemma_leading_step(s@, set@, from as int);
        }
        from += 1;
    }
    assert(leading(s@, set@) == from) by {
        if from < n {
            assert(s@.skip(from as int)[0] == s@[from as int]);
        }
    }
    let mut to: usize = n;
    proof {
        assert(s@.skip(from as int) =~= s@.subrange(from as int, n as int));
    }
    while to > from && is_among(chars[to - 1], &members)
        invariant
            chars@ == s@,
            members@ == set@,
            n == chars.len(),
            from <= to <= n,
            trailing(s@.subrange(from as int, n as int), set@) == (n - to) + trailing(
                s@.subrange(from as int, to as int),
                set@,
            ),
        decreases to - from,
    {
        proof {
            lemma_trailing_step(s@, set@, from as int, to as int);
        }
        to -= 1;
    }
    assert(trailing(s@.subrange(from as int, to as int), set@) == 0) by {
        if to > from {
            assert(s@.subrange(from as int, to as int).last() == s@[to - 1]);
        }
    }
    s.substring_char(from, to)
}

/// What the standard library's `str::to_lowercase` makes of `s`.
pub uninterp spec fn lowercase_of(s: Seq<char>) -> Seq<char>;

/// The words that the standard library's `str::split_whitespace` finds in
/// `s`, in order.
pub uninterp spec fn words_of(s: Seq<char>) -> Seq<Seq<char>>;

/// What the standard library's `str::trim` leaves of `s`.
pub uninterp spec fn stripped_of(s: Seq<char>) -> Seq<char>;

/// The characters of each string of `strings`.
pub open spec fn views_of(strings: Seq<String>) -> Seq<Seq<char>> {
    Seq::new(strings.len(), |i: int| strings[i]@)
}

/// `str::to_lowercase`: the lowercase of a string depends on the string
/// alone.
#[verifier::external_body]
pub(crate) fn to_lowercase(s: &str) -> (r: String)
    ensures
        r@ == lowercase_of(s@),
{
    s.to_lowercase()
}

/// `str::split_whitespace`, its words collected: which words a string holds
/// depends on the string alone.
#[verifier::external_body]
pub(crate) fn split_whitespace(s: &str) -> (r: Vec<String>)
    ensures
        views_of(r@) == words_of(s@),
{
    let mut words = Vec::new();
    for word in s.split_whitespace() {
        words.push(word.to_string());
    }
    words
}

/// `str::trim`: what is left of a string without the whitespace at its ends
/// depends on the string alone.
#[verifier::external_body]
pub(crate) fn trim(s: &str) -> (r: &str)
    ensures
        r@ == stripped_of(s@),
{
    s.trim()
}

/// The word of `words` at position `at`, or the empty word where there is
/// none.
pub open spec fn word_at(words: Seq<Seq<char>>, at: int) -> Seq<char> {
    if 0 <= at < words.len() {
        words[at]
    } else {
        Seq::empty()
    }
}

/// The word of `words` at position `at`, or the empty word where there is
/// none.
pub fn word(words: &Vec<String>, at: usize) -> (w: &str)
    ensures
        w@ == word_at(views_of(words@), at as int),
{
    if at < words.len() {
        words[at].as_str()
    } else {
        proof {
            reveal_strlit("");
            assert(""@ =~= Seq::<char>::empty());
        }
        ""
    }
}

/// The strings of `words` from position `from` on, with `sep` between each
/// two of them.
pub open spec fn joined(words: Seq<Seq<char>>, from: int, sep: Seq<char>) -> Seq<char>
    decreases words.len() - from,
{
    if from < 0 || from >= words.len() {
        Seq::empty()
    } else if from == words.len() - 1 {
        words[from]
    } else {
        words[from] + sep + joined(words, from + 1, sep)
    }
}

/// Joining the words up to a position and appending the next word after a
/// separator is joining the words up to the next position.
proof fn lemma_joined_upto(words: Seq<Seq<char>>, from: int, upto: int, sep: Seq<char>)
    requires
        0 <= from < upto < words.len(),
    ensures
        joined(words.take(upto + 1), from, sep) == joined(words.take(upto), from, sep) + sep
            + words[upto],
    decreases upto - from,
{
    let longer = words.take(upto + 1);
    let shorter = words.take(upto);
    if from == upto - 1 {
        assert(joined(longer, upto, sep) == longer[upto]);
        assert(joined(longer, from, sep) == longer[from] + sep + joined(longer, from + 1, sep));
        assert(joined(shorter, from, sep) == shorter[from]);
        assert(joined(longer, from, sep) =~= joined(shorter, from, sep) + sep + words[upto]);
    } else {
        lemma_joined_upto(words, from + 1, upto, sep);
        assert(joined(longer, from, sep) == longer[from] + sep + joined(longer, from + 1, sep));
        assert(joined(shorter, from, sep) == shorter[from] + sep + joined(shorter, from + 1, sep));
        assert(joined(longer, from, sep) =~= joined(shorter, from, sep) + sep + words[upto]);
    }
}

/// Joins the strings of `words` from position `from` on, with `sep` between
/// each two of them, as the standard library's `join` does.
pub fn join(words: &Vec<String>, from: usize, sep: &str) -> (r: String)
    ensures
        r@ == joined(views_of(words@), from as int, sep@),
{
    let mut out = String::new();
    if from >= words.len() {
        return out;
    }
    out.append(words[from].as_str());
    let mut i: usize = from + 1;
    assert(out@ =~= joined(views_of(words@).take(i as int), from as int, sep@));
    while i < words.len()
        invariant
            from < i <= words.len(),
            out@ == joined(views_of(words@).take(i as int), from as int, sep@),
        decreases words.len() - i,
    {
        proof {
            lemma_joined_upto(views_of(words@), from as int, i as int, sep@);
        }
        out.append(sep);
        out.append(words[i].as_str());
        i += 1;
    }
    assert(views_of(words@).take(words@.len() as int) =~= views_of(words@));
    out
}

} // verus!
