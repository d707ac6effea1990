//! Reading JSON values.
//!
//! The values themselves are `serde_json`'s. What one of them holds is named
//! by [`tree`], and everything that this library reads out of a value is
//! stated over that tree.

use vstd::prelude::*;

verus! {

/// `serde_json::Value`, made known so that it can stand in signatures and
/// fields. Nothing inside a value is seen here; what it holds is read
/// through the functions below.
#[verifier::external_type_specification]
#[verifier::external_body]
pub struct ExValue(serde_json::Value);

/// What a JSON value holds.
pub enum Json {
    Null,
    Bool(bool),
    /// A number that is an integer and not negative.
    Unsigned(u64),
    /// Any other number.
    Number,
    Text(Seq<char>),
    Array(Seq<Json>),
    Object(Map<Seq<char>, Json>),
}

/// What the JSON value `v` holds.
pub uninterp spec fn tree(v: serde_json::Value) -> Json;

/// What the JSON text `text` holds; `None` where the text is no JSON.
pub uninterp spec fn parsed(text: Seq<char>) -> Option<Json>;

impl Json {
    /// The member `key` of an object; `None` for anything that is no object
    /// or has no such member.
    pub open spec fn field(self, key: Seq<char>) -> Option<Json> {
        match self {
            Json::Object(members) => if members.contains_key(key) {
                Some(members[key])
            } else {
                None
            },
            _ => None,
        }
    }

    /// The characters of a string; `None` for anything else.
    pub open spec fn text(self) -> Option<Seq<char>> {
        match self {
            Json::Text(s) => Some(s),
            _ => None,
        }
    }

    /// The value of a number that is an integer and not negative; `None`
    /// for anything else.
    pub open spec fn unsigned(self) -> Option<u64> {
        match self {
            Json::Unsigned(n) => Some(n),
            _ => None,
        }
    }

    /// The value of a boolean; `None` for anything else.
    pub open spec fn flag(self) -> Option<bool> {
        match self {
            Json::Bool(b) => Some(b),
            _ => None,
        }
    }

    /// The elements of an array; `None` for anything else.
    pub open spec fn items(self) -> Option<Seq<Json>> {
        match self {
            Json::Array(items) => Some(items),
            _ => None,
        }
    }

    /// The string that is member `key` of an object.
    pub open spec fn text_field(self, key: Seq<char>) -> Option<Seq<char>> {
        match self.field(key) {
            Some(member) => member.text(),
            None => None,
        }
    }

    /// The string that is member `key` of an object, or the empty string
    /// where there is none.
    pub open spec fn text_or_empty(self, key: Seq<char>) -> Seq<char> {
        match self.text_field(key) {
            Some(s) => s,
            None => Seq::empty(),
        }
    }

    /// The integer that is member `key` of an object.
    pub open spec fn unsigned_field(self, key: Seq<char>) -> Option<u64> {
        match self.field(key) {
            Some(member) => member.unsigned(),
            None => None,
        }
    }

    /// Whether the value is null.
    pub open spec fn is_null(self) -> bool {
        self is Null
    }
}

/// `serde_json::from_str` at the type `Value`: the value that the text
/// holds, or nothing where the text is no JSON. What a text holds depends on
/// the text alone.
#[verifier::external_body]
pub(crate) fn parse(text: &str) -> (r: Option<serde_json::Value>)
    ensures
        match r {
            Some(v) => parsed(text@) == Some(tree(v)),
            None => parsed(text@) is None,
        },
{
    match serde_json::from_str::<serde_json::Value>(text) {
        Ok(v) => Some(v),
        Err(_) => None,
    }
}

/// `Value::get` with a string: the member of that name where the value is an
/// object that has one, nothing otherwise.
#[verifier::external_body]
pub(crate) fn member<'a>(v: &'a serde_json::Value, key: &str) -> (r: Option<&'a serde_json::Value>)
    ensures
        match r {
            Some(x) => tree(*v).field(key@) == Some(tree(*x)),
            None => tree(*v).field(key@) is None,
        },
{
    v.get(key)
}

/// `Value::as_str`: the string where the value is one, nothing otherwise.
#[verifier::external_body]
pub(crate) fn as_text<'a>(v: &'a serde_json::Value) -> (r: Option<&'a str>)
    ensures
        match r {
            Some(s) => tree(*v).text() == Some(s@),
            None => tree(*v).text() is None,
        },
{
    v.as_str()
}

/// `Value::as_u64`: the number where the value is an integer that is not
/// negative, nothing otherwise.
#[verifier::external_body]
pub(crate) fn as_unsigned(v: &serde_json::Value) -> (r: Option<u64>)
    ensures
        r == tree(*v).unsigned(),
{
    v.as_u64()
}

/// `Value::as_bool`: the boolean where the value is one, nothing otherwise.
#[verifier::external_body]
pub(crate) fn as_flag(v: &serde_json::Value) -> (r: Option<bool>)
    ensures
        r == tree(*v).flag(),
{
    v.as_bool()
}

/// `Value::as_array`: the elements where the value is an array, nothing
/// otherwise.
#[verifier::external_body]
pub(crate) fn as_items<'a>(v: &'a serde_json::Value) -> (r: Option<&'a Vec<serde_json::Value>>)
    ensures
        match r {
            Some(a) => tree(*v).items() matches Some(items) && a@.len() == items.len() && forall|
                i: int,
            |
                0 <= i < a@.len() ==> tree(#[trigger] a@[i]) == items[i],
            None => tree(*v).items() is None,
        },
{
    v.as_array()
}

/// `Value::is_null`.
#[verifier::external_body]
pub(crate) fn is_null(v: &serde_json::Value) -> (r: bool)
    ensures
        r == tree(*v).is_null(),
{
    v.is_null()
}

/// `Value::clone`: a value that holds the same.
#[verifier::external_body]
pub(crate) fn duplicate(v: &serde_json::Value) -> (r: serde_json::Value)
    ensures
        tree(r) == tree(*v),
{
    v.clone()
}

/// The string that is member `key` of `v`.
pub fn text_field(v: &serde_json::Value, key: &str) -> (r: Option<String>)
    ensures
        match r {
            Some(s) => tree(*v).text_field(key@) == Some(s@),
            None => tree(*v).text_field(key@) is None,
        },
{
    match member(v, key) {
        Some(x) => match as_text(x) {
            Some(s) => Some(s.to_owned()),
            None => None,
        },
        None => None,
    }
}

/// The string that is member `key` of `v`, or the empty string where there
/// is none.
pub fn text_or_empty(v: &serde_json::Value, key: &str) -> (r: String)
    ensures
        r@ == tree(*v).text_or_empty(key@),
{
    match text_field(v, key) {
        Some(s) => s,
        None => String::new(),
    }
}

/// The integer that is member `key` of `v`.
pub fn unsigned_field(v: &serde_json::Value, key: &str) -> (r: Option<u64>)
    ensures
        r == tree(*v).unsigned_field(key@),
{
    match member(v, key) {
        Some(x) => as_unsigned(x),
        None => None,
    }
}

} // verus!
