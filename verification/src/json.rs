//! JSON documents as the controller reads them.
//!
//! Parsing is left to `serde_json`. This module declares its value type, gives
//! the content of a value a mathematical form ([`Json`]), and states for each
//! call that the controller makes what it returns in that form. Those
//! statements are taken from the source of `serde_json` and are not proved
//! here: everything that reads a document rests on them.

use vstd::prelude::*;

verus! {

/// `serde_json::Value`, carried as an opaque value. What it holds is
/// [`json_of`].
#[verifier::external_type_specification]
#[verifier::external_body]
pub struct ExValue(serde_json::Value);

/// `serde_json::Error`, carried as an opaque value. Nothing is read from it.
#[verifier::external_type_specification]
#[verifier::external_body]
pub struct ExError(serde_json::Error);

/// A JSON value as a mathematical tree, with one variant for each variant of
/// `serde_json::Value`.
pub enum Json {
    Null,
    Bool(bool),
    /// A number. `unsigned` is the number where `serde_json` holds it as an
    /// unsigned integer, as it does for one that is written in digits alone
    /// (no sign, fraction or exponent) and is at most `u64::MAX`. It is `None`
    /// for every other number.
    Number { unsigned: Option<u64> },
    Text(Seq<char>),
    Array(Seq<Json>),
    Object(Map<Seq<char>, Json>),
}

/// What a `serde_json::Value` holds.
pub uninterp spec fn json_of(value: serde_json::Value) -> Json;

/// What `serde_json::from_str` reads from `text`: the document, or `None`
/// where it refuses the text.
pub uninterp spec fn json_parsed(text: Seq<char>) -> Option<Json>;

impl Json {
    /// The member `key` of an object; `None` on a value that is no object and
    /// on an object without that key.
    pub open spec fn member(self, key: Seq<char>) -> Option<Json> {
        match self {
            Json::Object(members) => if members.contains_key(key) {
                Some(members[key])
            } else {
                None
            },
            _ => None,
        }
    }

    /// The truth value, where this is one.
    pub open spec fn as_bool(self) -> Option<bool> {
        match self {
            Json::Bool(b) => Some(b),
            _ => None,
        }
    }

    /// The text, where this is a string.
    pub open spec fn as_text(self) -> Option<Seq<char>> {
        match self {
            Json::Text(text) => Some(text),
            _ => None,
        }
    }

    /// The number, where this is one that is held as an unsigned integer.
    pub open spec fn as_unsigned(self) -> Option<u64> {
        match self {
            Json::Number { unsigned } => unsigned,
            _ => None,
        }
    }
}

/// Calls `serde_json::from_str` for a `serde_json::Value`. Assumed: the
/// outcome depends on the text alone, so that it is `json_parsed` of the text.
#[verifier::external_body]
pub(crate) fn parse(text: &str) -> (r: Result<serde_json::Value, serde_json::Error>)
    ensures
        r matches Ok(value) ==> json_parsed(text@) == Some(json_of(value)),
        r is Err ==> json_parsed(text@) is None,
{
    serde_json::from_str::<serde_json::Value>(text)
}

/// Calls `serde_json::Value::get` with a string key. Assumed: on an object
/// that has the key it returns the value stored under it, and `None` on every
/// other value.
#[verifier::external_body]
pub(crate) fn member<'a>(value: &'a serde_json::Value, key: &str) -> (r: Option<
    &'a serde_json::Value,
>)
    ensures
        r is Some <==> json_of(*value).member(key@) is Some,
        r matches Some(found) ==> json_of(*value).member(key@) == Some(json_of(*found)),
{
    value.get(key)
}

/// Calls `serde_json::Value::as_bool`. Assumed: it returns the truth value of
/// a boolean and `None` on every other value.
#[verifier::external_body]
pub(crate) fn as_bool(value: &serde_json::Value) -> (r: Option<bool>)
    ensures
        r == json_of(*value).as_bool(),
{
    value.as_bool()
}

/// Calls `serde_json::Value::as_str`. Assumed: it returns the text of a string
/// and `None` on every other value.
#[verifier::external_body]
pub(crate) fn as_text<'a>(value: &'a serde_json::Value) -> (r: Option<&'a str>)
    ensures
        r is Some <==> json_of(*value).as_text() is Some,
        r matches Some(text) ==> json_of(*value).as_text() == Some(text@),
{
    value.as_str()
}

/// Calls `serde_json::Value::as_u64`. Assumed: it returns a number that is
/// held as an unsigned integer, and `None` on every other value.
#[verifier::external_body]
pub(crate) fn as_unsigned(value: &serde_json::Value) -> (r: Option<u64>)
    ensures
        r == json_of(*value).as_unsigned(),
{
    value.as_u64()
}

} // verus!
