//! JSON values: the model in which contracts speak of them, and the calls into `serde_json`
//! that parse a text and read a value.
//!
//! The parser and the accessors are not verified here. Each call stands in a function of its
//! own whose contract says, over [`json_parse`] and [`json_contents`], what the call returns.

use vstd::prelude::*;
use crate::text::string_view;

verus! {

/// A JSON value as mathematics has it.
pub enum Json {
    Null,
    Bool(bool),
    /// A number that is held as an integer.
    Integer(int),
    /// A number that is not held as an integer; contracts never need its value.
    Fraction,
    Text(Seq<char>),
    Array(Seq<Json>),
    Object(Map<Seq<char>, Json>),
}

impl Json {
    /// The member of an object under `key`; `None` where there is no such member or the value
    /// is no object.
    pub open spec fn member(self, key: Seq<char>) -> Option<Json> {
        match self {
            Json::Object(members) => if members.contains_key(key) {
                Some(members[key])
            } else {
                None
            },
            _ => None,
        }
    }

    /// The characters of a string; `None` for any other value.
    pub open spec fn text(self) -> Option<Seq<char>> {
        match self {
            Json::Text(t) => Some(t),
            _ => None,
        }
    }

    /// An integer that fits `i64`; `None` for any other value.
    pub open spec fn as_i64(self) -> Option<i64> {
        match self {
            Json::Integer(n) => if i64::MIN <= n <= i64::MAX {
                Some(n as i64)
            } else {
                None
            },
            _ => None,
        }
    }

    /// An integer that fits `u64`; `None` for any other value.
    pub open spec fn as_u64(self) -> Option<u64> {
        match self {
            Json::Integer(n) => if 0 <= n <= u64::MAX {
                Some(n as u64)
            } else {
                None
            },
            _ => None,
        }
    }
}

/// `serde_json::Value`, a parsed JSON value. Verified code carries it and reads it through the
/// functions below.
#[verifier::external_type_specification]
#[verifier::external_body]
pub struct ExValue(serde_json::Value);

/// What a `serde_json::Value` holds.
pub uninterp spec fn json_contents(value: serde_json::Value) -> Json;

/// What `serde_json::from_str` makes of a text: the value that the text denotes, or `None`
/// where it refuses the text.
pub uninterp spec fn json_parse(text: Seq<char>) -> Option<Json>;

/// Calls `serde_json::from_str` for a `Value`. The result depends on the text alone: it holds
/// what [`json_parse`] names, and is `None` exactly where the parser returns an error.
#[verifier::external_body]
pub(crate) fn parse_json(text: &str) -> (value: Option<serde_json::Value>)
    ensures
        match value {
            Some(v) => json_parse(text@) == Some(json_contents(v)),
            None => json_parse(text@) is None,
        },
{
    serde_json::from_str::<serde_json::Value>(text).ok()
}

/// Calls `Value::get` with a string index: the member under `key` where `value` is an object
/// that has one, else `None`.
#[verifier::external_body]
pub(crate) fn member<'a>(value: &'a serde_json::Value, key: &str) -> (found: Option<
    &'a serde_json::Value,
>)
    ensures
        match found {
            Some(m) => json_contents(*value).member(key@) == Some(json_contents(*m)),
            None => json_contents(*value).member(key@) is None,
        },
{
    value.get(key)
}

/// Calls `Value::as_str`: the characters where `value` is a string, else `None`.
#[verifier::external_body]
pub(crate) fn text_of<'a>(value: &'a serde_json::Value) -> (text: Option<&'a str>)
    ensures
        match text {
            Some(t) => json_contents(*value).text() == Some(t@),
            None => json_contents(*value).text() is None,
        },
{
    value.as_str()
}

/// Calls `Value::as_i64`: the number where `value` is an integer that fits `i64`, else `None`.
#[verifier::external_body]
pub(crate) fn i64_of(value: &serde_json::Value) -> (number: Option<i64>)
    ensures
        number == json_contents(*value).as_i64(),
{
    value.as_i64()
}

/// Calls `Value::as_u64`: the number where `value` is an integer that fits `u64`, else `None`.
#[verifier::external_body]
pub(crate) fn u64_of(value: &serde_json::Value) -> (number: Option<u64>)
    ensures
        number == json_contents(*value).as_u64(),
{
    value.as_u64()
}

/// The count that stands under `key`: the member where it is an integer that fits `u64`, and
/// zero where there is no such member.
pub open spec fn count_member(value: Json, key: Seq<char>) -> u64 {
    match value.member(key) {
        Some(count) => match count.as_u64() {
            Some(n) => n,
            None => 0,
        },
        None => 0,
    }
}

/// Reads the count that stands under `key`.
pub fn read_count(value: &serde_json::Value, key: &str) -> (count: u64)
    ensures
        count == count_member(json_contents(*value), key@),
{
    match member(value, key) {
        Some(found) => match u64_of(found) {
            Some(n) => n,
            None => 0,
        },
        None => 0,
    }
}

/// The characters of a value that may be missing, where it is a string.
pub open spec fn text_member(value: Option<Json>) -> Option<Seq<char>> {
    match value {
        Some(v) => v.text(),
        None => None,
    }
}

/// What a value that may be missing holds.
pub open spec fn contents_of(value: Option<&serde_json::Value>) -> Option<Json> {
    match value {
        Some(v) => Some(json_contents(*v)),
        None => None,
    }
}

/// Reads the characters of a value that may be missing, where it is a string.
pub fn read_text(value: Option<&serde_json::Value>) -> (text: Option<String>)
    ensures
        string_view(text) == text_member(contents_of(value)),
{
    match value {
        Some(v) => match text_of(v) {
            Some(t) => {
                let mut text = String::new();
                text.append(t);
                Some(text)
            },
            None => None,
        },
        None => None,
    }
}

/// The member of `value` under `outer` and then under `inner`.
pub open spec fn nested_member(value: Json, outer: Seq<char>, inner: Seq<char>) -> Option<Json> {
    match value.member(outer) {
        Some(m) => m.member(inner),
        None => None,
    }
}

/// Looks up the member of `value` under `outer` and then under `inner`.
pub fn find_nested<'a>(value: &'a serde_json::Value, outer: &str, inner: &str) -> (found: Option<
    &'a serde_json::Value,
>)
    ensures
        contents_of(found) == nested_member(json_contents(*value), outer@, inner@),
{
    match member(value, outer) {
        Some(m) => member(m, inner),
        None => None,
    }
}

} // verus!
