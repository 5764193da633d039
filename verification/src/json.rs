//! JSON values: `serde_json` holds them, the worker reads a few parts.
//!
//! A `serde_json::Value` is opaque to the proofs. What it holds has a
//! mathematical value, [`JsonValue`], and each call into `serde_json` made
//! here is stated over that value.

use vstd::prelude::*;

verus! {

/// `serde_json::Value`, carried about and handed back to `serde_json`; the
/// proofs see nothing inside it.
#[verifier::external_type_specification]
#[verifier::external_body]
pub struct ExValue(serde_json::Value);

/// The mathematical value of a JSON value. A number is its decimal text; an
/// object is a map from member names to values.
pub enum JsonValue {
    Null,
    Bool(bool),
    Number(Seq<char>),
    Text(Seq<char>),
    Array(Seq<JsonValue>),
    Object(Map<Seq<char>, JsonValue>),
}

impl JsonValue {
    /// The member called `name`, where this is an object that has one.
    pub open spec fn member(self, name: Seq<char>) -> Option<JsonValue> {
        match self {
            JsonValue::Object(members) if members.contains_key(name) => Some(members[name]),
            _ => None,
        }
    }

    /// The text, where this is a string.
    pub open spec fn text(self) -> Option<Seq<char>> {
        match self {
            JsonValue::Text(text) => Some(text),
            _ => None,
        }
    }
}

/// What a `serde_json::Value` holds.
pub uninterp spec fn json_value(value: serde_json::Value) -> JsonValue;

/// What `serde_json` reads out of a text: the value that the text denotes, or
/// the parser's complaint where the text is not one JSON value.
pub uninterp spec fn json_of_text(text: Seq<char>) -> Result<JsonValue, Seq<char>>;

/// The view of what reading a text as JSON gave.
pub open spec fn parsed_view(parsed: Result<serde_json::Value, String>) -> Result<
    JsonValue,
    Seq<char>,
> {
    match parsed {
        Ok(value) => Ok(json_value(value)),
        Err(complaint) => Err(complaint@),
    }
}

/// The view of a value that may be absent.
pub open spec fn found_view(found: Option<&serde_json::Value>) -> Option<JsonValue> {
    match found {
        Some(value) => Some(json_value(*value)),
        None => None,
    }
}

/// The view of a text that may be absent.
pub open spec fn text_view(text: Option<&str>) -> Option<Seq<char>> {
    match text {
        Some(text) => Some(text@),
        None => None,
    }
}

/// Calls `serde_json::from_str` for a `serde_json::Value`, and `to_string` on
/// the error. The parser reads nothing but the text, so the same text always
/// gives the same value or the same complaint; the contract says that and no
/// more.
#[verifier::external_body]
pub(crate) fn parse(text: &str) -> (parsed: Result<serde_json::Value, String>)
    ensures
        parsed_view(parsed) == json_of_text(text@),
{
    serde_json::from_str::<serde_json::Value>(text).map_err(|complaint| complaint.to_string())
}

/// Calls `serde_json::Value::get` with a string index: the member of that
/// name where the value is an object that has one, nothing otherwise.
#[verifier::external_body]
pub(crate) fn member<'a>(value: &'a serde_json::Value, name: &str) -> (found: Option<
    &'a serde_json::Value,
>)
    ensures
        found_view(found) == json_value(*value).member(name@),
{
    value.get(name)
}

/// Calls `serde_json::Value::as_str`: the text where the value is a string,
/// nothing otherwise.
#[verifier::external_body]
pub(crate) fn text<'a>(value: &'a serde_json::Value) -> (text: Option<&'a str>)
    ensures
        text_view(text) == json_value(*value).text(),
{
    value.as_str()
}

/// Calls `serde_json::Value::is_object`.
#[verifier::external_body]
pub(crate) fn is_object(value: &serde_json::Value) -> (object: bool)
    ensures
        object == (json_value(*value) is Object),
{
    value.is_object()
}

/// Calls `clone` on a `serde_json::Value`: the copy holds what the value
/// holds.
#[verifier::external_body]
pub(crate) fn duplicate(value: &serde_json::Value) -> (copy: serde_json::Value)
    ensures
        json_value(copy) == json_value(*value),
{
    value.clone()
}

} // verus!
