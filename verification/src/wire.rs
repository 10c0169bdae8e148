//! Reading JSON text.
//!
//! The text is read by `serde_json`; what it reads is handed on as a
//! [`Json`] value.

use vstd::prelude::*;
use crate::json::{Json, JsonValue};

verus! {

/// `serde_json::Value`, as a type whose inside is not looked into here.
#[verifier::external_type_specification]
#[verifier::external_body]
pub struct ExValue(serde_json::Value);

/// `serde_json::Error`, as a type whose inside is not looked into here.
#[verifier::external_type_specification]
#[verifier::external_body]
pub struct ExError(serde_json::Error);

/// What a `serde_json::Value` holds: the members of an object in the order
/// in which the value keeps them, a number by the notation in which the
/// value writes it.
pub uninterp spec fn value_content(value: serde_json::Value) -> JsonValue;

/// The JSON value that a text holds, as `serde_json` reads it; nothing where
/// it reads none from the text.
pub uninterp spec fn parsed_json(text: Seq<char>) -> Option<JsonValue>;

/// Calls `serde_json::from_str` for a `serde_json::Value`.
///
/// Taken on trust: what is read depends on the text alone. It is `Ok`
/// exactly for the texts that hold a value, and the value then holds what
/// the text holds.
#[verifier::external_body]
fn parse_value(text: &str) -> (read: Result<serde_json::Value, serde_json::Error>)
    ensures
        match read {
            Ok(value) => parsed_json(text@) == Some(value_content(value)),
            Err(_) => parsed_json(text@) is None,
        },
{
    serde_json::from_str::<serde_json::Value>(text)
}

/// Hands what a `serde_json::Value` holds over as a [`Json`] value, variant
/// by variant; a number by `serde_json::Number`'s own `to_string`.
///
/// Taken on trust: the result holds what the value holds.
#[verifier::external_body]
fn json_of(value: &serde_json::Value) -> (json: Json)
    ensures
        json@ == value_content(*value),
{
    match value {
        serde_json::Value::Null => Json::Null,
        serde_json::Value::Bool(b) => Json::Bool(*b),
        serde_json::Value::Number(n) => Json::Number(n.to_string()),
        serde_json::Value::String(s) => Json::Str(s.clone()),
        serde_json::Value::Array(a) => Json::Array(a.iter().map(json_of).collect()),
        serde_json::Value::Object(m) => Json::Object(
            m.iter().map(|(k, v)| (k.clone(), json_of(v))).collect(),
        ),
    }
}

/// The content of an optional value.
pub open spec fn optional_view(value: Option<Json>) -> Option<JsonValue> {
    match value {
        Some(v) => Some(v@),
        None => None,
    }
}

/// Reads a JSON value from a text. A text that holds no JSON value, the
/// empty text among them, gives nothing.
pub fn parse_json(text: &str) -> (parsed: Option<Json>)
    ensures
        optional_view(parsed) == parsed_json(text@),
{
    match parse_value(text) {
        Ok(value) => Some(json_of(&value)),
        Err(_) => None,
    }
}

} // verus!
