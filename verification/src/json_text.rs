//! JSON text, read and written by `serde_json`. What it reads from a text, and the text
//! it writes for a value, are named here; the rest of the library works on the JSON
//! model of [`crate::json`].
use vstd::prelude::*;
use crate::json::{Json, JsonEntry, JsonNumber, JsonView};
use serde_json::Value;

verus! {

/// `serde_json`'s document value, carried through the conversions below.
#[verifier::external_type_specification]
#[verifier::external_body]
pub struct ExValue(Value);

/// What `serde_json` reads from a text, as the library's JSON; none where the text is
/// not JSON. Its maps keep their keys sorted, so the result depends on the text alone.
pub uninterp spec fn json_of_text(text: Seq<char>) -> Option<JsonView>;

/// The text `serde_json` writes for a value, without spaces.
pub uninterp spec fn text_of_json(value: JsonView) -> Seq<char>;

/// `serde_json::from_str::<serde_json::Value>`: the JSON a text holds, converted one
/// for one into the library's model, or `serde_json`'s complaint where the text is not
/// JSON. The contract claims that the result is what [`json_of_text`] names; the
/// complaint's wording is left unsaid.
#[verifier::external_body]
pub fn parse_json(text: &str) -> (r: Result<Json, String>)
    ensures
        match r {
            Ok(j) => json_of_text(text@) == Some(j@),
            Err(_) => json_of_text(text@) is None,
        },
{
    serde_json::from_str::<Value>(text).map(json_from_value).map_err(|error| error.to_string())
}

/// `serde_json::to_string` on the `serde_json` value of `value`: its compact JSON text.
/// Writing a `serde_json` value cannot fail; the contract claims the text is what
/// [`text_of_json`] names.
#[verifier::external_body]
pub fn json_to_text(value: &Json) -> (r: String)
    ensures
        r@ == text_of_json(value@),
{
    serde_json::to_string(&value_from_json(value)).unwrap_or_default()
}

/// The library's JSON for a `serde_json` value, one for one; the conversion of
/// [`parse_json`]'s result.
#[verifier::external_body]
fn json_from_value(value: Value) -> (r: Json) {
    match value {
        Value::Null => Json::Null,
        Value::Bool(b) => Json::Bool(b),
        Value::Number(n) => Json::Number(JsonNumber { unsigned: n.as_u64(), signed: n.as_i64(), text: n.to_string() }),
        Value::String(s) => Json::Str(s),
        Value::Array(items) => Json::Array(items.into_iter().map(json_from_value).collect()),
        Value::Object(members) => Json::Object(
            members.into_iter().map(|(key, value)| JsonEntry { key, value: json_from_value(value) }).collect(),
        ),
    }
}

/// The `serde_json` value of the library's JSON, one for one; the conversion of
/// [`json_to_text`]'s argument. A number goes back as its text.
#[verifier::external_body]
fn value_from_json(value: &Json) -> (r: Value) {
    match value {
        Json::Null => Value::Null,
        Json::Bool(b) => Value::Bool(*b),
        Json::Number(n) => serde_json::from_str::<Value>(&n.text).unwrap_or(Value::Null),
        Json::Str(s) => Value::String(s.clone()),
        Json::Array(items) => Value::Array(items.iter().map(value_from_json).collect()),
        Json::Object(members) => Value::Object(
            members.iter().map(|entry| (entry.key.clone(), value_from_json(&entry.value))).collect(),
        ),
    }
}

} // verus!
