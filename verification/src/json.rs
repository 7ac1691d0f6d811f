//! What this library reads of JSON, which `serde_json` parses.
//!
//! A parsed value stays a `serde_json::Value`, which verified code carries
//! about and reads through the few functions below. Contracts speak of a
//! value through [`json_of`], which names what the value holds as far as
//! this library looks into one.

use vstd::prelude::*;

verus! {

/// `serde_json::Value`, a parsed JSON value. Verified code sees nothing
/// inside one.
#[verifier::external_type_specification]
#[verifier::external_body]
pub struct ExJsonValue(serde_json::Value);

/// `serde_json::Error`, what the parser says of a text that it refuses.
/// Verified code sees nothing inside one.
#[verifier::external_type_specification]
#[verifier::external_body]
pub struct ExJsonError(serde_json::Error);

/// A JSON value as contracts see it.
pub enum Json {
    /// A number that is an integer from 0 to `u64::MAX`.
    Unsigned(u64),
    /// A string.
    Text(Seq<char>),
    /// An object: its members under their keys.
    Object(Map<Seq<char>, Json>),
    /// Anything else: `null`, a boolean, an array, a number that is negative,
    /// has a fraction or is too large.
    Other,
}

/// What a parsed value holds.
pub uninterp spec fn json_of(value: serde_json::Value) -> Json;

/// The elements of the JSON array that `text` spells, or `None` where
/// `text` does not spell one JSON array and nothing else.
pub uninterp spec fn json_elements(text: Seq<char>) -> Option<Seq<Json>>;

/// What each of the values holds.
pub open spec fn jsons_of(values: Seq<serde_json::Value>) -> Seq<Json> {
    values.map_values(|value: serde_json::Value| json_of(value))
}

/// The member of an object under `key`; `None` where there is no such member
/// and where `json` is no object.
pub open spec fn member_of(json: Json, key: Seq<char>) -> Option<Json> {
    match json {
        Json::Object(members) if members.contains_key(key) => Some(members[key]),
        _ => None,
    }
}

/// The number, where `json` is an unsigned integer.
pub open spec fn unsigned_in(json: Json) -> Option<u64> {
    match json {
        Json::Unsigned(number) => Some(number),
        _ => None,
    }
}

/// The characters, where `json` is a string.
pub open spec fn text_in(json: Json) -> Option<Seq<char>> {
    match json {
        Json::Text(text) => Some(text),
        _ => None,
    }
}

/// `serde_json::from_str` for a vector of values: the elements of the array
/// that the whole text spells, or the parser's error.
#[verifier::external_body]
pub(crate) fn parse_array(text: &str) -> (parsed: Result<Vec<serde_json::Value>, serde_json::Error>)
    ensures
        parsed matches Ok(values) ==> json_elements(text@) == Some(jsons_of(values@)),
        parsed is Err ==> json_elements(text@) is None,
{
    serde_json::from_str::<Vec<serde_json::Value>>(text)
}

/// `serde_json::Value::get` with a string key: the member of an object under
/// that key; `None` for a missing key and for a value that is no object.
#[verifier::external_body]
pub(crate) fn member<'a>(value: &'a serde_json::Value, key: &str) -> (found: Option<
    &'a serde_json::Value,
>)
    ensures
        found matches Some(inner) ==> member_of(json_of(*value), key@) == Some(json_of(*inner)),
        found is None ==> member_of(json_of(*value), key@) is None,
{
    value.get(key)
}

/// `serde_json::Value::as_u64`: the value as a `u64` where it is an integer
/// that fits one, else `None`.
pub assume_specification[ serde_json::Value::as_u64 ](value: &serde_json::Value) -> (number:
    Option<u64>)
    ensures
        number == unsigned_in(json_of(*value)),
;

/// `serde_json::Value::as_str`: the string slice of a value that is a
/// string, else `None`.
pub assume_specification<'a>[ serde_json::Value::as_str ](value: &'a serde_json::Value) -> (text:
    Option<&'a str>)
    ensures
        text matches Some(slice) ==> text_in(json_of(*value)) == Some(slice@),
        text is None ==> text_in(json_of(*value)) is None,
;

/// The message of a `serde_json::Error`, as its `Display` writes it.
#[verifier::external_body]
pub(crate) fn error_message(error: &serde_json::Error) -> (message: String) {
    error.to_string()
}

} // verus!
