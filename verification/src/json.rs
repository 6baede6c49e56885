//! JSON as far as the agent needs it: the argument payload of a tool
//! invocation is parsed by `serde_json`, and only the string members of the
//! resulting object are ever read.

use vstd::prelude::*;
use crate::types::option_view;

verus! {

/// `serde_json::Value`: a parsed JSON value. It is carried through as it
/// is; what is read of it goes through `string_members`.
#[verifier::external_type_specification]
#[verifier::external_body]
pub struct ExValue(serde_json::Value);

/// `serde_json::Error`: why a text could not be parsed. Nothing is read of
/// it.
#[verifier::external_type_specification]
#[verifier::external_body]
pub struct ExJsonError(serde_json::Error);

/// The string members of a JSON value: for an object, its keys whose value is
/// a JSON string, each with that string; for any other value, nothing.
pub uninterp spec fn string_members(value: serde_json::Value) -> Map<Seq<char>, Seq<char>>;

/// What parsing a text as one JSON value yields: nothing if the text is not
/// valid JSON, else the string members of the value it denotes.
pub uninterp spec fn json_string_members(text: Seq<char>) -> Option<Map<Seq<char>, Seq<char>>>;

/// `serde_json::from_str` at type `serde_json::Value`. Whether it succeeds,
/// and the string members of the value it returns, depend on the text alone.
#[verifier::external_body]
pub(crate) fn parse_json(text: &str) -> (r: Result<serde_json::Value, serde_json::Error>)
    ensures
        match r {
            Ok(value) => json_string_members(text@) == Some(string_members(value)),
            Err(_) => json_string_members(text@) is None,
        },
{
    serde_json::from_str(text)
}

/// Indexing a `serde_json::Value` by a key and reading the result with
/// `Value::as_str`: the member's text when the value is an object that has
/// the key with a string value, nothing otherwise.
#[verifier::external_body]
pub(crate) fn string_member(value: &serde_json::Value, key: &str) -> (r: Option<String>)
    ensures
        option_view(r) == if string_members(*value).contains_key(key@) {
            Some(string_members(*value)[key@])
        } else {
            None
        },
{
    value[key].as_str().map(String::from)
}

} // verus!
