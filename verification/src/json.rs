//! The little that the library asks of a JSON text: whether it parses, whether
//! it is an object, and what text one of its members holds. Parsing itself is
//! `serde_json`'s work.

use vstd::prelude::*;
use crate::text::text_of;

verus! {

/// `serde_json::Error`, carried from the parser to where its message is
/// read.
#[verifier::external_type_specification]
#[verifier::external_body]
pub struct ExJsonError(serde_json::Error);

/// Whether `serde_json::from_str::<serde_json::Value>` accepts `text`.
pub uninterp spec fn json_parses(text: Seq<char>) -> bool;

/// Whether the value that `serde_json` reads from `text` is an object
/// (`Value::is_object`). Meaningful where `json_parses(text)`.
pub uninterp spec fn json_is_object(text: Seq<char>) -> bool;

/// The text of member `key` of the value that `serde_json` reads from `text`:
/// what `Value::get(key)` finds, where that is a string. `None` where the
/// value is no object, has no such member, or the member is not a string.
/// Meaningful where `json_parses(text)`.
pub uninterp spec fn json_member_text(text: Seq<char>, key: Seq<char>) -> Option<Seq<char>>;

/// What was read of a JSON text that parsed.
#[derive(Debug, PartialEq, Eq)]
pub struct JsonFacts {
    /// The value is an object.
    pub is_object: bool,
    /// The text of the member that was asked for, where it is a string.
    pub member: Option<String>,
}

impl JsonFacts {
    /// These facts are the ones that hold of `text` and `key`.
    pub open spec fn describes(&self, text: Seq<char>, key: Seq<char>) -> bool {
        &&& self.is_object == json_is_object(text)
        &&& text_of(self.member) == json_member_text(text, key)
        &&& self.member is Some ==> self.is_object
    }
}

/// Calls `serde_json::from_str::<serde_json::Value>` on `text`. On success
/// reports `Value::is_object` and, for member `key`, what `Value::get` finds
/// where that is a `Value::String`; `get` with a string key finds nothing in
/// a value that is no object. On failure hands back `serde_json`'s error.
#[verifier::external_body]
fn read_json(text: &str, key: &str) -> (r: Result<JsonFacts, serde_json::Error>)
    ensures
        r is Ok == json_parses(text@),
        r matches Ok(facts) ==> facts.is_object == json_is_object(text@),
        r matches Ok(facts) ==> text_of(facts.member) == json_member_text(text@, key@),
        r matches Ok(facts) ==> (facts.member is Some ==> facts.is_object),
{
    match serde_json::from_str::<serde_json::Value>(text) {
        Ok(value) => {
            let member = match value.get(key) {
                Some(serde_json::Value::String(found)) => Some(found.clone()),
                _ => None,
            };
            Ok(JsonFacts { is_object: value.is_object(), member })
        },
        Err(error) => Err(error),
    }
}

/// The message of a `serde_json::Error`, as its `Display` writes it.
#[verifier::external_body]
fn json_error_message(error: &serde_json::Error) -> (r: String) {
    error.to_string()
}

/// Why a text is no JSON, in the parser's words.
#[derive(Debug, PartialEq, Eq)]
pub struct JsonFailure {
    pub detail: String,
}

/// Whether `text` is JSON and holds an object.
pub open spec fn is_json_object(text: Seq<char>) -> bool {
    json_parses(text) && json_is_object(text)
}

/// The text of member `key` where `text` is a JSON object with such a string
/// member.
pub open spec fn json_text_member(text: Seq<char>, key: Seq<char>) -> Option<Seq<char>> {
    if is_json_object(text) {
        json_member_text(text, key)
    } else {
        None
    }
}

/// Parses `text` and looks up the string member `key`. Succeeds exactly on
/// the texts that parse as JSON.
pub fn parse_member(text: &str, key: &str) -> (r: Result<JsonFacts, JsonFailure>)
    ensures
        r is Ok == json_parses(text@),
        r matches Ok(facts) ==> facts.describes(text@, key@),
{
    match read_json(text, key) {
        Ok(facts) => Ok(facts),
        Err(error) => Err(JsonFailure { detail: json_error_message(&error) }),
    }
}

/// The string member `key` of the JSON object `text`, if `text` is one and
/// has it.
pub fn text_member(text: &str, key: &str) -> (r: Option<String>)
    ensures
        text_of(r) == json_text_member(text@, key@),
{
    match parse_member(text, key) {
        Ok(facts) => if facts.is_object {
            facts.member
        } else {
            None
        },
        Err(_) => None,
    }
}

} // verus!
