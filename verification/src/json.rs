//! JSON documents, as far as a token cache needs them: the members of an
//! object whose values are strings.
//!
//! The documents are read by `serde_json`.  What this module says of it is
//! stated in the contracts of the functions marked `external_body`.
use vstd::prelude::*;
use serde_json::Error;
use serde_json::Value;

verus! {

/// A JSON value of `serde_json`, opaque here.
#[verifier::external_type_specification]
#[verifier::external_body]
pub struct ExValue(Value);

/// The parser's complaint about a text that it rejects, opaque here.
#[verifier::external_type_specification]
#[verifier::external_body]
pub struct ExError(Error);

/// The text of a JSON value that is a string, and `None` for a value of any
/// other kind.
pub uninterp spec fn json_text(value: Value) -> Option<Seq<char>>;

/// Of a JSON object, its members whose values are strings: each such member's
/// name with the text of its value.  Empty for a value that is no object.
pub uninterp spec fn json_text_members(value: Value) -> Map<Seq<char>, Seq<char>>;

/// The string members of the document that `serde_json::from_str` reads out
/// of a text, or `None` for a text that it rejects.
pub uninterp spec fn json_parse(text: Seq<char>) -> Option<Map<Seq<char>, Seq<char>>>;

/// Calls `serde_json::from_str` for a [`Value`].  Trusted: the value that
/// comes back has the string members that [`json_parse`] names for this text,
/// and an error comes back exactly where [`json_parse`] names none.
#[verifier::external_body]
pub(crate) fn json_from_str(text: &str) -> (parsed: Result<Value, Error>)
    ensures
        match parsed {
            Ok(value) => json_parse(text@) == Some(json_text_members(value)),
            Err(_) => json_parse(text@) is None,
        },
{
    serde_json::from_str::<Value>(text)
}

/// Calls `Value::get` with a member's name.  Trusted: it hands out the member
/// of that name where the value is an object that has one, so what comes back
/// is a string exactly where the name is among the object's string members,
/// and then holds that member's text.
#[verifier::external_body]
pub(crate) fn json_get<'a>(value: &'a Value, name: &str) -> (member: Option<&'a Value>)
    ensures
        match member {
            Some(m) => json_text(*m) == if json_text_members(*value).contains_key(name@) {
                Some(json_text_members(*value)[name@])
            } else {
                None
            },
            None => !json_text_members(*value).contains_key(name@),
        },
{
    value.get(name)
}

/// Calls `Value::as_str`.  Trusted: it hands out the text of a value that is
/// a string, and `None` for any other value.
#[verifier::external_body]
pub(crate) fn json_as_str<'a>(value: &'a Value) -> (text: Option<&'a str>)
    ensures
        match text {
            Some(t) => json_text(*value) == Some(t@),
            None => json_text(*value) is None,
        },
{
    value.as_str()
}

/// The text of the string member `name` of a JSON document, if the text is a
/// document, the document an object, and the member a string.
pub open spec fn document_member(text: Seq<char>, name: Seq<char>) -> Option<Seq<char>> {
    match json_parse(text) {
        Some(members) => if members.contains_key(name) {
            Some(members[name])
        } else {
            None
        },
        None => None,
    }
}

/// Reads the string member `name` out of the JSON document `text`.
pub fn string_member(text: &str, name: &str) -> (found: Option<String>)
    ensures
        match found {
            Some(t) => document_member(text@, name@) == Some(t@),
            None => document_member(text@, name@) is None,
        },
{
    let document = match json_from_str(text) {
        Ok(value) => value,
        Err(_) => {
            return None;
        },
    };
    match json_get(&document, name) {
        Some(member) => match json_as_str(member) {
            Some(t) => Some(t.to_owned()),
            None => None,
        },
        None => None,
    }
}

} // verus!
