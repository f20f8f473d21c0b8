//! JSON documents as the fetcher reads them.
//!
//! Documents are parsed and held by `serde_json`. Contracts speak of a
//! document through [`Json`], the mathematical value it stands for.

use vstd::prelude::*;

verus! {

/// What a JSON document holds.
pub enum Json {
    Null,
    Bool(bool),
    /// A number, by its decimal text.
    Number(Seq<char>),
    Text(Seq<char>),
    Array(Seq<Json>),
    Object(Map<Seq<char>, Json>),
}

impl Json {
    /// The member stored under `key`, if this is an object that has one.
    pub open spec fn member(self, key: Seq<char>) -> Option<Json> {
        match self {
            Json::Object(members) => if members.contains_key(key) {
                Some(members[key])
            } else {
                None
            },
            _ => None,
        }
    }

    /// The elements, if this is an array.
    pub open spec fn elements(self) -> Option<Seq<Json>> {
        match self {
            Json::Array(elements) => Some(elements),
            _ => None,
        }
    }

    /// The characters, if this is a string.
    pub open spec fn text(self) -> Option<Seq<char>> {
        match self {
            Json::Text(text) => Some(text),
            _ => None,
        }
    }
}

/// `serde_json::Value`, a parsed document. Verified code holds it without
/// looking inside; what it holds is [`json_view`].
#[verifier::external_type_specification]
#[verifier::external_body]
pub struct ExValue(serde_json::Value);

/// The document that a `serde_json::Value` holds.
pub uninterp spec fn json_view(value: serde_json::Value) -> Json;

/// What `serde_json::from_str` makes of a text: the document it denotes, or
/// the message of the error it rejects the text with.
pub uninterp spec fn json_parse(text: Seq<char>) -> Result<Json, Seq<char>>;

/// The text that `serde_json::Value`'s `Debug` formatting gives a document.
pub uninterp spec fn json_debug(json: Json) -> Seq<char>;

/// Calls `serde_json::from_str` for a `Value` and, where it fails, takes
/// the message of the error. Parsing depends on the text alone: the same
/// text always gives the same document or the same message.
#[verifier::external_body]
pub(crate) fn parse(text: &str) -> (parsed: Result<serde_json::Value, String>)
    ensures
        match parsed {
            Ok(value) => json_parse(text@) == Ok::<Json, Seq<char>>(json_view(value)),
            Err(message) => json_parse(text@) == Err::<Json, Seq<char>>(message@),
        },
{
    match serde_json::from_str::<serde_json::Value>(text) {
        Ok(value) => Ok(value),
        Err(error) => Err(error.to_string()),
    }
}

/// Calls `Value::get` with a string key: the member under that key when the
/// value is an object that has the key, nothing otherwise.
#[verifier::external_body]
pub(crate) fn member<'a>(value: &'a serde_json::Value, key: &str) -> (found: Option<&'a serde_json::Value>)
    ensures
        match found {
            Some(inner) => json_view(*value).member(key@) == Some(json_view(*inner)),
            None => json_view(*value).member(key@) is None,
        },
{
    value.get(key)
}

/// Calls `Value::as_array`: the elements when the value is an array.
#[verifier::external_body]
pub(crate) fn elements<'a>(value: &'a serde_json::Value) -> (found: Option<&'a Vec<serde_json::Value>>)
    ensures
        match found {
            Some(list) => json_view(*value).elements() == Some(
                list@.map_values(|element: serde_json::Value| json_view(element)),
            ),
            None => json_view(*value).elements() is None,
        },
{
    value.as_array()
}

/// Calls `Value::as_str`: the characters when the value is a string.
#[verifier::external_body]
pub(crate) fn text<'a>(value: &'a serde_json::Value) -> (found: Option<&'a str>)
    ensures
        match found {
            Some(characters) => json_view(*value).text() == Some(characters@),
            None => json_view(*value).text() is None,
        },
{
    value.as_str()
}

/// Formats a value with `Value`'s `Debug` implementation, whose output is
/// determined by the document.
#[verifier::external_body]
pub(crate) fn debug_text(value: &serde_json::Value) -> (rendered: String)
    ensures
        rendered@ == json_debug(json_view(*value)),
{
    format!("{:?}", value)
}

} // verus!
