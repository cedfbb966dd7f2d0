//! The boundary to `serde_json`: the document type, a mathematical model of
//! what a document holds, and the calls that decode and read one.
//!
//! Nothing in this file is proved. The contracts of the four functions at its
//! end are taken from the documentation and the source of `serde_json`; the
//! rest of the library is verified against them.

use vstd::prelude::*;

verus! {

/// A decoded JSON document, as `serde_json` holds it.
#[verifier::external_type_specification]
#[verifier::external_body]
pub struct ExValue(serde_json::Value);

/// The reason that `serde_json` gives for rejecting an input.
#[verifier::external_type_specification]
#[verifier::external_body]
pub struct ExError(serde_json::Error);

/// What a JSON document holds.
pub enum Json {
    Null,
    Bool(bool),
    /// A number that `serde_json` holds as an integer.
    Integer(int),
    /// A number that `serde_json` holds as a floating-point number.
    Real,
    Text(Seq<char>),
    Array(Seq<Json>),
    Object(Map<Seq<char>, Json>),
}

impl Json {
    /// The member `key` of an object. Where the object has no such member, and
    /// where the document is no object, this is `Null`.
    pub open spec fn member(self, key: Seq<char>) -> Json {
        match self {
            Json::Object(members) if members.contains_key(key) => members[key],
            _ => Json::Null,
        }
    }

    /// The text of a string; `None` for every other document.
    pub open spec fn text(self) -> Option<Seq<char>> {
        match self {
            Json::Text(text) => Some(text),
            _ => None,
        }
    }

    /// The value of an integer that fits `i64`; `None` for every other
    /// document.
    pub open spec fn integer(self) -> Option<i64> {
        match self {
            Json::Integer(n) if i64::MIN <= n <= i64::MAX => Some(n as i64),
            _ => None,
        }
    }
}

/// What `document` holds.
pub uninterp spec fn content(document: serde_json::Value) -> Json;

/// What the JSON text `bytes` decodes to; `None` where `bytes` is no JSON
/// text.
pub uninterp spec fn decoded(bytes: Seq<u8>) -> Option<Json>;

/// Calls `serde_json::from_slice`, decoding to a `serde_json::Value`. The
/// outcome is a function of `bytes` alone, and `decoded` is its name: `Ok` with
/// a document that holds `decoded(bytes)`, or `Err` where that is `None`.
#[verifier::external_body]
pub(crate) fn parse_document(bytes: &[u8]) -> (outcome: Result<serde_json::Value, serde_json::Error>)
    ensures
        match outcome {
            Ok(document) => decoded(bytes@) == Some(content(document)),
            Err(_) => decoded(bytes@) is None,
        },
{
    serde_json::from_slice(bytes)
}

/// Indexes a `serde_json::Value` by a string key (`Index<&str>`). This never
/// panics: it yields the member of that name of an object, and a null document
/// where there is none or the document is no object.
#[verifier::external_body]
pub(crate) fn member_of<'a>(document: &'a serde_json::Value, key: &str) -> (found: &'a serde_json::Value)
    ensures
        content(*found) == content(*document).member(key@),
{
    &document[key]
}

/// Calls `serde_json::Value::as_str`: the text of a string document, `None` for
/// every other.
#[verifier::external_body]
pub(crate) fn text_of<'a>(document: &'a serde_json::Value) -> (found: Option<&'a str>)
    ensures
        found.deep_view() == content(*document).text(),
{
    document.as_str()
}

/// Calls `serde_json::Value::as_i64`: the value of an integer document that
/// fits `i64`, `None` for every other.
#[verifier::external_body]
pub(crate) fn integer_of(document: &serde_json::Value) -> (found: Option<i64>)
    ensures
        found == content(*document).integer(),
{
    document.as_i64()
}

} // verus!
