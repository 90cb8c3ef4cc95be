//! JSON documents as mathematical values, and the calls into `serde_json`
//! that read and write them.
//!
//! Parsing and printing are done by `serde_json`; nothing in this module is
//! proved about them. What the rest of the crate proves is stated over
//! [`JsonDoc`], the document that a [`serde_json::Value`] holds.

use serde_json::Value;
use vstd::prelude::*;

verus! {

/// A JSON document.
///
/// An object is a map: each key occurs once, and the members have no order.
/// A number is kept as the digits that `serde_json` writes for it.
pub enum JsonDoc {
    Null,
    Bool(bool),
    Number(Seq<char>),
    Text(Seq<char>),
    Array(Seq<JsonDoc>),
    Object(Map<Seq<char>, JsonDoc>),
}

impl JsonDoc {
    /// The member under `key`; `Null` where the document is no object or
    /// has no such member.
    pub open spec fn member(self, key: Seq<char>) -> JsonDoc {
        match self {
            JsonDoc::Object(members) => if members.contains_key(key) {
                members[key]
            } else {
                JsonDoc::Null
            },
            _ => JsonDoc::Null,
        }
    }

    /// The characters of a string document; `None` for every other document.
    pub open spec fn as_text(self) -> Option<Seq<char>> {
        match self {
            JsonDoc::Text(text) => Some(text),
            _ => None,
        }
    }

    /// The string member under `key`, if the document is an object that has
    /// one.
    pub open spec fn text_member(self, key: Seq<char>) -> Option<Seq<char>> {
        self.member(key).as_text()
    }
}

#[verifier::external_type_specification]
#[verifier::external_body]
pub struct ExValue(serde_json::Value);

/// The document that a `serde_json::Value` holds.
pub uninterp spec fn json_doc(value: Value) -> JsonDoc;

/// What `serde_json::from_str` makes of a text: the document it reads, or
/// the message of the error it reports.
pub uninterp spec fn json_parse(text: Seq<char>) -> Result<JsonDoc, Seq<char>>;

/// The compact text that `serde_json` writes for a document.
pub uninterp spec fn json_render(doc: JsonDoc) -> Seq<char>;

/// Calls `serde_json::from_str` for a `Value`.
///
/// Trusted: the outcome is a function of the text alone, named
/// [`json_parse`]. An error is handed back as the message that its
/// `Display` gives.
#[verifier::external_body]
pub(crate) fn parse_json(text: &str) -> (parsed: Result<Value, String>)
    ensures
        match parsed {
            Ok(value) => json_parse(text@) == Ok::<JsonDoc, Seq<char>>(json_doc(value)),
            Err(message) => json_parse(text@) == Err::<JsonDoc, Seq<char>>(message@),
        },
{
    serde_json::from_str::<Value>(text).map_err(|e| e.to_string())
}

/// Indexes a `serde_json::Value` by a string key (`value[key]`).
///
/// Trusted, as the method's documentation has it: the member under the key,
/// and `Null` where the value is no object or the key is absent.
#[verifier::external_body]
pub(crate) fn json_member<'a>(value: &'a Value, key: &str) -> (found: &'a Value)
    ensures
        json_doc(*found) == json_doc(*value).member(key@),
{
    &value[key]
}

/// Calls `serde_json::Value::as_str`.
///
/// Trusted, as the method's documentation has it: the string of a string
/// value, `None` for any other value.
#[verifier::external_body]
pub(crate) fn json_text<'a>(value: &'a Value) -> (text: Option<&'a str>)
    ensures
        match text {
            Some(s) => json_doc(*value).as_text() == Some(s@),
            None => json_doc(*value).as_text() is None,
        },
{
    value.as_str()
}

/// Writes a `serde_json::Value` out through its `Display`, which gives the
/// compact form.
///
/// Trusted: the text is a function of the document alone, named
/// [`json_render`].
#[verifier::external_body]
pub(crate) fn render_json(value: &Value) -> (text: String)
    ensures
        text@ == json_render(json_doc(*value)),
{
    value.to_string()
}

} // verus!
