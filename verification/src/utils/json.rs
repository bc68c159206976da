//! JSON text, as the `serde_json` crate reads and writes it.

use vstd::prelude::*;

verus! {

/// Whether `text` is a JSON document: whether `serde_json::from_str` reads
/// it, whole, into a `serde_json::Value`.
pub uninterp spec fn is_json_document(text: Seq<char>) -> bool;

/// Calls `serde_json::from_str::<serde_json::Value>` on `text` and tells
/// whether it gave a value. The contract only names that answer: it is
/// [`is_json_document`] of the text.
#[verifier::external_body]
pub(crate) fn parses_as_json(text: &str) -> (valid: bool)
    ensures
        valid == is_json_document(text@),
{
    serde_json::from_str::<serde_json::Value>(text).is_ok()
}

/// The text that `serde_json::to_string_pretty` writes for the JSON object
/// with one member, of the name `name` and with the string `text` as its
/// value.
pub uninterp spec fn json_object_text(name: Seq<char>, text: Seq<char>) -> Seq<char>;

/// Builds the `serde_json::Value` of an object with the one member `name`,
/// whose value is the string `text`, and calls
/// `serde_json::to_string_pretty` on it. Writing such a value to a string
/// does not fail. The contract only names the text that comes out: it is
/// [`json_object_text`] of the two arguments.
#[verifier::external_body]
pub(crate) fn write_json_object(name: &str, text: &str) -> (json: String)
    ensures
        json@ == json_object_text(name@, text@),
{
    let mut members = serde_json::Map::new();
    members.insert(name.to_string(), serde_json::Value::String(text.to_string()));
    serde_json::to_string_pretty(&serde_json::Value::Object(members)).unwrap()
}

} // verus!
