//! The JSON documents that cross the bridge, read and written by `serde_json`.
//!
//! A parsed document stays a `serde_json::Value`, which is opaque here. Each
//! function of `serde_json` that the library calls has a wrapper in this
//! module, and each wrapper states what the call returns over a name of its
//! own. These statements are taken on trust from the source of `serde_json`;
//! the rest of the library is proved from them.

use vstd::prelude::*;

verus! {

/// A parsed JSON document, as `serde_json` holds it.
#[verifier::external_type_specification]
#[verifier::external_body]
pub struct ExJsonValue(serde_json::Value);

/// The reason for which `serde_json` refused a text.
#[verifier::external_type_specification]
#[verifier::external_body]
pub struct ExJsonError(serde_json::Error);

/// The document that `serde_json::from_str` reads from a text, if it reads one.
pub uninterp spec fn json_of_text(text: Seq<char>) -> Option<serde_json::Value>;

/// The document that `serde_json::from_slice` reads from bytes, if it reads one.
pub uninterp spec fn json_of_bytes(bytes: Seq<u8>) -> Option<serde_json::Value>;

/// The member that `Value::get` finds under a key: some document where the
/// value is an object that holds the key, none otherwise.
pub uninterp spec fn json_member(value: serde_json::Value, key: Seq<char>) -> Option<
    serde_json::Value,
>;

/// The text that `Value::as_str` finds: the string where the value is a JSON
/// string, none otherwise.
pub uninterp spec fn json_text(value: serde_json::Value) -> Option<Seq<char>>;

/// The text that the `Debug` impl of `Value` writes for a document.
pub uninterp spec fn json_debug(value: serde_json::Value) -> Seq<char>;

/// The JSON string literal that `serde_json::to_string` writes for a text:
/// the text between double quotes, with its escapes.
pub uninterp spec fn json_literal(text: Seq<char>) -> Seq<char>;

/// The string under a key of a document: the text of the member, where the
/// document is an object that holds the key with a JSON string under it.
pub open spec fn json_string_member(value: serde_json::Value, key: Seq<char>) -> Option<Seq<char>> {
    match json_member(value, key) {
        Some(inner) => json_text(inner),
        None => None,
    }
}

/// Calls `serde_json::from_str` for a whole document. The call succeeds exactly
/// where `json_of_text` names a document, and returns that document.
#[verifier::external_body]
pub(crate) fn read_text(text: &str) -> (parsed: Result<serde_json::Value, serde_json::Error>)
    ensures
        parsed matches Ok(value) ==> json_of_text(text@) == Some(value),
        parsed is Err ==> json_of_text(text@) is None,
{
    serde_json::from_str::<serde_json::Value>(text)
}

/// Calls `serde_json::from_slice` for a whole document. The call succeeds
/// exactly where `json_of_bytes` names a document, and returns that document.
#[verifier::external_body]
pub(crate) fn read_bytes(bytes: &[u8]) -> (parsed: Result<serde_json::Value, serde_json::Error>)
    ensures
        parsed matches Ok(value) ==> json_of_bytes(bytes@) == Some(value),
        parsed is Err ==> json_of_bytes(bytes@) is None,
{
    serde_json::from_slice::<serde_json::Value>(bytes)
}

/// Calls `Value::get` with a string key. The result is the member that
/// `json_member` names.
#[verifier::external_body]
pub(crate) fn member<'a>(value: &'a serde_json::Value, key: &str) -> (found: Option<
    &'a serde_json::Value,
>)
    ensures
        found matches Some(inner) ==> json_member(*value, key@) == Some(*inner),
        found is None ==> json_member(*value, key@) is None,
{
    value.get(key)
}

/// Calls `Value::as_str`. The result is the text that `json_text` names.
#[verifier::external_body]
pub(crate) fn text_of<'a>(value: &'a serde_json::Value) -> (found: Option<&'a str>)
    ensures
        found matches Some(text) ==> json_text(*value) == Some(text@),
        found is None ==> json_text(*value) is None,
{
    value.as_str()
}

/// Formats a document with the `Debug` impl of `Value`. The result is the text
/// that `json_debug` names.
#[verifier::external_body]
pub(crate) fn debug_of(value: &serde_json::Value) -> (text: String)
    ensures
        text@ == json_debug(*value),
{
    format!("{:?}", value)
}

/// Calls `serde_json::to_string` on a text, which cannot fail for a text. The
/// result is the JSON string literal that `json_literal` names.
#[verifier::external_body]
pub(crate) fn literal_of(text: &str) -> (literal: String)
    ensures
        literal@ == json_literal(text@),
{
    serde_json::to_string(text).unwrap_or_default()
}

/// The string under a key of a document, if there is one.
pub fn string_member<'a>(value: &'a serde_json::Value, key: &str) -> (found: Option<&'a str>)
    ensures
        found matches Some(text) ==> json_string_member(*value, key@) == Some(text@),
        found is None ==> json_string_member(*value, key@) is None,
{
    match member(value, key) {
        Some(inner) => text_of(inner),
        None => None,
    }
}

} // verus!
