//! Reading one string out of a JSON document.
//!
//! Parsing belongs to `serde_json`. What it returns is named here, not
//! described: the contracts below say how the lookup is put together from
//! those names.

use crate::failure::{LookupFailure, LookupFailureView};
use vstd::prelude::*;

verus! {

/// A parsed JSON document, opaque to the verifier.
#[verifier::external_type_specification]
#[verifier::external_body]
pub struct ExJsonValue(serde_json::Value);

/// Why `serde_json` rejected its input, opaque to the verifier.
#[verifier::external_type_specification]
#[verifier::external_body]
pub struct ExJsonError(serde_json::Error);

/// The document that these bytes spell, or `None` where they spell none.
pub uninterp spec fn json_document(bytes: Seq<u8>) -> Option<serde_json::Value>;

/// The member of a document under a key, or `None` where the document is no
/// object or has no such member.
pub uninterp spec fn json_member(document: serde_json::Value, key: Seq<char>) -> Option<
    serde_json::Value,
>;

/// The text of a value that is a string, or `None` for any other value.
pub uninterp spec fn json_text(value: serde_json::Value) -> Option<Seq<char>>;

/// Calls `serde_json::from_slice` for a `serde_json::Value`. Trusted: it
/// accepts exactly the byte strings that spell a document, and the document
/// it returns depends on the bytes alone.
#[verifier::external_body]
fn parse(bytes: &[u8]) -> (parsed: Result<serde_json::Value, serde_json::Error>)
    ensures
        match parsed {
            Ok(document) => json_document(bytes@) == Some(document),
            Err(_) => json_document(bytes@) is None,
        },
{
    serde_json::from_slice::<serde_json::Value>(bytes)
}

/// Calls `serde_json::Value::get` with a string key. Trusted: the value it
/// borrows depends on the document and the key alone.
#[verifier::external_body]
fn member<'a>(document: &'a serde_json::Value, key: &str) -> (found: Option<&'a serde_json::Value>)
    ensures
        match found {
            Some(value) => json_member(*document, key@) == Some(*value),
            None => json_member(*document, key@) is None,
        },
{
    document.get(key)
}

/// `serde_json::Value::as_str`. Trusted: the text it borrows depends on the
/// value alone.
pub assume_specification<'a>[ serde_json::Value::as_str ](value: &'a serde_json::Value) -> (text:
    Option<&'a str>)
    ensures
        match text {
            Some(s) => json_text(*value) == Some(s@),
            None => json_text(*value) is None,
        },
;

/// The string under `key` in a document.
pub open spec fn string_at(document: serde_json::Value, key: Seq<char>) -> Result<
    Seq<char>,
    LookupFailureView,
> {
    match json_member(document, key) {
        None => Err(LookupFailureView::Key),
        Some(value) => match json_text(value) {
            None => Err(LookupFailureView::Key),
            Some(text) => Ok(text),
        },
    }
}

/// The string under `key` in the file at `path`, given what reading the file
/// produced: `None` where it could not be opened.
pub open spec fn lookup(path: Seq<char>, contents: Option<Seq<u8>>, key: Seq<char>) -> Result<
    Seq<char>,
    LookupFailureView,
> {
    match contents {
        None => Err(LookupFailureView::FileOpen(path)),
        Some(bytes) => match json_document(bytes) {
            None => Err(LookupFailureView::Parse),
            Some(document) => string_at(document, key),
        },
    }
}

/// The bytes behind an optional slice.
pub open spec fn bytes_of(contents: Option<&[u8]>) -> Option<Seq<u8>> {
    match contents {
        Some(bytes) => Some(bytes@),
        None => None,
    }
}

/// Whether a result and its model agree.
pub open spec fn agrees(
    result: Result<String, LookupFailure>,
    model: Result<Seq<char>, LookupFailureView>,
) -> bool {
    match result {
        Ok(text) => model == Ok::<Seq<char>, LookupFailureView>(text@),
        Err(error) => model == Err::<Seq<char>, LookupFailureView>(error@),
    }
}

/// Turns what a string lookup found into the result of the lookup: the text
/// where there is one, a key failure where there is none.
pub fn text_or_key_failure(found: Option<&str>) -> (result: Result<String, LookupFailure>)
    ensures
        match found {
            Some(text) => result matches Ok(owned) && owned@ == text@,
            None => result matches Err(error) && error@ == LookupFailureView::Key,
        },
{
    match found {
        Some(text) => Ok(String::from_str(text)),
        None => Err(LookupFailure::Key),
    }
}

/// Looks up the string under `key` at the top level of a parsed document.
pub fn string_member(document: &serde_json::Value, key: &str) -> (result: Result<
    String,
    LookupFailure,
>)
    ensures
        agrees(result, string_at(*document, key@)),
{
    match member(document, key) {
        Some(value) => text_or_key_failure(value.as_str()),
        None => Err(LookupFailure::Key),
    }
}

/// Reads the string under `key` from the JSON file at `filepath`, whose
/// bytes are `contents`, or `None` if the file could not be opened.
///
/// Fails with `FileOpen` where there are no contents, with `Parse` where the
/// contents are not JSON, and with `Key` where the document has no string
/// under `key` at its top level.
pub fn read_json_value_from_file(filepath: &str, contents: Option<&[u8]>, key: &str) -> (result:
    Result<String, LookupFailure>)
    ensures
        agrees(result, lookup(filepath@, bytes_of(contents), key@)),
{
    match contents {
        None => Err(LookupFailure::FileOpen(String::from_str(filepath))),
        Some(bytes) => match parse(bytes) {
            Ok(document) => string_member(&document, key),
            Err(_) => Err(LookupFailure::Parse),
        },
    }
}

} // verus!
