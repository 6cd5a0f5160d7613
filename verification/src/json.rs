//! Field extraction from JSON documents.
//!
//! The event-stream frames and the issuer's token responses arrive as
//! UTF-8 JSON text.  Decoding the general JSON grammar is delegated to
//! serde_json; what each extraction returns is a function of the document
//! and the pointer alone, so the results are given names that the
//! callers' contracts build on.

use vstd::prelude::*;

verus! {

/// The string value at a JSON pointer in a document, or `None` when the
/// document does not parse, the pointer misses, or the value is not a
/// string.  Names the result of serde_json's `from_str`, `Value::pointer`
/// and `Value::as_str` composed, which depends on the arguments alone.
pub uninterp spec fn json_str_at(text: Seq<char>, pointer: Seq<char>) -> Option<Seq<char>>;

/// The boolean value at a JSON pointer in a document, named like
/// [`json_str_at`] but through `Value::as_bool`.
pub uninterp spec fn json_bool_at_spec(text: Seq<char>, pointer: Seq<char>) -> Option<bool>;

/// The unsigned-integer value at a JSON pointer in a document, named like
/// [`json_str_at`] but through `Value::as_u64`.
pub uninterp spec fn json_u64_at_spec(text: Seq<char>, pointer: Seq<char>) -> Option<u64>;

/// Relies on serde_json's `from_str`, `Value::pointer` and
/// `Value::as_str`: looks up the string at a JSON pointer.
#[verifier::external_body]
pub(crate) fn json_string_at(text: &str, pointer: &str) -> (r: Option<String>)
    ensures
        r matches Some(v) ==> json_str_at(text@, pointer@) == Some(v@),
        r is None ==> json_str_at(text@, pointer@) is None,
{
    let v: serde_json::Value = match serde_json::from_str(text) {
        Ok(v) => v,
        Err(_) => return None,
    };
    v.pointer(pointer).and_then(|x| x.as_str()).map(|s| s.to_string())
}

/// Relies on serde_json's `from_str`, `Value::pointer` and
/// `Value::as_bool`: looks up the boolean at a JSON pointer.
#[verifier::external_body]
pub(crate) fn json_bool_at(text: &str, pointer: &str) -> (r: Option<bool>)
    ensures
        r == json_bool_at_spec(text@, pointer@),
{
    let v: serde_json::Value = match serde_json::from_str(text) {
        Ok(v) => v,
        Err(_) => return None,
    };
    v.pointer(pointer).and_then(|x| x.as_bool())
}

/// Relies on serde_json's `from_str`, `Value::pointer` and
/// `Value::as_u64`: looks up the unsigned integer at a JSON pointer.
#[verifier::external_body]
pub(crate) fn json_u64_at(text: &str, pointer: &str) -> (r: Option<u64>)
    ensures
        r == json_u64_at_spec(text@, pointer@),
{
    let v: serde_json::Value = match serde_json::from_str(text) {
        Ok(v) => v,
        Err(_) => return None,
    };
    v.pointer(pointer).and_then(|x| x.as_u64())
}

} // verus!
