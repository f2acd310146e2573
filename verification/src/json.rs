//! Trusted access to JSON documents through `serde_json`.
//!
//! The feed's payloads are flat JSON objects whose leaves are strings and
//! booleans, plus one nested `result` status object.  The three lookups below
//! are the only JSON operations the decode pipeline needs; each is named by
//! an uninterpreted function of the document text, so that the verified
//! pipeline's contracts are exact functions of the raw payload.

use vstd::prelude::*;

verus! {

/// The string under top-level key `key` of document `doc`: `Some` exactly
/// when `doc` parses as JSON and its top-level object maps `key` to a string.
pub uninterp spec fn doc_str_field(doc: Seq<char>, key: Seq<char>) -> Option<Seq<char>>;

/// The boolean under top-level key `key` of document `doc`: `Some` exactly
/// when `doc` parses as JSON and its top-level object maps `key` to a boolean.
pub uninterp spec fn doc_bool_field(doc: Seq<char>, key: Seq<char>) -> Option<bool>;

/// The string under key `key` of the object under top-level key `outer` of
/// document `doc`: `Some` exactly when `doc` parses as JSON and that nested
/// lookup reaches a string.
pub uninterp spec fn doc_nested_str_field(
    doc: Seq<char>,
    outer: Seq<char>,
    key: Seq<char>,
) -> Option<Seq<char>>;

/// Relies on `serde_json::from_str::<Value>`, `Value::get` and
/// `Value::as_str`: parses `doc` and looks up the string under the top-level
/// key `key`, handing back `None` when the document does not parse, the key
/// is absent, or the value there is not a string.
#[verifier::external_body]
pub(crate) fn json_str_field(doc: &str, key: &str) -> (r: Option<String>)
    ensures
        match r {
            Some(s) => doc_str_field(doc@, key@) == Some(s@),
            None => doc_str_field(doc@, key@) is None,
        },
{
    let v: serde_json::Value = serde_json::from_str(doc).ok()?;
    Some(v.get(key)?.as_str()?.to_owned())
}

/// Relies on `serde_json::from_str::<Value>`, `Value::get` and
/// `Value::as_bool`: parses `doc` and looks up the boolean under the
/// top-level key `key`, handing back `None` when the document does not
/// parse, the key is absent, or the value there is not a boolean.
#[verifier::external_body]
pub(crate) fn json_bool_field(doc: &str, key: &str) -> (r: Option<bool>)
    ensures
        match r {
            Some(b) => doc_bool_field(doc@, key@) == Some(b),
            None => doc_bool_field(doc@, key@) is None,
        },
{
    let v: serde_json::Value = serde_json::from_str(doc).ok()?;
    v.get(key)?.as_bool()
}

/// Relies on `serde_json::from_str::<Value>`, `Value::get` and
/// `Value::as_str`: parses `doc`, descends into the object under `outer`,
/// and looks up the string under `key` there, handing back `None` when any
/// step fails.
#[verifier::external_body]
pub(crate) fn json_nested_str_field(doc: &str, outer: &str, key: &str) -> (r: Option<String>)
    ensures
        match r {
            Some(s) => doc_nested_str_field(doc@, outer@, key@) == Some(s@),
            None => doc_nested_str_field(doc@, outer@, key@) is None,
        },
{
    let v: serde_json::Value = serde_json::from_str(doc).ok()?;
    Some(v.get(outer)?.get(key)?.as_str()?.to_owned())
}

} // verus!
