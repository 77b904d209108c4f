//! JSON values carried through HTTP mappings, and the reading of JSON text.
use vstd::prelude::*;

verus! {

/// A JSON document as `serde_json` holds it; the library only carries it.
#[verifier::external_type_specification]
#[verifier::external_body]
pub struct ExJsonValue(serde_json::Value);

/// What `serde_json::from_str` reads from `text`: the document, or the
/// message of the error that stops it.
pub uninterp spec fn json_read(text: Seq<char>) -> Result<serde_json::Value, Seq<char>>;

/// Whether `serde_json` reads `text` as a JSON document.
pub open spec fn json_text_parses(text: Seq<char>) -> bool {
    json_read(text) is Ok
}

/// The message `serde_json` gives where it cannot read `text`.
pub open spec fn json_parse_error_text(text: Seq<char>) -> Seq<char> {
    match json_read(text) {
        Ok(_) => Seq::<char>::empty(),
        Err(m) => m,
    }
}

/// The document `serde_json` reads from `text`, where it reads one.
pub open spec fn json_document(text: Seq<char>) -> serde_json::Value {
    json_read(text)->Ok_0
}

/// Reads `text` as a JSON document with `serde_json::from_str`, the error
/// turned into its message. Claims that the outcome is `json_read(text)`.
#[verifier::external_body]
pub(crate) fn parse_json_value(text: &str) -> (r: Result<serde_json::Value, String>)
    ensures
        match (r, json_read(text@)) {
            (Ok(a), Ok(b)) => a == b,
            (Err(m), Err(e)) => m@ == e,
            _ => false,
        },
{
    serde_json::from_str::<serde_json::Value>(text).map_err(|e| e.to_string())
}

/// A copy of `v`, through `serde_json::Value::clone`; the copy equals `v`.
#[verifier::external_body]
pub(crate) fn clone_json_value(v: &serde_json::Value) -> (r: serde_json::Value)
    ensures
        r == *v,
{
    v.clone()
}

/// A copy of an optional JSON document.
pub fn clone_json_option(v: &Option<serde_json::Value>) -> (r: Option<serde_json::Value>)
    ensures
        r == *v,
{
    match v {
        Some(x) => Some(clone_json_value(x)),
        None => None,
    }
}

} // verus!
