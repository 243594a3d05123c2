//! Trusted access to JSON documents through serde_json.

use vstd::prelude::*;

verus! {

/// The string field stored under `key` at the top level of the JSON
/// document `doc`, when `doc` parses, holds `key`, and that field is a
/// string; a function of the two texts alone.
pub uninterp spec fn json_str_field_of(doc: Seq<char>, key: Seq<char>) -> Option<Seq<char>>;

/// Relies on `serde_json::from_str::<Value>`, `Value::get` and
/// `Value::as_str`: parsing a document and reading one top-level string
/// field depend on the document and key text alone; any parse error,
/// missing key, or non-string field yields `None`.
#[verifier::external_body]
pub fn json_str_field(doc: &str, key: &str) -> (r: Option<String>)
    ensures
        match r {
            Some(v) => json_str_field_of(doc@, key@) == Some(v@),
            None => json_str_field_of(doc@, key@) is None,
        },
{
    match serde_json::from_str::<serde_json::Value>(doc) {
        Ok(val) => match val.get(key) {
            Some(field) => field.as_str().map(|s| s.to_string()),
            None => None,
        },
        Err(_) => None,
    }
}

} // verus!
