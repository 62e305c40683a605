//! Values of other crates that the model carries through without looking inside.

use vstd::prelude::*;

verus! {

/// `uuid::Uuid`: a 128-bit identifier, carried as an opaque value.
#[verifier::external_type_specification]
#[verifier::external_body]
pub struct ExUuid(uuid::Uuid);

/// `chrono::NaiveDateTime`: a calendar date and time of day without a zone,
/// carried as an opaque value. Every timestamp of the model is in UTC.
#[verifier::external_type_specification]
#[verifier::external_body]
pub struct ExNaiveDateTime(chrono::NaiveDateTime);

/// `serde_json::Value`: an arbitrary JSON document, carried as an opaque value.
#[verifier::external_type_specification]
#[verifier::external_body]
pub struct ExValue(serde_json::Value);

/// `serde_json::Value::clone` is the derived structural copy: what it returns
/// is the same JSON document as the one it was called on.
pub assume_specification[ <serde_json::Value as Clone>::clone ](v: &serde_json::Value) -> (r:
    serde_json::Value)
    ensures
        r == *v,
;

/// A copy of an optional JSON document.
pub fn clone_document(document: &Option<serde_json::Value>) -> (r: Option<serde_json::Value>)
    ensures
        r == *document,
{
    match document {
        Some(d) => Some(d.clone()),
        None => None,
    }
}

} // verus!
