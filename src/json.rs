//! The JSON value type of serde_json, carried through the gallery records
//! untouched.

use vstd::prelude::*;

verus! {

/// `serde_json::Value`: fields of the remote records that no rule here reads.
#[verifier::external_type_specification]
#[verifier::external_body]
pub struct ExValue(serde_json::Value);

/// Relies on the derived `Clone` of `serde_json::Value`; nothing here reads the copy.
pub assume_specification[ <serde_json::Value as core::clone::Clone>::clone ](v: &serde_json::Value) -> serde_json::Value;

} // verus!
