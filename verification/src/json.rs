//! JSON payloads. The library carries them from the caller into the write
//! requests it builds and never looks inside one.

use vstd::prelude::*;

verus! {

/// `serde_json::Value`, held as an opaque value.
#[verifier::external_type_specification]
#[verifier::external_body]
pub struct ExValue(serde_json::Value);

/// `Clone::clone` of `serde_json::Value`: the derived clone rebuilds the same
/// tree of JSON nodes, so the copy is taken to be equal to the value it was
/// made from.
pub assume_specification[ <serde_json::Value as Clone>::clone ](value: &serde_json::Value) -> (copy:
    serde_json::Value)
    ensures
        copy == *value,
;

} // verus!
