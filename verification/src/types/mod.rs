pub mod datetime;
pub mod id;
pub mod project;
pub mod tag;
pub mod task;
pub mod time;

use vstd::prelude::*;

verus! {

/// Free-form JSON data carried through unchanged.
#[verifier::external_type_specification]
#[verifier::external_body]
pub struct ExJsonValue(serde_json::Value);

} // verus!
