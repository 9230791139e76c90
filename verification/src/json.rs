//! The JSON value type that views carry through to their templates.

use vstd::prelude::*;

verus! {

/// `serde_json::Value`: an already-serialized piece of data that the library
/// carries through unread.
#[verifier::external_type_specification]
#[verifier::external_body]
pub struct ExJsonValue(serde_json::Value);

} // verus!
