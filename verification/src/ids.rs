//! Fresh identifiers, through the uuid crate.
use vstd::prelude::*;

verus! {

/// Calls `uuid::Uuid::new_v4` and renders it with `to_string`: a random identifier
/// in the hyphenated form, which is 36 characters long. Nothing else is stated of
/// the value, which is random.
#[verifier::external_body]
pub(crate) fn new_v4_string() -> (r: String)
    ensures
        r@.len() == 36,
{
    uuid::Uuid::new_v4().to_string()
}

} // verus!
