//! Fresh identifier generation for holders and accounts.

use vstd::prelude::*;

verus! {

/// Relies on `uuid::Uuid::new_v4`: draws a random version-4 UUID from the
/// operating system's random number generator, carried here as its 128-bit
/// value. Nothing can be promised of a random draw, so no contract is stated;
/// callers handle every possible value.
#[verifier::external_body]
pub(crate) fn fresh_id() -> u128 {
    uuid::Uuid::new_v4().as_u128()
}

} // verus!
