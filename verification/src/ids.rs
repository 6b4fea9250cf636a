//! Random identifier generation.
//!
//! Nodes, messages and service requests are identified by 128-bit
//! values drawn at random when the entity is created.

use vstd::prelude::*;

verus! {

/// Relies on `uuid::Uuid::new_v4` (with `as_u128` converting the
/// result): a fresh random version-4 UUID. The value is random, so
/// nothing is promised of it.
#[verifier::external_body]
pub(crate) fn random_uuid_value() -> u128 {
    uuid::Uuid::new_v4().as_u128()
}

} // verus!
