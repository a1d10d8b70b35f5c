//! Entry identifiers.

use vstd::prelude::*;

verus! {

/// Whether `id` is the value of a UUID whose version field says "random"
/// and whose variant field says "RFC 9562".
pub open spec fn is_random_uuid(id: u128) -> bool {
    id & 0x0000_0000_0000_f000_c000_0000_0000_0000 == 0x0000_0000_0000_4000_8000_0000_0000_0000
}

/// A new identifier, from `uuid::Uuid::new_v4`.
///
/// Not proved here: that function draws 128 random bits and then fixes the
/// version and variant fields, which is all that the contract claims; which
/// identifier comes back is left open, and two calls may return the same one.
#[verifier::external_body]
pub(crate) fn fresh_id() -> (id: u128)
    ensures
        is_random_uuid(id),
{
    uuid::Uuid::new_v4().as_u128()
}

} // verus!
