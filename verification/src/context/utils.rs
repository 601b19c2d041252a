//! The version tag of an event identifier.

use vstd::prelude::*;

verus! {

/// The version number that the UUID with the 128-bit value `id` carries: the
/// upper four bits of the seventh of its sixteen bytes, the most significant
/// byte counted first.
pub open spec fn uuid_version_of(id: u128) -> nat {
    ((id >> 76) & 0xf) as nat
}

/// `uuid::Uuid::from_u128` followed by `uuid::Uuid::get_version_num`.
///
/// Trusted, not proved: that the UUID made of `id` holds the bytes of `id`
/// with the most significant byte first, and that its version number is the
/// upper half of the byte at index 6.
#[verifier::external_body]
pub(crate) fn uuid_version_num(id: u128) -> (version: usize)
    ensures
        version == uuid_version_of(id),
{
    uuid::Uuid::from_u128(id).get_version_num()
}

} // verus!
