//! Name-based identifiers: the version-5 UUID of a name in a namespace.

use vstd::prelude::*;

verus! {

/// The name-based identifier namespace `6ba7b812-9dad-11d1-80b4-00c04fd430c8`
/// (ISO object identifiers).
pub const NAMESPACE_OID: u128 = 0x6ba7b812_9dad_11d1_80b4_00c04fd430c8;

/// The version-5 (SHA-1, name-based) identifier of `name` in `namespace`.
pub uninterp spec fn spec_uuid_v5(namespace: u128, name: Seq<u8>) -> u128;

/// Calls `uuid::Uuid::new_v5` on the namespace (read as big-endian bytes) and
/// the name, and reads the result back as a big-endian `u128`. The result is a
/// function of the two arguments alone, with the version nibble set to 5 and
/// the RFC 4122 variant bits `10`; the rest of it (a SHA-1 digest) is not stated.
#[verifier::external_body]
pub(crate) fn uuid_v5(namespace: u128, name: &[u8]) -> (r: u128)
    ensures
        r == spec_uuid_v5(namespace, name@),
        (r >> 76u128) & 0xf == 5,
        (r >> 62u128) & 3 == 2,
{
    uuid::Uuid::new_v5(&uuid::Uuid::from_u128(namespace), name).as_u128()
}

} // verus!
