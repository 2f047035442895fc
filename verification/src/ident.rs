//! Identifiers: 128-bit values, freshly drawn as version 4 UUIDs.

use vstd::prelude::*;

verus! {

/// The bits of an identifier that hold the UUID version and variant.
pub const LAYOUT_MASK: u128 = 0x0000_0000_0000_F000_C000_0000_0000_0000;

/// What those bits hold in a version 4 (random) UUID of the RFC variant.
pub const LAYOUT_V4: u128 = 0x0000_0000_0000_4000_8000_0000_0000_0000;

/// The nil identifier: all bits zero. No user or task is ever created under it.
pub const NIL: u128 = 0;

/// `id` has the layout of a version 4 UUID: version nibble 4, variant bits `10`.
pub open spec fn is_v4(id: u128) -> bool {
    id & LAYOUT_MASK == LAYOUT_V4
}

/// A version 4 identifier is never nil.
pub proof fn lemma_v4_not_nil(id: u128)
    requires
        is_v4(id),
    ensures
        id != NIL,
{
    assert(id & 0x0000_0000_0000_F000_C000_0000_0000_0000u128
        == 0x0000_0000_0000_4000_8000_0000_0000_0000u128 ==> id != 0u128) by (bit_vector);
}

/// Calls `uuid::Uuid::new_v4` and hands the value out as a `u128`
/// (`Uuid::as_u128`, the sixteen bytes in big-endian order).
///
/// Trusted: the random bits are whatever they are, but `new_v4` always clears
/// and sets the version and variant bits, which is all this contract claims.
/// Nothing is claimed about two calls giving different values.
#[verifier::external_body]
pub(crate) fn fresh_id() -> (id: u128)
    ensures
        is_v4(id),
{
    uuid::Uuid::new_v4().as_u128()
}

} // verus!
