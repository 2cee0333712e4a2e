//! Identifiers: 128-bit values that key every asset.

use vstd::prelude::*;

verus! {

/// The reserved identifier of the built-in defaults: all 128 bits zero.
pub open spec fn nil() -> u128 {
    0
}

/// The nil identifier, from `uuid::Uuid::nil` and `uuid::Uuid::as_u128`.
///
/// Trusted: the nil UUID has all of its 128 bits set to zero, and `as_u128`
/// packs the sixteen bytes big-endian, so the value is 0.
#[verifier::external_body]
pub(crate) fn nil_identifier() -> (id: u128)
    ensures
        id == nil(),
{
    uuid::Uuid::nil().as_u128()
}

/// What every freshly minted identifier has: the version number 7 in bits
/// 76 to 79, and the two variant bits `10` in bits 62 and 63.
pub open spec fn minted(id: u128) -> bool {
    &&& (id >> 76) & 0xf == 7
    &&& (id >> 62) & 0x3 == 2
}

/// A minted identifier is not the nil identifier, nor any other number
/// below 2 to the power of 78.
pub proof fn lemma_minted(id: u128)
    requires
        minted(id),
    ensures
        id != nil(),
        id >= 0x4000_0000_0000_0000_0000,
{
    assert((id >> 76) & 0xf == 7 ==> id >= 0x4000_0000_0000_0000_0000u128) by (bit_vector);
}

/// A freshly minted identifier, from `uuid::Uuid::now_v7` and
/// `uuid::Uuid::as_u128`.
///
/// Trusted: a version 7 UUID carries the version number 7 in bits 76 to 79
/// and the variant bits `10` in bits 62 and 63, whatever its other bits,
/// which come from the clock, a counter and a random source: nothing is
/// claimed of those. `now_v7` panics where the system clock reads a time
/// before the Unix epoch.
#[verifier::external_body]
pub(crate) fn fresh_identifier() -> (id: u128)
    ensures
        minted(id),
{
    uuid::Uuid::now_v7().as_u128()
}

/// Mints an identifier.
pub(crate) fn mint() -> (id: u128)
    ensures
        minted(id),
        id != nil(),
{
    let id: u128 = fresh_identifier();
    proof {
        lemma_minted(id);
    }
    id
}

} // verus!
