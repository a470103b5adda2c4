//! Flag bytes: what it means for a mask to be set in a byte, and the facts
//! about setting and clearing masks that the rest of the crate relies on.

use vstd::prelude::*;

verus! {

/// All bits of `mask` are set in `bits`.
pub open spec fn has_flag(bits: u8, mask: u8) -> bool {
    bits & mask == mask
}

/// `bits` with the bits of `mask` switched on or off.
pub open spec fn with_flag(bits: u8, mask: u8, on: bool) -> u8 {
    if on {
        bits | mask
    } else {
        bits & !mask
    }
}

/// Bit 7 of a byte, the sign bit of the 6502.
pub open spec fn bit7(value: u8) -> bool {
    value & 0x80 != 0
}

/// After switching a non-empty mask on it is set; after switching it off it
/// is not.
pub proof fn lemma_with_flag_reads_back(bits: u8, mask: u8, on: bool)
    requires
        mask != 0,
    ensures
        has_flag(with_flag(bits, mask, on), mask) == on,
{
    assert(mask != 0 ==> (bits | mask) & mask == mask && (bits & !mask) & mask != mask)
        by (bit_vector);
}

/// Switching one mask leaves every disjoint mask as it was.
pub proof fn lemma_with_flag_keeps_others(bits: u8, mask: u8, on: bool, other: u8)
    requires
        mask & other == 0,
    ensures
        has_flag(with_flag(bits, mask, on), other) == has_flag(bits, other),
        with_flag(bits, mask, on) & other == bits & other,
{
    assert(mask & other == 0 ==> (bits | mask) & other == bits & other && (bits & !mask) & other
        == bits & other) by (bit_vector);
}

} // verus!
