//! Bit-flag bytes: the model shared by the CPU status register and the PPU
//! control, mask and status registers.

use vstd::prelude::*;

verus! {

/// Whether every bit of `mask` is set in `bits`.
pub open spec fn contains_bits(bits: u8, mask: u8) -> bool {
    bits & mask == mask
}

/// `bits` with the bits of `mask` set when `on` holds and cleared otherwise.
pub open spec fn assign_bits(bits: u8, mask: u8, on: bool) -> u8 {
    if on {
        bits | mask
    } else {
        bits & !mask
    }
}

/// Assigning a mask makes exactly that mask readable back and leaves every
/// bit outside the mask as it was.
pub proof fn lemma_assign_bits(bits: u8, mask: u8, on: bool)
    ensures
        mask != 0 ==> contains_bits(assign_bits(bits, mask, on), mask) == on,
        assign_bits(bits, mask, on) & !mask == bits & !mask,
        forall|other: u8|
            other & mask == 0 ==> contains_bits(#[trigger] assign_bits(bits, mask, on), other)
                == #[trigger] contains_bits(bits, other),
{
    assert((bits | mask) & mask == mask) by (bit_vector);
    assert(mask != 0 ==> (bits & !mask) & mask != mask) by (bit_vector);
    assert((bits | mask) & !mask == bits & !mask) by (bit_vector);
    assert((bits & !mask) & !mask == bits & !mask) by (bit_vector);
    assert forall|other: u8| other & mask == 0 implies contains_bits(
        #[trigger] assign_bits(bits, mask, on),
        other,
    ) == #[trigger] contains_bits(bits, other) by {
        assert(other & mask == 0 ==> (bits | mask) & other == bits & other) by (bit_vector);
        assert(other & mask == 0 ==> (bits & !mask) & other == bits & other) by (bit_vector);
    }
}

/// `value` shifted left by one bit with `carry_in` entering at bit 0, and
/// the bit that leaves at the top.
pub open spec fn shifted_left(value: u8, carry_in: bool) -> (u8, bool) {
    (
        ((value as int * 2) % 256 + if carry_in {
            1int
        } else {
            0int
        }) as u8,
        value >= 128,
    )
}

/// `value` shifted right by one bit with `carry_in` entering at bit 7, and
/// the bit that leaves at the bottom.
pub open spec fn shifted_right(value: u8, carry_in: bool) -> (u8, bool) {
    (
        (value as int / 2 + if carry_in {
            128int
        } else {
            0int
        }) as u8,
        value % 2 == 1,
    )
}

pub fn shift_left(value: u8, carry_in: bool) -> (r: (u8, bool))
    ensures
        r == shifted_left(value, carry_in),
{
    let low: u8 = if carry_in {
        1
    } else {
        0
    };
    assert(low <= 1 ==> (value << 1 | low) == (value as int * 2) % 256 + low as int
        && (value >> 7 == 1) == (value >= 128)) by (bit_vector);
    (value << 1 | low, value >> 7 == 1)
}

pub fn shift_right(value: u8, carry_in: bool) -> (r: (u8, bool))
    ensures
        r == shifted_right(value, carry_in),
{
    let high: u8 = if carry_in {
        0b1000_0000
    } else {
        0
    };
    assert((high == 0 || high == 128) ==> (value >> 1 | high) == value as int / 2 + high as int
        && (value & 1 == 1) == (value % 2 == 1)) by (bit_vector);
    (value >> 1 | high, value & 0b0000_0001 == 1)
}

/// Whether adding two bytes as signed numbers left the signed range: both
/// have the same sign and the result has the other.
pub open spec fn signed_overflow(left: u8, right: u8, result: u8) -> bool {
    (left >= 128) == (right >= 128) && (result >= 128) != (left >= 128)
}

pub fn overflowed(left: u8, right: u8, result: u8) -> (r: bool)
    ensures
        r == signed_overflow(left, right, result),
{
    assert(((right ^ result) & (result ^ left) & 0x80 != 0) == ((left >= 128) == (right >= 128)
        && (result >= 128) != (left >= 128))) by (bit_vector);
    (right ^ result) & (result ^ left) & 0x80 != 0
}

/// The one's complement of `value`.
pub open spec fn complement(value: u8) -> u8 {
    (255 - value) as u8
}

pub fn invert(value: u8) -> (r: u8)
    ensures
        r == complement(value),
{
    assert(!value == 255 - value) by (bit_vector);
    !value
}

} // verus!
