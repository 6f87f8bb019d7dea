//! Byte and bit helpers shared by the components.
use vstd::prelude::*;

verus! {

/// The 16-bit value whose high byte is `b1` and whose low byte is `b2`.
pub open spec fn spec_combine_u8(b1: u8, b2: u8) -> u16 {
    (b1 as int * 256 + b2 as int) as u16
}

/// The low byte of `v`.
pub open spec fn spec_low_byte(v: u16) -> u8 {
    (v % 256) as u8
}

/// The high byte of `v`.
pub open spec fn spec_high_byte(v: u16) -> u8 {
    (v / 256) as u8
}

/// Whether bit `bit_index` of `number` is set.
pub open spec fn spec_get_bit(number: u8, bit_index: u8) -> bool {
    (number >> bit_index) & 1 == 1
}

/// `number` with bit `bit_index` replaced by `bit`.
pub open spec fn spec_set_bit(number: u8, bit_index: u8, bit: u8) -> u8 {
    (number & !(1u8 << bit_index)) | (bit << bit_index)
}

/// Replacing one bit sets that bit to the new value and keeps the seven others.
pub proof fn lemma_set_bit_bits(number: u8, bit_index: u8, bit: u8, other: u8)
    by (bit_vector)
    requires
        bit_index < 8,
        other < 8,
        bit <= 1,
    ensures
        ((((number & !(1u8 << bit_index)) | (bit << bit_index)) >> other) & 1 == 1) == (if other
            == bit_index {
            bit == 1
        } else {
            (number >> other) & 1 == 1
        }),
{
}

/// Joins a high byte and a low byte into one 16-bit value.
pub fn combine_u8(b1: u8, b2: u8) -> (r: u16)
    ensures
        r == spec_combine_u8(b1, b2),
        spec_high_byte(r) == b1,
        spec_low_byte(r) == b2,
{
    let bu1: u16 = b1 as u16;
    let bu2: u16 = b2 as u16;
    bu1 * 256 + bu2
}

/// Splits a 16-bit value into its low byte and its high byte, in that order.
pub fn split_u16(v: u16) -> (r: (u8, u8))
    ensures
        r.0 == spec_low_byte(v),
        r.1 == spec_high_byte(v),
        spec_combine_u8(r.1, r.0) == v,
{
    let b1: u8 = (v % 256) as u8;
    let b2: u8 = (v / 256) as u8;
    (b1, b2)
}

/// Replaces bit `bit_index` of `number` by `bit`.
pub fn set_bit(number: &mut u8, bit_index: u8, bit: u8)
    requires
        bit_index < 8,
        bit <= 1,
    ensures
        *final(number) == spec_set_bit(*old(number), bit_index, bit),
        forall|other: u8|
            other < 8 ==> #[trigger] spec_get_bit(*final(number), other) == (if other == bit_index {
                bit == 1
            } else {
                spec_get_bit(*old(number), other)
            }),
{
    proof {
        assert forall|other: u8| other < 8 implies #[trigger] spec_get_bit(
            spec_set_bit(*number, bit_index, bit),
            other,
        ) == (if other == bit_index {
            bit == 1
        } else {
            spec_get_bit(*number, other)
        }) by {
            lemma_set_bit_bits(*number, bit_index, bit, other);
        }
    }
    *number = *number & !(1u8 << bit_index);
    *number = *number | (bit << bit_index);
}

} // verus!
