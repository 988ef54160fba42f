//! Packed binary-coded-decimal conversion: two decimal digits per byte, the
//! high nibble counting tens and the low nibble counting ones. The time
//! registers of the chip store every field in this form.

use vstd::prelude::*;

verus! {

/// Decimal value of a packed BCD byte: ten times the high nibble plus the
/// low nibble.
pub open spec fn spec_to_decimal(bcd: u8) -> int {
    (bcd / 16) * 10 + (bcd % 16)
}

/// Packed BCD byte of a decimal value: the tens digit in the high nibble,
/// the ones digit in the low nibble. Faithful for values up to 99.
pub open spec fn spec_from_decimal(v: u8) -> u8 {
    (((v / 10) * 16) + (v % 10)) as u8
}

/// Convert a packed BCD byte to its decimal value.
pub fn to_decimal(bcd: u8) -> (r: u8)
    ensures
        r == spec_to_decimal(bcd),
        r <= 165,
{
    proof {
        assert(bcd >> 4 == bcd / 16 && bcd & 0x0F == bcd % 16) by (bit_vector);
        assert(bcd / 16 <= 15 && bcd % 16 <= 15);
    }
    ((bcd >> 4) * 10) + (bcd & 0x0F)
}

/// Convert a decimal value in 0 to 99 to its packed BCD byte.
pub fn from_decimal(v: u8) -> (r: u8)
    requires
        v <= 99,
    ensures
        r == spec_from_decimal(v),
{
    proof {
        assert(v <= 99 ==> ((v / 10) << 4 | (v % 10)) == ((v / 10) * 16 + (v % 10)) as u8)
            by (bit_vector);
    }
    ((v / 10) << 4) | (v % 10)
}

/// A BCD byte packed from a two-digit value stays below 0x9A, so in
/// particular its top bit is clear.
pub proof fn lemma_from_decimal_bound(v: u8)
    requires
        v <= 99,
    ensures
        spec_from_decimal(v) == (v / 10) * 16 + (v % 10),
        spec_from_decimal(v) < 0x9A,
        v <= 59 ==> spec_from_decimal(v) < 0x60,
        v <= 23 ==> spec_from_decimal(v) < 0x24,
{
    assert(v <= 99 ==> (v / 10) * 16 + (v % 10) < 0x9A) by (bit_vector);
    assert(v <= 59 ==> (v / 10) * 16 + (v % 10) < 0x60) by (bit_vector);
    assert(v <= 23 ==> (v / 10) * 16 + (v % 10) < 0x24) by (bit_vector);
}

/// BCD round trip: packing a two-digit decimal value and unpacking it
/// yields the value unchanged.
pub proof fn lemma_bcd_round_trip(v: u8)
    requires
        v <= 99,
    ensures
        spec_to_decimal(spec_from_decimal(v)) == v,
{
    let b = spec_from_decimal(v);
    assert(b == ((v / 10) * 16 + (v % 10)) as u8);
    assert(v <= 99 && b == ((v / 10) * 16 + (v % 10)) as u8 ==> (b / 16) * 10 + (b % 16) == v)
        by (bit_vector);
}

} // verus!
