//! Packed binary-coded decimal: one decimal digit per nibble.

use vstd::prelude::*;

verus! {

/// The packed BCD byte that stands for `u`: tens in the high nibble, ones in
/// the low nibble. Numbers of three digits have no such byte and give zero.
pub open spec fn bcd_of(u: u8) -> u8 {
    if u < 100 {
        ((u / 10) * 16 + u % 10) as u8
    } else {
        0
    }
}

/// The number a byte stands for when its nibbles are read as decimal digits.
/// Nibbles above nine are taken at face value, so the result may reach 165.
pub open spec fn bcd_value(bcd: u8) -> u8 {
    ((bcd / 16) * 10 + bcd % 16) as u8
}

/// A byte is packed BCD when both of its nibbles are decimal digits.
pub open spec fn is_packed_bcd(bcd: u8) -> bool {
    bcd / 16 <= 9 && bcd % 16 <= 9
}

pub fn u8_to_bcd(u: u8) -> (bcd: u8)
    ensures
        bcd == bcd_of(u),
        u < 100 ==> is_packed_bcd(bcd),
{
    if u < 100 {
        let tens: u8 = u / 10;
        let ones: u8 = u % 10;
        assert((tens << 4) | ones == tens * 16 + ones) by (bit_vector)
            requires
                tens < 10,
                ones < 10,
        ;
        (tens << 4) | ones
    } else {
        0x00
    }
}

pub fn bcd_to_u8(bcd: u8) -> (u: u8)
    ensures
        u == bcd_value(bcd),
        u <= 165,
        is_packed_bcd(bcd) ==> u < 100,
{
    let tens: u8 = bcd >> 4;
    let ones: u8 = bcd & 0x0f;
    assert(bcd >> 4 == bcd / 16 && bcd & 0x0f == bcd % 16) by (bit_vector);
    tens * 10 + ones
}

/// Encoding a number below one hundred and decoding it again gives the number
/// back.
pub proof fn lemma_bcd_value_of_encoding(u: u8)
    requires
        u < 100,
    ensures
        is_packed_bcd(bcd_of(u)),
        bcd_value(bcd_of(u)) == u,
{
}

/// Decoding a packed BCD byte and encoding the number again gives the byte
/// back.
pub proof fn lemma_bcd_encoding_of_value(bcd: u8)
    requires
        is_packed_bcd(bcd),
    ensures
        bcd_value(bcd) < 100,
        bcd_of(bcd_value(bcd)) == bcd,
{
}

} // verus!
