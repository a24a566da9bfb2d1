//! Arithmetic of the processor on plain bytes: words, shifts and rotates,
//! addition and subtraction in binary and in decimal mode.

use crate::bcd::{
    bcd_of, bcd_to_u8, bcd_value, is_packed_bcd, lemma_bcd_encoding_of_value,
    lemma_bcd_value_of_encoding, u8_to_bcd,
};
use vstd::prelude::*;

verus! {

/// The byte that an integer leaves modulo 2^8.
pub open spec fn wrap8(x: int) -> u8 {
    (x % 0x100) as u8
}

/// The word that an integer leaves modulo 2^16.
pub open spec fn wrap16(x: int) -> u16 {
    (x % 0x1_0000) as u16
}

/// The little-endian word made of two bytes.
pub open spec fn word(lo: u8, hi: u8) -> u16 {
    (lo + 0x100 * hi) as u16
}

/// The byte of a word that is stored first.
pub open spec fn low_byte(w: u16) -> u8 {
    (w % 0x100) as u8
}

/// The byte of a word that is stored second.
pub open spec fn high_byte(w: u16) -> u8 {
    (w / 0x100) as u8
}

/// The number that a byte stands for in two's complement.
pub open spec fn signed(b: u8) -> int {
    if b < 0x80 {
        b as int
    } else {
        b - 0x100
    }
}

/// A flag as the number it adds: one if set, zero if clear.
pub open spec fn bit(on: bool) -> int {
    if on {
        1
    } else {
        0
    }
}

pub fn make_word(lo: u8, hi: u8) -> (w: u16)
    ensures
        w == word(lo, hi),
        low_byte(w) == lo,
        high_byte(w) == hi,
{
    let lo16: u16 = lo as u16;
    let hi16: u16 = hi as u16;
    assert(lo16 | (hi16 << 8) == lo16 + 0x100 * hi16) by (bit_vector)
        requires
            lo16 < 0x100,
            hi16 < 0x100,
    ;
    lo16 | (hi16 << 8)
}

pub fn split_word(w: u16) -> (bytes: (u8, u8))
    ensures
        bytes.0 == low_byte(w),
        bytes.1 == high_byte(w),
        word(bytes.0, bytes.1) == w,
{
    let lo: u16 = w & 0xff;
    let hi: u16 = w >> 8;
    assert(w & 0xff == w % 0x100 && w >> 8 == w / 0x100) by (bit_vector);
    (lo as u8, hi as u8)
}

/// A word's worth of wrapping, on the integers that one step from a word
/// can give.
pub proof fn lemma_wrap16(x: int)
    requires
        -0x1_0000 <= x < 0x2_0000,
    ensures
        wrap16(x) == if x < 0 {
            x + 0x1_0000
        } else if x < 0x1_0000 {
            x
        } else {
            x - 0x1_0000
        },
{
}

/// Addition of bytes within a page.
pub fn add_in_page(x: u8, y: u8) -> (sum: u8)
    ensures
        sum == wrap8(x + y),
{
    proof {
        lemma_wrap8(x + y);
    }
    x.wrapping_add(y)
}

/// Subtraction of bytes within a page.
pub fn sub_in_page(x: u8, y: u8) -> (difference: u8)
    ensures
        difference == wrap8(x - y),
{
    proof {
        lemma_wrap8(x - y);
    }
    x.wrapping_sub(y)
}

/// The address that lies `index` cells behind `base`, around the end of
/// the address space if need be.
pub fn indexed(base: u16, index: u8) -> (addr: u16)
    ensures
        addr == wrap16(base + index),
{
    proof {
        lemma_wrap16(base + index);
    }
    base.wrapping_add(index as u16)
}

/// The address of the cell behind `addr`, which for the last cell is the
/// first.
pub fn next_address(addr: u16) -> (next: u16)
    ensures
        next == wrap16(addr + 1),
{
    proof {
        lemma_wrap16(addr + 1);
    }
    addr.wrapping_add(1)
}

/// The address of the cell before `addr`, which for the first cell is the
/// last.
pub fn previous_address(addr: u16) -> (previous: u16)
    ensures
        previous == wrap16(addr - 1),
{
    proof {
        lemma_wrap16(addr - 1);
    }
    addr.wrapping_sub(1)
}

/// The address of a cell of the zero page.
pub fn zero_page(low: u8) -> (addr: u16)
    ensures
        addr == word(low, 0),
{
    low as u16
}

/// Reads a byte as a signed displacement.
pub fn sign_extend(b: u8) -> (offset: i8)
    ensures
        offset == signed(b),
{
    if b < 0x80 {
        b as i8
    } else {
        let below: u8 = 0xff - b;
        let negated: i8 = below as i8;
        -1 - negated
    }
}

/// What an instruction that reads a byte, changes it and writes it back does
/// to the byte. The rotates carry the carry flag as it was before.
#[derive(Debug, Clone, Copy, PartialEq, Eq, Structural)]
pub enum Modify {
    Increment,
    Decrement,
    ShiftLeft,
    ShiftRight,
    RotateLeft(bool),
    RotateRight(bool),
}

impl Modify {
    /// The byte that is written back.
    pub open spec fn result(self, v: u8) -> u8 {
        match self {
            Modify::Increment => wrap8(v + 1),
            Modify::Decrement => wrap8(v - 1),
            Modify::ShiftLeft => wrap8(v * 2),
            Modify::ShiftRight => v / 2,
            Modify::RotateLeft(carry) => wrap8(v * 2 + bit(carry)),
            Modify::RotateRight(carry) => wrap8(v / 2 + 0x80 * bit(carry)),
        }
    }

    /// The bit that leaves the byte and becomes the carry flag; increments
    /// and decrements leave the carry flag alone.
    pub open spec fn carry_out(self, v: u8) -> Option<bool> {
        match self {
            Modify::Increment | Modify::Decrement => None,
            Modify::ShiftLeft | Modify::RotateLeft(_) => Some(v >= 0x80),
            Modify::ShiftRight | Modify::RotateRight(_) => Some(v % 2 == 1),
        }
    }

    pub fn apply(self, v: u8) -> (out: (u8, Option<bool>))
        ensures
            out.0 == self.result(v),
            out.1 == self.carry_out(v),
    {
        proof {
            assert(v << 1 == (v * 2) % 0x100 && v >> 1 == v / 2 && (v >> 7 != 0) == (v >= 0x80) && (
            v & 1 != 0) == (v % 2 == 1)) by (bit_vector);
            assert(((v << 1) | 1) == (v * 2 + 1) % 0x100 && ((v << 1) & 0xfe) == (v * 2) % 0x100
                && ((v >> 1) | 0x80) == v / 2 + 0x80 && ((v >> 1) & 0x7f) == v / 2)
                by (bit_vector);
        }
        match self {
            Modify::Increment => (v.wrapping_add(1), None),
            Modify::Decrement => (v.wrapping_sub(1), None),
            Modify::ShiftLeft => (v << 1, Some(v >> 7 != 0)),
            Modify::ShiftRight => (v >> 1, Some(v & 1 != 0)),
            Modify::RotateLeft(carry) => {
                let shifted: u8 = v << 1;
                let rotated: u8 = if carry {
                    shifted | 0b0000_0001
                } else {
                    shifted & 0b1111_1110
                };
                (rotated, Some(v >> 7 != 0))
            },
            Modify::RotateRight(carry) => {
                let shifted: u8 = v >> 1;
                let rotated: u8 = if carry {
                    shifted | 0b1000_0000
                } else {
                    shifted & 0b0111_1111
                };
                (rotated, Some(v & 1 != 0))
            },
        }
    }
}

/// What an addition or subtraction leaves: the new accumulator and the two
/// flags that arithmetic alone sets.
#[derive(Debug, Clone, Copy, PartialEq, Eq, Structural)]
pub struct Arith {
    pub value: u8,
    pub carry: bool,
    pub overflow: bool,
}

/// Binary addition of the accumulator, the operand and the carry flag. The
/// carry flag receives bit 8 of the sum, and the overflow flag says that the
/// sum of the signed numbers does not fit a signed byte.
pub open spec fn add_binary(a: u8, m: u8, carry: bool) -> Arith {
    let sum = a + m + bit(carry);
    let signed_sum = signed(a) + signed(m) + bit(carry);
    Arith {
        value: wrap8(sum),
        carry: sum > 0xff,
        overflow: signed_sum < -0x80 || signed_sum > 0x7f,
    }
}

/// Binary subtraction of the operand and the borrow, which is the complement
/// of the carry flag, from the accumulator. The carry flag stays set unless
/// the subtraction borrows.
pub open spec fn sub_binary(a: u8, m: u8, carry: bool) -> Arith {
    let diff = a - m - bit(!carry);
    let signed_diff = signed(a) - signed(m) - bit(!carry);
    Arith {
        value: wrap8(diff),
        carry: diff >= 0,
        overflow: signed_diff < -0x80 || signed_diff > 0x7f,
    }
}

/// Decimal addition. Both bytes are read as two decimal digits, whatever
/// their nibbles hold, and the sum is kept in a byte; a sum above 99 sets the
/// carry flag and loses one hundred. The overflow flag is not touched.
pub open spec fn add_decimal(a: u8, m: u8, carry: bool, overflow: bool) -> Arith {
    let sum = wrap8(bcd_value(a) + bcd_value(m) + bit(carry));
    let digits = if sum > 99 {
        (sum - 100) as u8
    } else {
        sum
    };
    Arith { value: bcd_of(digits), carry: sum > 99, overflow }
}

/// Decimal subtraction. The difference of the two numbers is kept in a
/// signed byte; a negative difference clears the carry flag and gains one
/// hundred. The overflow flag is not touched.
pub open spec fn sub_decimal(a: u8, m: u8, carry: bool, overflow: bool) -> Arith {
    let diff = signed(wrap8(bcd_value(a) - bcd_value(m) - bit(!carry)));
    let digits = if diff < 0 {
        diff + 100
    } else {
        diff
    };
    Arith { value: bcd_of(wrap8(digits)), carry: diff >= 0, overflow }
}

/// ADC: binary or decimal addition, as the decimal flag says.
pub open spec fn add_with_carry(a: u8, m: u8, carry: bool, decimal: bool, overflow: bool) -> Arith {
    if decimal {
        add_decimal(a, m, carry, overflow)
    } else {
        add_binary(a, m, carry)
    }
}

/// SBC: binary or decimal subtraction, as the decimal flag says.
pub open spec fn subtract_with_borrow(
    a: u8,
    m: u8,
    carry: bool,
    decimal: bool,
    overflow: bool,
) -> Arith {
    if decimal {
        sub_decimal(a, m, carry, overflow)
    } else {
        sub_binary(a, m, carry)
    }
}

/// A byte's worth of wrapping, on the integers that one addition or one
/// subtraction of bytes can give.
pub proof fn lemma_wrap8(x: int)
    requires
        -0x200 <= x < 0x300,
    ensures
        wrap8(x) == if x < -0x100 {
            x + 0x200
        } else if x < 0 {
            x + 0x100
        } else if x < 0x100 {
            x
        } else if x < 0x200 {
            x - 0x100
        } else {
            x - 0x200
        },
{
}

fn adc_binary(a: u8, m: u8, carry: bool) -> (out: Arith)
    ensures
        out == add_binary(a, m, carry),
{
    let carry_in: u16 = if carry { 1 } else { 0 };
    let wide_m: u16 = m as u16;
    let wide_a: u16 = a as u16;
    let r: u16 = wide_m + wide_a + carry_in;
    // Signed overflow: both operands have the same sign and the result has
    // the other one.
    let overflow_out: bool = (wide_a ^ r) & (wide_m ^ r) & 0x0080 != 0;
    let carry_out: bool = r & 0xff00 != 0;
    let low: u16 = r & 0xff;
    proof {
        assert(((wide_a ^ r) & (wide_m ^ r) & 0x0080 != 0) == ((wide_a < 0x80) == (wide_m < 0x80)
            && (wide_a < 0x80) != (r & 0xff < 0x80)) && (r & 0xff00 != 0) == (r > 0xff) && (r
            & 0xff) == r % 0x100) by (bit_vector)
            requires
                wide_a < 0x100,
                wide_m < 0x100,
                r < 0x200,
        ;
        lemma_wrap8(a + m + bit(carry));
    }
    Arith { value: low as u8, carry: carry_out, overflow: overflow_out }
}

fn adc_decimal(a: u8, m: u8, carry: bool, overflow: bool) -> (out: Arith)
    ensures
        out == add_decimal(a, m, carry, overflow),
{
    let carry_in: u8 = if carry { 1 } else { 0 };
    let first: u8 = bcd_to_u8(a);
    let second: u8 = bcd_to_u8(m);
    let mut r: u8 = first.wrapping_add(second).wrapping_add(carry_in);
    proof {
        lemma_wrap8(first + second);
        lemma_wrap8(first + second + bit(carry));
        lemma_wrap8(wrap8(first + second) + bit(carry));
        assert(r == wrap8(first + second + bit(carry)));
    }
    let carry_out: bool = r > 99;
    if carry_out {
        r -= 100;
    }
    Arith { value: u8_to_bcd(r), carry: carry_out, overflow }
}

pub fn adc_result(a: u8, m: u8, carry: bool, decimal: bool, overflow: bool) -> (out: Arith)
    ensures
        out == add_with_carry(a, m, carry, decimal, overflow),
{
    if decimal {
        adc_decimal(a, m, carry, overflow)
    } else {
        adc_binary(a, m, carry)
    }
}

fn sbc_binary(a: u8, m: u8, carry: bool) -> (out: Arith)
    ensures
        out == sub_binary(a, m, carry),
{
    // There is no borrow flag: the complement of the carry flag is used.
    let borrow_in: u16 = if carry { 0 } else { 1 };
    let wide_a: u16 = a as u16;
    let wide_m: u16 = m as u16;
    let r: u16 = wide_a.wrapping_sub(wide_m).wrapping_sub(borrow_in);
    let borrow_out: bool = r & 0xff00 != 0;
    let overflow_out: bool = (wide_a ^ r) & (!wide_m ^ r) & 0x0080 != 0;
    let low: u16 = r & 0xff;
    proof {
        assert(((wide_a ^ r) & (!wide_m ^ r) & 0x0080 != 0) == ((wide_a < 0x80) != (wide_m < 0x80)
            && (wide_a < 0x80) != (r & 0xff < 0x80)) && (r & 0xff) == r % 0x100 && ((r & 0xff00
            != 0) == (r > 0xff))) by (bit_vector)
            requires
                wide_a < 0x100,
                wide_m < 0x100,
        ;
        let diff = a - m - bit(!carry);
        assert(r == if diff < 0 { diff + 0x1_0000 } else { diff });
        lemma_wrap8(diff);
        assert(low == wrap8(diff));
    }
    Arith { value: low as u8, carry: !borrow_out, overflow: overflow_out }
}

fn sbc_decimal(a: u8, m: u8, carry: bool, overflow: bool) -> (out: Arith)
    ensures
        out == sub_decimal(a, m, carry, overflow),
{
    let borrow_in: u8 = if carry { 0 } else { 1 };
    let first: u8 = bcd_to_u8(a);
    let second: u8 = bcd_to_u8(m);
    let wrapped: u8 = first.wrapping_sub(second).wrapping_sub(borrow_in);
    proof {
        lemma_wrap8(first - second);
        lemma_wrap8(first - second - bit(!carry));
        assert(wrapped == wrap8(first - second - bit(!carry)));
    }
    // A byte from 0x80 up stands for a negative difference, which gains one
    // hundred.
    let borrow_out: bool = wrapped >= 0x80;
    let digits: u8 = if borrow_out {
        wrapped.wrapping_add(100)
    } else {
        wrapped
    };
    proof {
        let diff = signed(wrapped);
        lemma_wrap8(diff + 100);
        lemma_wrap8(diff);
    }
    Arith { value: u8_to_bcd(digits), carry: !borrow_out, overflow }
}

pub fn sbc_result(a: u8, m: u8, carry: bool, decimal: bool, overflow: bool) -> (out: Arith)
    ensures
        out == subtract_with_borrow(a, m, carry, decimal, overflow),
{
    if decimal {
        sbc_decimal(a, m, carry, overflow)
    } else {
        sbc_binary(a, m, carry)
    }
}

/// On two packed BCD bytes, decimal addition is addition of the two numbers
/// modulo one hundred, and the carry flag says that the sum passed 99.
pub proof fn lemma_add_decimal(a: u8, m: u8, carry: bool, overflow: bool)
    requires
        is_packed_bcd(a),
        is_packed_bcd(m),
    ensures
        ({
            let sum = bcd_value(a) + bcd_value(m) + bit(carry);
            let out = add_decimal(a, m, carry, overflow);
            &&& out.carry == (sum > 99)
            &&& is_packed_bcd(out.value)
            &&& bcd_value(out.value) == sum % 100
            &&& out.overflow == overflow
        }),
{
    lemma_bcd_encoding_of_value(a);
    lemma_bcd_encoding_of_value(m);
    let sum = bcd_value(a) + bcd_value(m) + bit(carry);
    lemma_wrap8(sum);
    let digits: u8 = if sum > 99 {
        (sum - 100) as u8
    } else {
        sum as u8
    };
    lemma_bcd_value_of_encoding(digits);
}

/// On two packed BCD bytes, decimal subtraction is subtraction of the two
/// numbers modulo one hundred, and the carry flag says that nothing was
/// borrowed.
pub proof fn lemma_sub_decimal(a: u8, m: u8, carry: bool, overflow: bool)
    requires
        is_packed_bcd(a),
        is_packed_bcd(m),
    ensures
        ({
            let diff = bcd_value(a) - bcd_value(m) - bit(!carry);
            let out = sub_decimal(a, m, carry, overflow);
            &&& out.carry == (diff >= 0)
            &&& is_packed_bcd(out.value)
            &&& bcd_value(out.value) == diff % 100
            &&& out.overflow == overflow
        }),
{
    lemma_bcd_encoding_of_value(a);
    lemma_bcd_encoding_of_value(m);
    let diff = bcd_value(a) - bcd_value(m) - bit(!carry);
    lemma_wrap8(diff);
    let digits: u8 = if diff < 0 {
        (diff + 100) as u8
    } else {
        diff as u8
    };
    lemma_wrap8(digits as int);
    lemma_bcd_value_of_encoding(digits);
}

/// Binary subtraction is binary addition of the operand's complement.
pub proof fn lemma_sub_is_add_of_complement(a: u8, m: u8, carry: bool)
    ensures
        sub_binary(a, m, carry) == add_binary(a, (0xff - m) as u8, carry),
{
    lemma_wrap8(a - m - bit(!carry));
    lemma_wrap8(a + (0xff - m) + bit(carry));
}

} // verus!
