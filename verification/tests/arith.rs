use yamos6502::alu::{
    adc_result, make_word, sbc_result, sign_extend, split_word, Arith, Modify,
};
use yamos6502::bcd::{bcd_to_u8, u8_to_bcd};

#[test]
fn bcd_encodes_two_digits() {
    assert_eq!(u8_to_bcd(0), 0x00);
    assert_eq!(u8_to_bcd(9), 0x09);
    assert_eq!(u8_to_bcd(10), 0x10);
    assert_eq!(u8_to_bcd(42), 0x42);
    assert_eq!(u8_to_bcd(99), 0x99);
    assert_eq!(u8_to_bcd(100), 0x00);
    assert_eq!(u8_to_bcd(255), 0x00);
}

#[test]
fn bcd_decodes_nibbles_as_digits() {
    assert_eq!(bcd_to_u8(0x00), 0);
    assert_eq!(bcd_to_u8(0x42), 42);
    assert_eq!(bcd_to_u8(0x99), 99);
    assert_eq!(bcd_to_u8(0x0f), 15);
    assert_eq!(bcd_to_u8(0xff), 165);
}

#[test]
fn bcd_round_trip_below_one_hundred() {
    for u in 0..100u8 {
        assert_eq!(bcd_to_u8(u8_to_bcd(u)), u);
    }
}

#[test]
fn words_are_little_endian() {
    assert_eq!(make_word(0x34, 0x12), 0x1234);
    assert_eq!(split_word(0x1234), (0x34, 0x12));
    assert_eq!(make_word(0xff, 0x00), 0x00ff);
    assert_eq!(split_word(0xff00), (0x00, 0xff));
}

#[test]
fn bytes_are_read_as_signed_displacements() {
    assert_eq!(sign_extend(0x00), 0);
    assert_eq!(sign_extend(0x7f), 127);
    assert_eq!(sign_extend(0x80), -128);
    assert_eq!(sign_extend(0xff), -1);
    assert_eq!(sign_extend(0xfb), -5);
}

#[test]
fn shifts_and_rotates() {
    assert_eq!(Modify::ShiftLeft.apply(0x81), (0x02, Some(true)));
    assert_eq!(Modify::ShiftLeft.apply(0x40), (0x80, Some(false)));
    assert_eq!(Modify::ShiftRight.apply(0x01), (0x00, Some(true)));
    assert_eq!(Modify::ShiftRight.apply(0x80), (0x40, Some(false)));
    assert_eq!(Modify::RotateLeft(true).apply(0x40), (0x81, Some(false)));
    assert_eq!(Modify::RotateLeft(false).apply(0x80), (0x00, Some(true)));
    assert_eq!(Modify::RotateRight(true).apply(0x02), (0x81, Some(false)));
    assert_eq!(Modify::RotateRight(false).apply(0x01), (0x00, Some(true)));
    assert_eq!(Modify::Increment.apply(0xff), (0x00, None));
    assert_eq!(Modify::Decrement.apply(0x00), (0xff, None));
}

#[test]
fn binary_addition_sets_carry_and_overflow() {
    // 0x50 + 0x50: two positive numbers give a negative one
    assert_eq!(
        adc_result(0x50, 0x50, false, false, false),
        Arith { value: 0xa0, carry: false, overflow: true }
    );
    // 0xd0 + 0x90: two negative numbers give a positive one
    assert_eq!(
        adc_result(0xd0, 0x90, false, false, false),
        Arith { value: 0x60, carry: true, overflow: true }
    );
    assert_eq!(
        adc_result(0x50, 0x10, false, false, true),
        Arith { value: 0x60, carry: false, overflow: false }
    );
    assert_eq!(
        adc_result(0xff, 0x00, true, false, false),
        Arith { value: 0x00, carry: true, overflow: false }
    );
    assert_eq!(
        adc_result(0x7f, 0x00, true, false, false),
        Arith { value: 0x80, carry: false, overflow: true }
    );
}

#[test]
fn binary_subtraction_borrows_with_carry_clear() {
    assert_eq!(
        sbc_result(0x50, 0xf0, true, false, false),
        Arith { value: 0x60, carry: false, overflow: false }
    );
    assert_eq!(
        sbc_result(0x50, 0xb0, true, false, false),
        Arith { value: 0xa0, carry: false, overflow: true }
    );
    assert_eq!(
        sbc_result(0xd0, 0x70, true, false, false),
        Arith { value: 0x60, carry: true, overflow: true }
    );
    assert_eq!(
        sbc_result(0x90, 0x00, false, false, false),
        Arith { value: 0x8f, carry: true, overflow: false }
    );
    assert_eq!(
        sbc_result(0x00, 0x00, false, false, false),
        Arith { value: 0xff, carry: false, overflow: false }
    );
}

#[test]
fn decimal_addition_works_on_digits() {
    assert_eq!(
        adc_result(0x19, 0x28, false, true, false),
        Arith { value: 0x47, carry: false, overflow: false }
    );
    assert_eq!(
        adc_result(0x99, 0x01, false, true, true),
        Arith { value: 0x00, carry: true, overflow: true }
    );
    assert_eq!(
        adc_result(0x58, 0x46, true, true, false),
        Arith { value: 0x05, carry: true, overflow: false }
    );
    assert_eq!(
        adc_result(0x90, 0x00, false, true, false),
        Arith { value: 0x90, carry: false, overflow: false }
    );
}

#[test]
fn decimal_subtraction_works_on_digits() {
    assert_eq!(
        sbc_result(0x50, 0x25, true, true, false),
        Arith { value: 0x25, carry: true, overflow: false }
    );
    assert_eq!(
        sbc_result(0x10, 0x20, true, true, true),
        Arith { value: 0x90, carry: false, overflow: true }
    );
    assert_eq!(
        sbc_result(0x90, 0x00, false, true, false),
        Arith { value: 0x89, carry: true, overflow: false }
    );
    assert_eq!(
        sbc_result(0x00, 0x00, false, true, false),
        Arith { value: 0x99, carry: false, overflow: false }
    );
}
