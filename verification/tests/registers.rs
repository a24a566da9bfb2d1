use yamos6502::{Register, RegisterFile, Status};

#[test]
fn masks_follow_the_hardware_layout() {
    assert_eq!(Status::Negative.mask(), 0x80);
    assert_eq!(Status::Overflow.mask(), 0x40);
    assert_eq!(Status::AlwaysSet.mask(), 0x20);
    assert_eq!(Status::Break.mask(), 0x10);
    assert_eq!(Status::Decimal.mask(), 0x08);
    assert_eq!(Status::InterruptDisable.mask(), 0x04);
    assert_eq!(Status::Zero.mask(), 0x02);
    assert_eq!(Status::Carry.mask(), 0x01);
    assert_eq!(Status::Negative.bit(), 7);
    assert_eq!(Status::Carry.bit(), 0);
}

#[test]
fn new_registers_hold_the_power_on_values() {
    let regf = RegisterFile::new();
    assert_eq!(regf.pc(), 0xff55);
    assert_eq!(regf.a(), 0xaa);
    assert_eq!(regf.x(), 0xcc);
    assert_eq!(regf.y(), 0xd2);
    assert_eq!(regf.sp(), 0x01);
    assert_eq!(regf.reg(Register::P), 0);
    assert_eq!(regf, RegisterFile::default());
}

#[test]
fn reset_sets_the_flags_of_the_hardware() {
    let mut regf = RegisterFile::new();
    *regf.reg_mut(Register::P) = 0xff;
    regf.reset();
    assert_eq!(regf.reg(Register::P), 0x24);
    assert!(regf.flag_set(Status::InterruptDisable));
    assert!(regf.flag_set(Status::AlwaysSet));
    assert!(!regf.flag_set(Status::Decimal));
    assert!(!regf.flag_set(Status::Break));
    // Nothing else is touched
    assert_eq!(regf.pc(), 0xff55);
    assert_eq!(regf.a(), 0xaa);
    assert_eq!(regf.x(), 0xcc);
    assert_eq!(regf.y(), 0xd2);
    assert_eq!(regf.sp(), 0x01);
}

#[test]
fn registers_are_read_and_written_by_name() {
    let mut regf = RegisterFile::new();
    *regf.reg_mut(Register::A) = 1;
    *regf.reg_mut(Register::X) = 2;
    *regf.reg_mut(Register::Y) = 3;
    *regf.reg_mut(Register::P) = 4;
    *regf.reg_mut(Register::S) = 5;
    assert_eq!(regf.reg(Register::A), 1);
    assert_eq!(regf.reg(Register::X), 2);
    assert_eq!(regf.reg(Register::Y), 3);
    assert_eq!(regf.reg(Register::P), 4);
    assert_eq!(regf.reg(Register::S), 5);
    *regf.a_mut() = 0x11;
    *regf.x_mut() = 0x12;
    *regf.y_mut() = 0x13;
    *regf.sp_mut() = 0x14;
    assert_eq!((regf.a(), regf.x(), regf.y(), regf.sp()), (0x11, 0x12, 0x13, 0x14));
    assert_eq!(regf.reg(Register::P), 4);
    regf.set_pc(0x1234);
    assert_eq!(regf.pc(), 0x1234);
}

#[test]
fn program_counter_wraps_around() {
    let mut regf = RegisterFile::new();
    regf.set_pc(0xffff);
    regf.adjust_pc_by(1);
    assert_eq!(regf.pc(), 0x0000);
    regf.adjust_pc_by(-1);
    assert_eq!(regf.pc(), 0xffff);
    regf.set_pc(0x0001);
    regf.adjust_pc_by(-2);
    assert_eq!(regf.pc(), 0xffff);
    regf.set_pc(0x0200);
    regf.adjust_pc_by(-128);
    assert_eq!(regf.pc(), 0x0180);
    regf.adjust_pc_by(127);
    assert_eq!(regf.pc(), 0x01ff);
}

#[test]
fn flags_are_set_and_cleared_one_by_one() {
    let all = [
        Status::Negative,
        Status::Overflow,
        Status::AlwaysSet,
        Status::Break,
        Status::Decimal,
        Status::InterruptDisable,
        Status::Zero,
        Status::Carry,
    ];
    for flag in all {
        let mut regf = RegisterFile::new();
        regf.set_flag(flag);
        assert_eq!(regf.reg(Register::P), flag.mask());
        for other in all {
            assert_eq!(regf.flag_set(other), other == flag);
        }
        *regf.reg_mut(Register::P) = 0xff;
        regf.clear_flag(flag);
        assert_eq!(regf.reg(Register::P), !flag.mask());
        regf.set_flag_from_cond(flag, true);
        assert_eq!(regf.reg(Register::P), 0xff);
        regf.set_flag_from_cond(flag, false);
        assert_eq!(regf.reg(Register::P), !flag.mask());
    }
}

#[test]
fn flag_letters_show_the_status_register() {
    let mut regf = RegisterFile::new();
    assert_eq!(regf.flag_letters(), ['n', 'v', 'x', 'b', 'd', 'i', 'z', 'c']);
    regf.reset();
    assert_eq!(regf.flag_letters(), ['n', 'v', 'X', 'b', 'd', 'I', 'z', 'c']);
    *regf.reg_mut(Register::P) = 0xc3;
    assert_eq!(regf.flag_letters(), ['N', 'V', 'x', 'b', 'd', 'i', 'Z', 'C']);
    *regf.reg_mut(Register::P) = 0xff;
    assert_eq!(regf.flag_letters(), ['N', 'V', 'X', 'B', 'D', 'I', 'Z', 'C']);
}
