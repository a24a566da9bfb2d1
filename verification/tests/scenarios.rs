use yamos6502::{
    AddressMode, Insn, MemoryError, Mos6502, Register, RegisterFile, RomRam, RunError, RunExit,
    StackWraparound, Status, IRQ_BRK_VECTOR, NMI_VECTOR, RESET_VECTOR,
};

const START: u16 = 0x0200;

/// 64 KiB of RAM, filled with zeros but for the chunks given.
fn ram(chunks: &[(u16, &[u8])]) -> RomRam {
    rom_from(0xffff, 0x1_0000, chunks)
}

fn rom_from(rom_start: u16, size: usize, chunks: &[(u16, &[u8])]) -> RomRam {
    let mut cells = vec![0u8; size];
    for (addr, bytes) in chunks {
        for (i, b) in bytes.iter().enumerate() {
            cells[*addr as usize + i] = *b;
        }
    }
    RomRam::new(cells, rom_start)
}

/// A processor that is about to execute what stands at `START`, with an
/// empty stack and the flags as a reset leaves them.
fn cpu_at_start(memory: RomRam, policy: StackWraparound) -> Mos6502<RomRam> {
    let mut regf = RegisterFile::new();
    regf.reset();
    regf.set_pc(START);
    *regf.sp_mut() = 0xff;
    Mos6502::with_registers(memory, regf, policy)
}

fn flag(cpu: &Mos6502<RomRam>, flag: Status) -> bool {
    cpu.registers().flag_set(flag)
}

fn cell(cpu: &Mos6502<RomRam>, addr: u16) -> u8 {
    cpu.memory().cells()[addr as usize]
}

#[test]
fn immediate_loads_set_zero_and_negative() {
    let memory =
        ram(&[(START, &[0xa9, 0x12, 0xa9, 0x00, 0xa9, 0xf2]), (RESET_VECTOR, &[0x00, 0x02])]);
    let mut cpu = Mos6502::new(memory, StackWraparound::Disallow);
    cpu.set_reset_pending();

    assert_eq!(cpu.run(), Ok(RunExit::Executed(Insn::LDA(AddressMode::Immediate))));
    assert_eq!(cpu.registers().a(), 0x12);
    assert!(!flag(&cpu, Status::Zero));
    assert!(!flag(&cpu, Status::Negative));

    assert_eq!(cpu.run(), Ok(RunExit::Executed(Insn::LDA(AddressMode::Immediate))));
    assert_eq!(cpu.registers().a(), 0x00);
    assert!(flag(&cpu, Status::Zero));
    assert!(!flag(&cpu, Status::Negative));

    assert_eq!(cpu.run(), Ok(RunExit::Executed(Insn::LDA(AddressMode::Immediate))));
    assert_eq!(cpu.registers().a(), 0xf2);
    assert!(!flag(&cpu, Status::Zero));
    assert!(flag(&cpu, Status::Negative));
    assert_eq!(cpu.registers().pc(), 0x0206);
}

#[test]
fn indexed_loads_add_the_index_register() {
    let memory = ram(&[
        (0x1200, &[0xab]),
        (0x12f3, &[0xac, 0xad]),
        (0x12cc, &[0xae]),
        // LDX #$F3; LDY #$F4; LDA $1200; LDA $1200,X; LDA $1200,Y
        (START, &[0xa2, 0xf3, 0xa0, 0xf4, 0xad, 0x00, 0x12, 0xbd, 0x00, 0x12, 0xb9, 0x00, 0x12]),
    ]);
    let mut cpu = cpu_at_start(memory, StackWraparound::Disallow);
    assert_eq!(cpu.run(), Ok(RunExit::Executed(Insn::LDX(AddressMode::Immediate))));
    assert_eq!(cpu.run(), Ok(RunExit::Executed(Insn::LDY(AddressMode::Immediate))));
    assert_eq!((cpu.registers().x(), cpu.registers().y()), (0xf3, 0xf4));

    assert_eq!(cpu.run(), Ok(RunExit::Executed(Insn::LDA(AddressMode::Absolute))));
    assert_eq!(cpu.registers().a(), 0xab);
    assert!(flag(&cpu, Status::Negative));
    assert_eq!(cpu.run(), Ok(RunExit::Executed(Insn::LDA(AddressMode::AbsoluteX))));
    assert_eq!(cpu.registers().a(), 0xac);
    assert!(flag(&cpu, Status::Negative));
    assert_eq!(cpu.run(), Ok(RunExit::Executed(Insn::LDA(AddressMode::AbsoluteY))));
    assert_eq!(cpu.registers().a(), 0xad);
    assert!(flag(&cpu, Status::Negative));
}

#[test]
fn x_indirect_wraps_around_in_the_zero_page() {
    let memory = ram(&[(0x35, &[0xba, 0xbb]), (0xbbba, &[0x77]), (START, &[0xa1, 0x42])]);
    let mut cpu = cpu_at_start(memory, StackWraparound::Disallow);
    *cpu.registers_mut().x_mut() = 0xf3;
    assert_eq!(cpu.run(), Ok(RunExit::Executed(Insn::LDA(AddressMode::Xindirect))));
    assert_eq!(cpu.registers().a(), 0x77);
    assert_eq!(cpu.registers().pc(), 0x0202);
}

#[test]
fn zero_page_indexed_wraps_around_in_the_zero_page() {
    // LDA $F0,X with X = 0x20 reads 0x0010, not 0x0110
    let memory = ram(&[(0x10, &[0x11]), (0x110, &[0x22]), (START, &[0xb5, 0xf0])]);
    let mut cpu = cpu_at_start(memory, StackWraparound::Disallow);
    *cpu.registers_mut().x_mut() = 0x20;
    assert_eq!(cpu.run(), Ok(RunExit::Executed(Insn::LDA(AddressMode::ZeropageX))));
    assert_eq!(cpu.registers().a(), 0x11);
}

#[test]
fn absolute_indexed_wraps_around_in_the_address_space() {
    // LDA $FFFF,X with X = 2 reads 0x0001
    let memory = ram(&[(0x0001, &[0x5a]), (START, &[0xbd, 0xff, 0xff])]);
    let mut cpu = cpu_at_start(memory, StackWraparound::Disallow);
    *cpu.registers_mut().x_mut() = 2;
    assert_eq!(cpu.run(), Ok(RunExit::Executed(Insn::LDA(AddressMode::AbsoluteX))));
    assert_eq!(cpu.registers().a(), 0x5a);
}

#[test]
fn indirect_y_adds_y_to_the_pointer() {
    let memory = ram(&[(0x43, &[0xbd, 0xbe]), (0xbfb1, &[0x78]), (START, &[0xb1, 0x43])]);
    let mut cpu = cpu_at_start(memory, StackWraparound::Disallow);
    *cpu.registers_mut().y_mut() = 0xf4;
    assert_eq!(cpu.run(), Ok(RunExit::Executed(Insn::LDA(AddressMode::IndirectY))));
    assert_eq!(cpu.registers().a(), 0x78);
}

#[test]
fn adc_sets_overflow_when_two_positives_give_a_negative() {
    let memory = ram(&[(START, &[0x69, 0x50])]);
    let mut cpu = cpu_at_start(memory, StackWraparound::Disallow);
    *cpu.registers_mut().a_mut() = 0x50;
    assert_eq!(cpu.run(), Ok(RunExit::Executed(Insn::ADC(AddressMode::Immediate))));
    assert_eq!(cpu.registers().a(), 0xa0);
    assert!(!flag(&cpu, Status::Carry));
    assert!(flag(&cpu, Status::Overflow));
    assert!(flag(&cpu, Status::Negative));
    assert!(!flag(&cpu, Status::Zero));
}

#[test]
fn decimal_mode_adds_and_subtracts_digits() {
    // SED; CLC; LDA #$19; ADC #$28; SEC; SBC #$50
    let memory = ram(&[(START, &[0xf8, 0x18, 0xa9, 0x19, 0x69, 0x28, 0x38, 0xe9, 0x50])]);
    let mut cpu = cpu_at_start(memory, StackWraparound::Disallow);
    assert_eq!(cpu.run(), Ok(RunExit::Executed(Insn::SED)));
    assert!(flag(&cpu, Status::Decimal));
    assert_eq!(cpu.run(), Ok(RunExit::Executed(Insn::CLC)));
    assert_eq!(cpu.run(), Ok(RunExit::Executed(Insn::LDA(AddressMode::Immediate))));
    assert_eq!(cpu.run(), Ok(RunExit::Executed(Insn::ADC(AddressMode::Immediate))));
    assert_eq!(cpu.registers().a(), 0x47);
    assert!(!flag(&cpu, Status::Carry));
    assert_eq!(cpu.run(), Ok(RunExit::Executed(Insn::SEC)));
    assert_eq!(cpu.run(), Ok(RunExit::Executed(Insn::SBC(AddressMode::Immediate))));
    // 47 - 50 borrows: 97 and the carry flag clear
    assert_eq!(cpu.registers().a(), 0x97);
    assert!(!flag(&cpu, Status::Carry));
    assert!(flag(&cpu, Status::Negative));
}

#[test]
fn stores_leave_the_flags_alone() {
    let memory = ram(&[(START, &[0x8d, 0x00, 0x12, 0x9d, 0x00, 0x12, 0x99, 0x00, 0x12])]);
    let mut cpu = cpu_at_start(memory, StackWraparound::Disallow);
    *cpu.registers_mut().a_mut() = 0xaf;
    *cpu.registers_mut().x_mut() = 0x1b;
    *cpu.registers_mut().y_mut() = 0x2c;
    let flags = cpu.registers().reg(Register::P);

    assert_eq!(cpu.run(), Ok(RunExit::Executed(Insn::STA(AddressMode::Absolute))));
    assert_eq!(cpu.run(), Ok(RunExit::Executed(Insn::STA(AddressMode::AbsoluteX))));
    assert_eq!(cpu.run(), Ok(RunExit::Executed(Insn::STA(AddressMode::AbsoluteY))));

    assert_eq!(cell(&cpu, 0x1200), 0xaf);
    assert_eq!(cell(&cpu, 0x121b), 0xaf);
    assert_eq!(cell(&cpu, 0x122c), 0xaf);
    assert_eq!(cpu.registers().reg(Register::P), flags);
    assert_eq!(cpu.registers().pc(), 0x0209);
}

#[test]
fn interrupt_waits_while_interrupts_are_disabled() {
    // CLI; NOP
    let memory = ram(&[(START, &[0x58, 0xea]), (IRQ_BRK_VECTOR, &[0x00, 0x30])]);
    let mut cpu = cpu_at_start(memory, StackWraparound::Disallow);
    assert!(flag(&cpu, Status::InterruptDisable));
    cpu.set_irq_pending();

    assert_eq!(cpu.run(), Ok(RunExit::Executed(Insn::CLI)));
    assert!(!flag(&cpu, Status::InterruptDisable));

    assert_eq!(cpu.run(), Ok(RunExit::Interrupt));
    assert_eq!(cpu.registers().pc(), 0x3000);
    assert!(flag(&cpu, Status::InterruptDisable));
    // The address of the NOP and the status byte are on the stack
    assert_eq!(cell(&cpu, 0x01ff), 0x02);
    assert_eq!(cell(&cpu, 0x01fe), 0x01);
    assert_eq!(cell(&cpu, 0x01fd), 0x24);
    assert_eq!(cpu.registers().sp(), 0xfc);

    // The request has been served: the next call executes an instruction
    assert_eq!(cpu.run(), Ok(RunExit::Executed(Insn::BRK)));
}

#[test]
fn non_maskable_interrupt_is_taken_first_and_always() {
    let memory =
        ram(&[(START, &[0xea]), (NMI_VECTOR, &[0x00, 0x40]), (IRQ_BRK_VECTOR, &[0x00, 0x30])]);
    let mut cpu = cpu_at_start(memory, StackWraparound::Disallow);
    cpu.registers_mut().clear_flag(Status::InterruptDisable);
    cpu.registers_mut().set_flag(Status::Carry);
    cpu.set_irq_pending();
    cpu.set_nmi_pending();

    assert_eq!(cpu.run(), Ok(RunExit::NonMaskableInterrupt));
    assert_eq!(cpu.registers().pc(), 0x4000);
    assert!(flag(&cpu, Status::InterruptDisable));
    assert_eq!(cell(&cpu, 0x01ff), 0x02);
    assert_eq!(cell(&cpu, 0x01fe), 0x00);
    // Bit 5, interrupt disable and carry; never the break flag
    assert_eq!(cell(&cpu, 0x01fd), 0x25);

    // The interrupt still waits, now masked
    assert_eq!(cpu.run(), Ok(RunExit::Executed(Insn::BRK)));
}

#[test]
fn non_maskable_interrupt_ignores_the_interrupt_disable_flag() {
    let memory = ram(&[(START, &[0xea]), (NMI_VECTOR, &[0x34, 0x12])]);
    let mut cpu = cpu_at_start(memory, StackWraparound::Disallow);
    assert!(flag(&cpu, Status::InterruptDisable));
    cpu.set_nmi_pending();
    assert_eq!(cpu.run(), Ok(RunExit::NonMaskableInterrupt));
    assert_eq!(cpu.registers().pc(), 0x1234);
    assert_eq!(cpu.run(), Ok(RunExit::Executed(Insn::BRK)));
}

#[test]
fn reset_loads_the_program_counter_from_its_vector() {
    let memory = ram(&[(0x1234, &[0xea]), (RESET_VECTOR, &[0x34, 0x12])]);
    let mut cpu = Mos6502::new(memory, StackWraparound::Disallow);
    cpu.registers_mut().set_flag(Status::Decimal);
    cpu.set_reset_pending();
    assert_eq!(cpu.run(), Ok(RunExit::Executed(Insn::NOP)));
    // The NOP at the vector's target has been executed
    assert_eq!(cpu.registers().pc(), 0x1235);
    assert_eq!(cpu.registers().reg(Register::P), 0x24);
    assert!(flag(&cpu, Status::AlwaysSet));
    assert!(flag(&cpu, Status::InterruptDisable));
    assert!(!flag(&cpu, Status::Decimal));
    // What the reset does not touch
    assert_eq!(cpu.registers().a(), 0xaa);
    assert_eq!(cpu.registers().x(), 0xcc);
    assert_eq!(cpu.registers().y(), 0xd2);
    assert_eq!(cpu.registers().sp(), 0x01);
}

#[test]
fn reset_waits_until_its_vector_can_be_read() {
    // A memory that ends below the vectors
    let memory = rom_from(0xffff, 0x300, &[(START, &[0xea])]);
    let mut cpu = Mos6502::new(memory, StackWraparound::Disallow);
    let before = *cpu.registers();
    cpu.set_reset_pending();
    assert_eq!(cpu.run(), Err(RunError::MemoryAccess(MemoryError::BadAddress(0xfffc))));
    assert_eq!(*cpu.registers(), before);
    // Not a fault of an instruction: the next call tries again
    assert_eq!(cpu.run(), Err(RunError::MemoryAccess(MemoryError::BadAddress(0xfffc))));
}

#[test]
fn invalid_instruction_jams_and_rolls_the_registers_back() {
    // LDA #$01; then an opcode that is no instruction
    let memory = ram(&[(START, &[0xa9, 0x01, 0x02]), (RESET_VECTOR, &[0x00, 0x02])]);
    let mut cpu = cpu_at_start(memory, StackWraparound::Disallow);
    assert_eq!(cpu.run(), Ok(RunExit::Executed(Insn::LDA(AddressMode::Immediate))));
    let before = *cpu.registers();
    assert_eq!(before.pc(), 0x0202);

    assert_eq!(cpu.run(), Err(RunError::InvalidInstruction(0x02)));
    assert_eq!(*cpu.registers(), before);
    // Jammed: the fault comes again and nothing moves
    assert_eq!(cpu.run(), Err(RunError::InvalidInstruction(0x02)));
    assert_eq!(*cpu.registers(), before);
    cpu.set_irq_pending();
    cpu.set_nmi_pending();
    assert_eq!(cpu.run(), Err(RunError::InvalidInstruction(0x02)));

    // Only a reset helps; the events that waited are served after it
    cpu.set_reset_pending();
    assert_eq!(cpu.run(), Ok(RunExit::NonMaskableInterrupt));
}

#[test]
fn reset_onto_an_invalid_instruction_leaves_the_vector_in_the_program_counter() {
    let memory = ram(&[(0x1234, &[0x03]), (RESET_VECTOR, &[0x34, 0x12])]);
    let mut cpu = Mos6502::new(memory, StackWraparound::Disallow);
    cpu.set_reset_pending();
    assert_eq!(cpu.run(), Err(RunError::InvalidInstruction(0x03)));
    assert_eq!(cpu.registers().pc(), 0x1234);
    assert_eq!(cpu.registers().reg(Register::P), 0x24);
}

#[test]
fn fetch_from_a_bad_address_is_reported_as_such() {
    let memory = rom_from(0xffff, 0x300, &[]);
    let mut regf = RegisterFile::new();
    regf.set_pc(0x0400);
    let mut cpu = Mos6502::with_registers(memory, regf, StackWraparound::Disallow);
    assert_eq!(
        cpu.run(),
        Err(RunError::CannotFetchInstruction(MemoryError::BadAddress(0x0400)))
    );
    assert_eq!(*cpu.registers(), regf);
    assert_eq!(
        cpu.run(),
        Err(RunError::CannotFetchInstruction(MemoryError::BadAddress(0x0400)))
    );
}

#[test]
fn operand_from_a_bad_address_rolls_the_registers_back() {
    // LDA $1234 in a memory of 0x300 bytes
    let memory = rom_from(0xffff, 0x300, &[(START, &[0xad, 0x34, 0x12])]);
    let mut cpu = cpu_at_start(memory, StackWraparound::Disallow);
    let before = *cpu.registers();
    assert_eq!(cpu.run(), Err(RunError::MemoryAccess(MemoryError::BadAddress(0x1234))));
    assert_eq!(*cpu.registers(), before);
}

#[test]
fn write_to_rom_is_refused_and_rolls_the_registers_back() {
    // STA $F000 with ROM from 0xF000 up
    let memory = rom_from(0xf000, 0x1_0000, &[(START, &[0x8d, 0x00, 0xf0]), (0xf000, &[0x99])]);
    let mut cpu = cpu_at_start(memory, StackWraparound::Disallow);
    *cpu.registers_mut().a_mut() = 0x11;
    let before = *cpu.registers();
    assert_eq!(cpu.run(), Err(RunError::MemoryAccess(MemoryError::ReadOnlyAddress(0xf000))));
    assert_eq!(*cpu.registers(), before);
    assert_eq!(cell(&cpu, 0xf000), 0x99);
}

#[test]
fn memory_access_of_the_host_goes_through_the_same_checks() {
    let memory = rom_from(0x0200, 0x300, &[(0x0200, &[0x34, 0x12])]);
    let mut cpu = Mos6502::new(memory, StackWraparound::Disallow);
    assert_eq!(cpu.write_u8(0x0010, 0x77), Ok(()));
    assert_eq!(cpu.read_u8(0x0010), Ok(0x77));
    assert_eq!(cpu.read_u16(0x0200), Ok(0x1234));
    assert_eq!(cpu.write_u16(0x0020, 0xbeef), Ok(()));
    assert_eq!(cpu.read_u8(0x0020), Ok(0xef));
    assert_eq!(cpu.read_u8(0x0021), Ok(0xbe));
    assert_eq!(cpu.read_u16(0x0020), Ok(0xbeef));
    assert_eq!(
        cpu.write_u8(0x0200, 1),
        Err(RunError::MemoryAccess(MemoryError::ReadOnlyAddress(0x0200)))
    );
    assert_eq!(cpu.read_u8(0x0300), Err(RunError::MemoryAccess(MemoryError::BadAddress(0x0300))));
    assert_eq!(cpu.read_u16(0x02ff), Err(RunError::MemoryAccess(MemoryError::BadAddress(0x0300))));
    // The low byte is written before the high byte is refused
    assert_eq!(
        cpu.write_u16(0x01ff, 0xa5c3),
        Err(RunError::MemoryAccess(MemoryError::ReadOnlyAddress(0x0200)))
    );
    assert_eq!(cpu.read_u8(0x01ff), Ok(0xc3));
    assert_eq!(cpu.read_u8(0x0200), Ok(0x34));
}

#[test]
fn push_and_pull_stay_in_the_stack_page() {
    // PHA; LDA #$00; PLA
    let memory = ram(&[(START, &[0x48, 0xa9, 0x00, 0x68])]);
    let mut cpu = cpu_at_start(memory, StackWraparound::Disallow);
    *cpu.registers_mut().a_mut() = 0x81;
    assert_eq!(cpu.run(), Ok(RunExit::Executed(Insn::PHA)));
    assert_eq!(cell(&cpu, 0x01ff), 0x81);
    assert_eq!(cpu.registers().sp(), 0xfe);
    assert_eq!(cpu.run(), Ok(RunExit::Executed(Insn::LDA(AddressMode::Immediate))));
    assert!(flag(&cpu, Status::Zero));
    assert_eq!(cpu.run(), Ok(RunExit::Executed(Insn::PLA)));
    assert_eq!(cpu.registers().a(), 0x81);
    assert_eq!(cpu.registers().sp(), 0xff);
    assert!(flag(&cpu, Status::Negative));
    assert!(!flag(&cpu, Status::Zero));
}

#[test]
fn push_below_the_stack_page_is_an_overflow_unless_allowed() {
    let memory = ram(&[(START, &[0x48])]);
    let mut cpu = cpu_at_start(memory, StackWraparound::Disallow);
    *cpu.registers_mut().sp_mut() = 0x00;
    let before = *cpu.registers();
    assert_eq!(cpu.run(), Err(RunError::StackOverflow));
    assert_eq!(*cpu.registers(), before);

    let memory = ram(&[(START, &[0x48])]);
    let mut cpu = cpu_at_start(memory, StackWraparound::Allow);
    *cpu.registers_mut().sp_mut() = 0x00;
    *cpu.registers_mut().a_mut() = 0x42;
    assert_eq!(cpu.run(), Ok(RunExit::Executed(Insn::PHA)));
    assert_eq!(cell(&cpu, 0x0100), 0x42);
    assert_eq!(cpu.registers().sp(), 0xff);
}

#[test]
fn pull_above_the_stack_page_is_an_underflow_unless_allowed() {
    let memory = ram(&[(START, &[0x68])]);
    let mut cpu = cpu_at_start(memory, StackWraparound::Disallow);
    let before = *cpu.registers();
    assert_eq!(before.sp(), 0xff);
    assert_eq!(cpu.run(), Err(RunError::StackUnderflow));
    assert_eq!(*cpu.registers(), before);

    let memory = ram(&[(START, &[0x68]), (0x0100, &[0x42]), (0x0200 - 1, &[0x99])]);
    let mut cpu = cpu_at_start(memory, StackWraparound::Allow);
    assert_eq!(cpu.run(), Ok(RunExit::Executed(Insn::PLA)));
    assert_eq!(cpu.registers().a(), 0x42);
    assert_eq!(cpu.registers().sp(), 0x00);
}

#[test]
fn first_push_on_an_empty_stack_is_no_overflow() {
    let memory = ram(&[(START, &[0x48, 0x48])]);
    let mut cpu = cpu_at_start(memory, StackWraparound::Disallow);
    assert_eq!(cpu.registers().sp(), 0xff);
    assert_eq!(cpu.run(), Ok(RunExit::Executed(Insn::PHA)));
    assert_eq!(cpu.run(), Ok(RunExit::Executed(Insn::PHA)));
    assert_eq!(cpu.registers().sp(), 0xfd);
}

#[test]
fn subroutine_call_returns_behind_the_call() {
    // JSR $1234; at 0x1234: RTS
    let memory = ram(&[(START, &[0x20, 0x34, 0x12, 0xea]), (0x1234, &[0x60])]);
    let mut cpu = cpu_at_start(memory, StackWraparound::Disallow);
    assert_eq!(cpu.run(), Ok(RunExit::Executed(Insn::JSR(AddressMode::Absolute))));
    assert_eq!(cpu.registers().pc(), 0x1234);
    // The address of the last byte of the JSR, high byte first
    assert_eq!(cell(&cpu, 0x01ff), 0x02);
    assert_eq!(cell(&cpu, 0x01fe), 0x02);
    assert_eq!(cpu.registers().sp(), 0xfd);
    assert_eq!(cpu.run(), Ok(RunExit::Executed(Insn::RTS)));
    assert_eq!(cpu.registers().pc(), 0x0203);
    assert_eq!(cpu.registers().sp(), 0xff);
    assert_eq!(cpu.run(), Ok(RunExit::Executed(Insn::NOP)));
}

#[test]
fn break_and_return_from_interrupt() {
    // BRK, its mark; at 0x3000: RTI
    let memory = ram(&[
        (START, &[0x00, 0xff, 0xea]),
        (0x3000, &[0x40]),
        (IRQ_BRK_VECTOR, &[0x00, 0x30]),
    ]);
    let mut cpu = cpu_at_start(memory, StackWraparound::Disallow);
    cpu.registers_mut().clear_flag(Status::InterruptDisable);
    cpu.registers_mut().set_flag(Status::Carry);
    assert_eq!(cpu.registers().reg(Register::P), 0x21);

    assert_eq!(cpu.run(), Ok(RunExit::Executed(Insn::BRK)));
    assert_eq!(cpu.registers().pc(), 0x3000);
    assert!(flag(&cpu, Status::InterruptDisable));
    // The break flag is on the stack only
    assert!(!flag(&cpu, Status::Break));
    assert_eq!(cell(&cpu, 0x01ff), 0x02);
    assert_eq!(cell(&cpu, 0x01fe), 0x02);
    assert_eq!(cell(&cpu, 0x01fd), 0x31);

    assert_eq!(cpu.run(), Ok(RunExit::Executed(Insn::RTI)));
    assert_eq!(cpu.registers().pc(), 0x0202);
    assert_eq!(cpu.registers().reg(Register::P), 0x21);
    assert_eq!(cpu.registers().sp(), 0xff);
    assert_eq!(cpu.run(), Ok(RunExit::Executed(Insn::NOP)));
}

#[test]
fn status_from_the_stack_has_bit_five_on_and_break_off() {
    // PHP; PLP; then PLP of what a program pushed
    let memory = ram(&[(START, &[0x08, 0x28, 0x28]), (0x01ff, &[0x00])]);
    let mut cpu = cpu_at_start(memory, StackWraparound::Disallow);
    *cpu.registers_mut().sp_mut() = 0xfe;
    *cpu.registers_mut().reg_mut(Register::P) = 0xc3;
    assert_eq!(cpu.run(), Ok(RunExit::Executed(Insn::PHP)));
    assert_eq!(cell(&cpu, 0x01fe), 0xf3);
    assert_eq!(cpu.registers().reg(Register::P), 0xc3);
    *cpu.registers_mut().reg_mut(Register::P) = 0x00;
    assert_eq!(cpu.run(), Ok(RunExit::Executed(Insn::PLP)));
    assert_eq!(cpu.registers().reg(Register::P), 0xe3);
    assert_eq!(cpu.run(), Ok(RunExit::Executed(Insn::PLP)));
    assert_eq!(cpu.registers().reg(Register::P), 0x20);
}

#[test]
fn branches_add_a_signed_offset() {
    // P is 0x24 after reset: zero is clear, so BNE is taken and BEQ is not
    let memory = ram(&[(START, &[0xd0, 0x05]), (0x0207, &[0xd0, 0xfb]), (0x0204, &[0xf0, 0x10])]);
    let mut cpu = cpu_at_start(memory, StackWraparound::Disallow);
    assert_eq!(cpu.run(), Ok(RunExit::Executed(Insn::BNE(AddressMode::Relative))));
    assert_eq!(cpu.registers().pc(), 0x0207);
    assert_eq!(cpu.run(), Ok(RunExit::Executed(Insn::BNE(AddressMode::Relative))));
    assert_eq!(cpu.registers().pc(), 0x0204);
    assert_eq!(cpu.run(), Ok(RunExit::Executed(Insn::BEQ(AddressMode::Relative))));
    assert_eq!(cpu.registers().pc(), 0x0206);
}

#[test]
fn branches_test_their_flag() {
    let cases: [(u8, Insn, Status, bool); 8] = [
        (0x90, Insn::BCC(AddressMode::Relative), Status::Carry, false),
        (0xb0, Insn::BCS(AddressMode::Relative), Status::Carry, true),
        (0xd0, Insn::BNE(AddressMode::Relative), Status::Zero, false),
        (0xf0, Insn::BEQ(AddressMode::Relative), Status::Zero, true),
        (0x50, Insn::BVC(AddressMode::Relative), Status::Overflow, false),
        (0x70, Insn::BVS(AddressMode::Relative), Status::Overflow, true),
        (0x10, Insn::BPL(AddressMode::Relative), Status::Negative, false),
        (0x30, Insn::BMI(AddressMode::Relative), Status::Negative, true),
    ];
    for (opcode, insn, tested, taken_when) in cases {
        for set in [false, true] {
            let memory = ram(&[(START, &[opcode, 0x80])]);
            let mut cpu = cpu_at_start(memory, StackWraparound::Disallow);
            cpu.registers_mut().set_flag_from_cond(tested, set);
            assert_eq!(cpu.run(), Ok(RunExit::Executed(insn)));
            let expected = if set == taken_when { 0x0202 - 0x80 } else { 0x0202 };
            assert_eq!(cpu.registers().pc(), expected);
        }
    }
}

#[test]
fn branch_wraps_around_the_address_space() {
    let memory = ram(&[(0xfffe, &[0xd0, 0x02])]);
    let mut regf = RegisterFile::new();
    regf.set_pc(0xfffe);
    let mut cpu = Mos6502::with_registers(memory, regf, StackWraparound::Disallow);
    assert_eq!(cpu.run(), Ok(RunExit::Executed(Insn::BNE(AddressMode::Relative))));
    assert_eq!(cpu.registers().pc(), 0x0002);
}

#[test]
fn jumps_go_to_their_target() {
    // JMP $0300; at 0x0300: JMP ($3000)
    let memory = ram(&[
        (START, &[0x4c, 0x00, 0x03]),
        (0x0300, &[0x6c, 0x00, 0x30]),
        (0x3000, &[0x34, 0x12]),
    ]);
    let mut cpu = cpu_at_start(memory, StackWraparound::Disallow);
    assert_eq!(cpu.run(), Ok(RunExit::Executed(Insn::JMP(AddressMode::Absolute))));
    assert_eq!(cpu.registers().pc(), 0x0300);
    assert_eq!(cpu.run(), Ok(RunExit::Executed(Insn::JMP(AddressMode::Indirect))));
    assert_eq!(cpu.registers().pc(), 0x1234);
}

#[test]
fn shifts_and_rotates_of_the_accumulator_go_through_carry() {
    // ASL A; ROL A; LSR A; ROR A
    let memory = ram(&[(START, &[0x0a, 0x2a, 0x4a, 0x6a])]);
    let mut cpu = cpu_at_start(memory, StackWraparound::Disallow);
    *cpu.registers_mut().a_mut() = 0x81;
    assert_eq!(cpu.run(), Ok(RunExit::Executed(Insn::ASLA)));
    assert_eq!(cpu.registers().a(), 0x02);
    assert!(flag(&cpu, Status::Carry));
    assert_eq!(cpu.run(), Ok(RunExit::Executed(Insn::ROLA)));
    assert_eq!(cpu.registers().a(), 0x05);
    assert!(!flag(&cpu, Status::Carry));
    assert_eq!(cpu.run(), Ok(RunExit::Executed(Insn::LSRA)));
    assert_eq!(cpu.registers().a(), 0x02);
    assert!(flag(&cpu, Status::Carry));
    assert_eq!(cpu.run(), Ok(RunExit::Executed(Insn::RORA)));
    assert_eq!(cpu.registers().a(), 0x81);
    assert!(!flag(&cpu, Status::Carry));
    assert!(flag(&cpu, Status::Negative));
}

#[test]
fn memory_is_modified_in_place() {
    // INC $10; DEC $11; ASL $12; LSR $13; ROL $14; ROR $15
    let memory = ram(&[
        (0x10, &[0xff, 0x00, 0x80, 0x01, 0x80, 0x01]),
        (START, &[0xe6, 0x10, 0xc6, 0x11, 0x06, 0x12, 0x46, 0x13, 0x26, 0x14, 0x66, 0x15]),
    ]);
    let mut cpu = cpu_at_start(memory, StackWraparound::Disallow);
    assert_eq!(cpu.run(), Ok(RunExit::Executed(Insn::INC(AddressMode::Zeropage))));
    assert_eq!(cell(&cpu, 0x10), 0x00);
    assert!(flag(&cpu, Status::Zero));
    assert!(!flag(&cpu, Status::Carry));
    assert_eq!(cpu.run(), Ok(RunExit::Executed(Insn::DEC(AddressMode::Zeropage))));
    assert_eq!(cell(&cpu, 0x11), 0xff);
    assert!(flag(&cpu, Status::Negative));
    assert_eq!(cpu.run(), Ok(RunExit::Executed(Insn::ASL(AddressMode::Zeropage))));
    assert_eq!(cell(&cpu, 0x12), 0x00);
    assert!(flag(&cpu, Status::Carry));
    assert!(flag(&cpu, Status::Zero));
    assert_eq!(cpu.run(), Ok(RunExit::Executed(Insn::LSR(AddressMode::Zeropage))));
    assert_eq!(cell(&cpu, 0x13), 0x00);
    assert!(flag(&cpu, Status::Carry));
    // The carry that LSR left goes in at the right
    assert_eq!(cpu.run(), Ok(RunExit::Executed(Insn::ROL(AddressMode::Zeropage))));
    assert_eq!(cell(&cpu, 0x14), 0x01);
    assert!(flag(&cpu, Status::Carry));
    // And the one that ROL left goes in at the left
    assert_eq!(cpu.run(), Ok(RunExit::Executed(Insn::ROR(AddressMode::Zeropage))));
    assert_eq!(cell(&cpu, 0x15), 0x80);
    assert!(flag(&cpu, Status::Carry));
    assert!(flag(&cpu, Status::Negative));
}

#[test]
fn compare_sets_carry_when_the_register_is_not_below() {
    // CMP #$41; CMP #$40; CPX #$00; CPY #$ff
    let memory = ram(&[(START, &[0xc9, 0x41, 0xc9, 0x40, 0xe0, 0x00, 0xc0, 0xff])]);
    let mut cpu = cpu_at_start(memory, StackWraparound::Disallow);
    *cpu.registers_mut().a_mut() = 0x40;
    *cpu.registers_mut().x_mut() = 0x80;
    *cpu.registers_mut().y_mut() = 0x01;
    assert_eq!(cpu.run(), Ok(RunExit::Executed(Insn::CMP(AddressMode::Immediate))));
    assert!(!flag(&cpu, Status::Carry));
    assert!(!flag(&cpu, Status::Zero));
    assert!(flag(&cpu, Status::Negative));
    assert_eq!(cpu.run(), Ok(RunExit::Executed(Insn::CMP(AddressMode::Immediate))));
    assert!(flag(&cpu, Status::Carry));
    assert!(flag(&cpu, Status::Zero));
    assert!(!flag(&cpu, Status::Negative));
    assert_eq!(cpu.run(), Ok(RunExit::Executed(Insn::CPX(AddressMode::Immediate))));
    assert!(flag(&cpu, Status::Carry));
    assert!(flag(&cpu, Status::Negative));
    assert_eq!(cpu.run(), Ok(RunExit::Executed(Insn::CPY(AddressMode::Immediate))));
    assert!(!flag(&cpu, Status::Carry));
    assert!(!flag(&cpu, Status::Negative));
    assert_eq!(cpu.registers().a(), 0x40);
}

#[test]
fn bit_tests_without_changing_the_accumulator() {
    let memory = ram(&[(0x10, &[0xc0, 0x0f]), (START, &[0x24, 0x10, 0x24, 0x11])]);
    let mut cpu = cpu_at_start(memory, StackWraparound::Disallow);
    *cpu.registers_mut().a_mut() = 0x0f;
    assert_eq!(cpu.run(), Ok(RunExit::Executed(Insn::BIT(AddressMode::Zeropage))));
    assert!(flag(&cpu, Status::Zero));
    assert!(flag(&cpu, Status::Negative));
    assert!(flag(&cpu, Status::Overflow));
    assert_eq!(cpu.run(), Ok(RunExit::Executed(Insn::BIT(AddressMode::Zeropage))));
    assert!(!flag(&cpu, Status::Zero));
    assert!(!flag(&cpu, Status::Negative));
    assert!(!flag(&cpu, Status::Overflow));
    assert_eq!(cpu.registers().a(), 0x0f);
}

#[test]
fn logic_combines_the_accumulator_with_the_operand() {
    // AND #$0f; ORA #$80; EOR #$ff
    let memory = ram(&[(START, &[0x29, 0x0f, 0x09, 0x80, 0x49, 0xff])]);
    let mut cpu = cpu_at_start(memory, StackWraparound::Disallow);
    *cpu.registers_mut().a_mut() = 0x3c;
    assert_eq!(cpu.run(), Ok(RunExit::Executed(Insn::AND(AddressMode::Immediate))));
    assert_eq!(cpu.registers().a(), 0x0c);
    assert_eq!(cpu.run(), Ok(RunExit::Executed(Insn::ORA(AddressMode::Immediate))));
    assert_eq!(cpu.registers().a(), 0x8c);
    assert!(flag(&cpu, Status::Negative));
    assert_eq!(cpu.run(), Ok(RunExit::Executed(Insn::EOR(AddressMode::Immediate))));
    assert_eq!(cpu.registers().a(), 0x73);
    assert!(!flag(&cpu, Status::Negative));
}

#[test]
fn transfers_set_flags_but_for_txs() {
    // LDX #$00; TXS; LDA #$80; TAX; TAY; TSX; TXA; TYA; INX; DEX; INY; DEY
    let memory = ram(&[(
        START,
        &[0xa2, 0x00, 0x9a, 0xa9, 0x80, 0xaa, 0xa8, 0xba, 0x8a, 0x98, 0xe8, 0xca, 0xc8, 0x88],
    )]);
    let mut cpu = cpu_at_start(memory, StackWraparound::Disallow);
    assert_eq!(cpu.run(), Ok(RunExit::Executed(Insn::LDX(AddressMode::Immediate))));
    assert!(flag(&cpu, Status::Zero));
    *cpu.registers_mut().x_mut() = 0x90;
    assert_eq!(cpu.run(), Ok(RunExit::Executed(Insn::TXS)));
    assert_eq!(cpu.registers().sp(), 0x90);
    // Zero is still set, and negative is still clear
    assert!(flag(&cpu, Status::Zero));
    assert!(!flag(&cpu, Status::Negative));
    assert_eq!(cpu.run(), Ok(RunExit::Executed(Insn::LDA(AddressMode::Immediate))));
    assert_eq!(cpu.run(), Ok(RunExit::Executed(Insn::TAX)));
    assert_eq!(cpu.registers().x(), 0x80);
    assert_eq!(cpu.run(), Ok(RunExit::Executed(Insn::TAY)));
    assert_eq!(cpu.registers().y(), 0x80);
    assert!(flag(&cpu, Status::Negative));
    assert_eq!(cpu.run(), Ok(RunExit::Executed(Insn::TSX)));
    assert_eq!(cpu.registers().x(), 0x90);
    *cpu.registers_mut().x_mut() = 0x00;
    assert_eq!(cpu.run(), Ok(RunExit::Executed(Insn::TXA)));
    assert_eq!(cpu.registers().a(), 0x00);
    assert!(flag(&cpu, Status::Zero));
    assert_eq!(cpu.run(), Ok(RunExit::Executed(Insn::TYA)));
    assert_eq!(cpu.registers().a(), 0x80);
    assert_eq!(cpu.run(), Ok(RunExit::Executed(Insn::INX)));
    assert_eq!(cpu.registers().x(), 0x01);
    assert_eq!(cpu.run(), Ok(RunExit::Executed(Insn::DEX)));
    assert_eq!(cpu.registers().x(), 0x00);
    assert!(flag(&cpu, Status::Zero));
    assert_eq!(cpu.run(), Ok(RunExit::Executed(Insn::INY)));
    assert_eq!(cpu.registers().y(), 0x81);
    assert_eq!(cpu.run(), Ok(RunExit::Executed(Insn::DEY)));
    assert_eq!(cpu.registers().y(), 0x80);
}

#[test]
fn flag_instructions_set_and_clear_their_flag() {
    // SEC; SED; SEI; CLC; CLD; CLI; CLV
    let memory = ram(&[(START, &[0x38, 0xf8, 0x78, 0x18, 0xd8, 0x58, 0xb8])]);
    let mut cpu = cpu_at_start(memory, StackWraparound::Disallow);
    *cpu.registers_mut().reg_mut(Register::P) = 0x60;
    assert_eq!(cpu.run(), Ok(RunExit::Executed(Insn::SEC)));
    assert_eq!(cpu.registers().reg(Register::P), 0x61);
    assert_eq!(cpu.run(), Ok(RunExit::Executed(Insn::SED)));
    assert_eq!(cpu.registers().reg(Register::P), 0x69);
    assert_eq!(cpu.run(), Ok(RunExit::Executed(Insn::SEI)));
    assert_eq!(cpu.registers().reg(Register::P), 0x6d);
    assert_eq!(cpu.run(), Ok(RunExit::Executed(Insn::CLC)));
    assert_eq!(cpu.registers().reg(Register::P), 0x6c);
    assert_eq!(cpu.run(), Ok(RunExit::Executed(Insn::CLD)));
    assert_eq!(cpu.registers().reg(Register::P), 0x64);
    assert_eq!(cpu.run(), Ok(RunExit::Executed(Insn::CLI)));
    assert_eq!(cpu.registers().reg(Register::P), 0x60);
    assert_eq!(cpu.run(), Ok(RunExit::Executed(Insn::CLV)));
    assert_eq!(cpu.registers().reg(Register::P), 0x20);
}

#[test]
fn bit_five_stays_set_over_a_program() {
    // LDA #$00; ADC #$ff; PHP; PLA; ASL A; CMP #$10; BIT $00; SEC; SBC #$01
    let memory = ram(&[
        (
            0x1234,
            &[0xa9, 0x00, 0x69, 0xff, 0x08, 0x68, 0x0a, 0xc9, 0x10, 0x24, 0x00, 0x38, 0xe9, 0x01],
        ),
        (RESET_VECTOR, &[0x34, 0x12]),
    ]);
    let mut cpu = Mos6502::new(memory, StackWraparound::Allow);
    cpu.set_reset_pending();
    for _ in 0..9 {
        assert!(cpu.run().is_ok());
        assert!(flag(&cpu, Status::AlwaysSet));
        assert!(!flag(&cpu, Status::Break));
    }
}
