//! Instruction table
//!
//! An opcode is read as three bit fields: the two low bits select a group,
//! the three high bits a row and the three bits between them a column. Each
//! group is a table of eight rows by eight columns.

use vstd::prelude::*;

verus! {

/// How an instruction finds its operand.
#[derive(Debug, Clone, Copy, PartialEq, Eq, Structural)]
pub enum AddressMode {
    Immediate,
    Relative,
    Xindirect,
    Indirect,
    IndirectY,
    Absolute,
    AbsoluteX,
    AbsoluteY,
    Zeropage,
    ZeropageX,
    ZeropageY,
}

/// Instruction representation: one variant per mnemonic. The shifts and
/// rotates of the accumulator are variants of their own, and `JAM` stands for
/// every opcode that is no instruction.
#[derive(Debug, Clone, Copy, PartialEq, Eq, Structural)]
pub enum Insn {
    ADC(AddressMode),
    AND(AddressMode),
    ASLA,
    ASL(AddressMode),
    BCC(AddressMode),
    BCS(AddressMode),
    BEQ(AddressMode),
    BIT(AddressMode),
    BMI(AddressMode),
    BNE(AddressMode),
    BPL(AddressMode),
    BRK,
    BVC(AddressMode),
    BVS(AddressMode),
    CLC,
    CLD,
    CLI,
    CLV,
    CMP(AddressMode),
    CPX(AddressMode),
    CPY(AddressMode),
    DEC(AddressMode),
    DEX,
    DEY,
    EOR(AddressMode),
    INC(AddressMode),
    INX,
    INY,
    JAM,
    JMP(AddressMode),
    JSR(AddressMode),
    LDA(AddressMode),
    LDX(AddressMode),
    LDY(AddressMode),
    LSRA,
    LSR(AddressMode),
    NOP,
    ORA(AddressMode),
    PHA,
    PHP,
    PLA,
    PLP,
    ROLA,
    ROL(AddressMode),
    RORA,
    ROR(AddressMode),
    RTI,
    RTS,
    SBC(AddressMode),
    SEC,
    SED,
    SEI,
    STA(AddressMode),
    STX(AddressMode),
    STY(AddressMode),
    TAX,
    TAY,
    TSX,
    TXA,
    TXS,
    TYA,
}

impl Insn {
    pub fn is_valid(&self) -> (valid: bool)
        ensures
            valid == (*self != Insn::JAM),
    {
        *self != Insn::JAM
    }
}

/// The instruction that an opcode stands for. Every opcode that is not
/// listed is `JAM`.
pub open spec fn decode(opcode: u8) -> Insn {
    match opcode {
        0x00 => Insn::BRK,
        0x01 => Insn::ORA(AddressMode::Xindirect),
        0x05 => Insn::ORA(AddressMode::Zeropage),
        0x06 => Insn::ASL(AddressMode::Zeropage),
        0x08 => Insn::PHP,
        0x09 => Insn::ORA(AddressMode::Immediate),
        0x0a => Insn::ASLA,
        0x0d => Insn::ORA(AddressMode::Absolute),
        0x0e => Insn::ASL(AddressMode::Absolute),
        0x10 => Insn::BPL(AddressMode::Relative),
        0x11 => Insn::ORA(AddressMode::IndirectY),
        0x15 => Insn::ORA(AddressMode::ZeropageX),
        0x16 => Insn::ASL(AddressMode::ZeropageX),
        0x18 => Insn::CLC,
        0x19 => Insn::ORA(AddressMode::AbsoluteY),
        0x1d => Insn::ORA(AddressMode::AbsoluteX),
        0x1e => Insn::ASL(AddressMode::AbsoluteX),
        0x20 => Insn::JSR(AddressMode::Absolute),
        0x21 => Insn::AND(AddressMode::Xindirect),
        0x24 => Insn::BIT(AddressMode::Zeropage),
        0x25 => Insn::AND(AddressMode::Zeropage),
        0x26 => Insn::ROL(AddressMode::Zeropage),
        0x28 => Insn::PLP,
        0x29 => Insn::AND(AddressMode::Immediate),
        0x2a => Insn::ROLA,
        0x2c => Insn::BIT(AddressMode::Absolute),
        0x2d => Insn::AND(AddressMode::Absolute),
        0x2e => Insn::ROL(AddressMode::Absolute),
        0x30 => Insn::BMI(AddressMode::Relative),
        0x31 => Insn::AND(AddressMode::IndirectY),
        0x35 => Insn::AND(AddressMode::ZeropageX),
        0x36 => Insn::ROL(AddressMode::ZeropageX),
        0x38 => Insn::SEC,
        0x39 => Insn::AND(AddressMode::AbsoluteY),
        0x3d => Insn::AND(AddressMode::AbsoluteX),
        0x3e => Insn::ROL(AddressMode::AbsoluteX),
        0x40 => Insn::RTI,
        0x41 => Insn::EOR(AddressMode::Xindirect),
        0x45 => Insn::EOR(AddressMode::Zeropage),
        0x46 => Insn::LSR(AddressMode::Zeropage),
        0x48 => Insn::PHA,
        0x49 => Insn::EOR(AddressMode::Immediate),
        0x4a => Insn::LSRA,
        0x4c => Insn::JMP(AddressMode::Absolute),
        0x4d => Insn::EOR(AddressMode::Absolute),
        0x4e => Insn::LSR(AddressMode::Absolute),
        0x50 => Insn::BVC(AddressMode::Relative),
        0x51 => Insn::EOR(AddressMode::IndirectY),
        0x55 => Insn::EOR(AddressMode::ZeropageX),
        0x56 => Insn::LSR(AddressMode::ZeropageX),
        0x58 => Insn::CLI,
        0x59 => Insn::EOR(AddressMode::AbsoluteY),
        0x5d => Insn::EOR(AddressMode::AbsoluteX),
        0x5e => Insn::LSR(AddressMode::AbsoluteX),
        0x60 => Insn::RTS,
        0x61 => Insn::ADC(AddressMode::Xindirect),
        0x65 => Insn::ADC(AddressMode::Zeropage),
        0x66 => Insn::ROR(AddressMode::Zeropage),
        0x68 => Insn::PLA,
        0x69 => Insn::ADC(AddressMode::Immediate),
        0x6a => Insn::RORA,
        0x6c => Insn::JMP(AddressMode::Indirect),
        0x6d => Insn::ADC(AddressMode::Absolute),
        0x6e => Insn::ROR(AddressMode::Absolute),
        0x70 => Insn::BVS(AddressMode::Relative),
        0x71 => Insn::ADC(AddressMode::IndirectY),
        0x75 => Insn::ADC(AddressMode::ZeropageX),
        0x76 => Insn::ROR(AddressMode::ZeropageX),
        0x78 => Insn::SEI,
        0x79 => Insn::ADC(AddressMode::AbsoluteY),
        0x7d => Insn::ADC(AddressMode::AbsoluteX),
        0x7e => Insn::ROR(AddressMode::AbsoluteX),
        0x81 => Insn::STA(AddressMode::Xindirect),
        0x84 => Insn::STY(AddressMode::Zeropage),
        0x85 => Insn::STA(AddressMode::Zeropage),
        0x86 => Insn::STX(AddressMode::Zeropage),
        0x88 => Insn::DEY,
        0x8a => Insn::TXA,
        0x8c => Insn::STY(AddressMode::Absolute),
        0x8d => Insn::STA(AddressMode::Absolute),
        0x8e => Insn::STX(AddressMode::Absolute),
        0x90 => Insn::BCC(AddressMode::Relative),
        0x91 => Insn::STA(AddressMode::IndirectY),
        0x94 => Insn::STY(AddressMode::ZeropageX),
        0x95 => Insn::STA(AddressMode::ZeropageX),
        0x96 => Insn::STX(AddressMode::ZeropageY),
        0x98 => Insn::TYA,
        0x99 => Insn::STA(AddressMode::AbsoluteY),
        0x9a => Insn::TXS,
        0x9d => Insn::STA(AddressMode::AbsoluteX),
        0xa0 => Insn::LDY(AddressMode::Immediate),
        0xa1 => Insn::LDA(AddressMode::Xindirect),
        0xa2 => Insn::LDX(AddressMode::Immediate),
        0xa4 => Insn::LDY(AddressMode::Zeropage),
        0xa5 => Insn::LDA(AddressMode::Zeropage),
        0xa6 => Insn::LDX(AddressMode::Zeropage),
        0xa8 => Insn::TAY,
        0xa9 => Insn::LDA(AddressMode::Immediate),
        0xaa => Insn::TAX,
        0xac => Insn::LDY(AddressMode::Absolute),
        0xad => Insn::LDA(AddressMode::Absolute),
        0xae => Insn::LDX(AddressMode::Absolute),
        0xb0 => Insn::BCS(AddressMode::Relative),
        0xb1 => Insn::LDA(AddressMode::IndirectY),
        0xb4 => Insn::LDY(AddressMode::ZeropageX),
        0xb5 => Insn::LDA(AddressMode::ZeropageX),
        0xb6 => Insn::LDX(AddressMode::ZeropageY),
        0xb8 => Insn::CLV,
        0xb9 => Insn::LDA(AddressMode::AbsoluteY),
        0xba => Insn::TSX,
        0xbc => Insn::LDY(AddressMode::AbsoluteX),
        0xbd => Insn::LDA(AddressMode::AbsoluteX),
        0xbe => Insn::LDX(AddressMode::AbsoluteY),
        0xc0 => Insn::CPY(AddressMode::Immediate),
        0xc1 => Insn::CMP(AddressMode::Xindirect),
        0xc4 => Insn::CPY(AddressMode::Zeropage),
        0xc5 => Insn::CMP(AddressMode::Zeropage),
        0xc6 => Insn::DEC(AddressMode::Zeropage),
        0xc8 => Insn::INY,
        0xc9 => Insn::CMP(AddressMode::Immediate),
        0xca => Insn::DEX,
        0xcc => Insn::CPY(AddressMode::Absolute),
        0xcd => Insn::CMP(AddressMode::Absolute),
        0xce => Insn::DEC(AddressMode::Absolute),
        0xd0 => Insn::BNE(AddressMode::Relative),
        0xd1 => Insn::CMP(AddressMode::IndirectY),
        0xd5 => Insn::CMP(AddressMode::ZeropageX),
        0xd6 => Insn::DEC(AddressMode::ZeropageX),
        0xd8 => Insn::CLD,
        0xd9 => Insn::CMP(AddressMode::AbsoluteY),
        0xdd => Insn::CMP(AddressMode::AbsoluteX),
        0xde => Insn::DEC(AddressMode::AbsoluteX),
        0xe0 => Insn::CPX(AddressMode::Immediate),
        0xe1 => Insn::SBC(AddressMode::Xindirect),
        0xe4 => Insn::CPX(AddressMode::Zeropage),
        0xe5 => Insn::SBC(AddressMode::Zeropage),
        0xe6 => Insn::INC(AddressMode::Zeropage),
        0xe8 => Insn::INX,
        0xe9 => Insn::SBC(AddressMode::Immediate),
        0xea => Insn::NOP,
        0xec => Insn::CPX(AddressMode::Absolute),
        0xed => Insn::SBC(AddressMode::Absolute),
        0xee => Insn::INC(AddressMode::Absolute),
        0xf0 => Insn::BEQ(AddressMode::Relative),
        0xf1 => Insn::SBC(AddressMode::IndirectY),
        0xf5 => Insn::SBC(AddressMode::ZeropageX),
        0xf6 => Insn::INC(AddressMode::ZeropageX),
        0xf8 => Insn::SED,
        0xf9 => Insn::SBC(AddressMode::AbsoluteY),
        0xfd => Insn::SBC(AddressMode::AbsoluteX),
        0xfe => Insn::INC(AddressMode::AbsoluteX),
        _ => Insn::JAM,
    }
}

/// The opcode of an instruction, and `0xff` for `JAM` and for a pairing of a
/// mnemonic with an addressing mode that the processor does not have.
pub open spec fn encode(insn: Insn) -> u8 {
    match insn {
        Insn::ADC(mode) => match mode {
            AddressMode::Absolute => 0x6d,
            AddressMode::AbsoluteX => 0x7d,
            AddressMode::AbsoluteY => 0x79,
            AddressMode::Immediate => 0x69,
            AddressMode::IndirectY => 0x71,
            AddressMode::Xindirect => 0x61,
            AddressMode::Zeropage => 0x65,
            AddressMode::ZeropageX => 0x75,
            _ => 0xff,
        },
        Insn::AND(mode) => match mode {
            AddressMode::Absolute => 0x2d,
            AddressMode::AbsoluteX => 0x3d,
            AddressMode::AbsoluteY => 0x39,
            AddressMode::Immediate => 0x29,
            AddressMode::IndirectY => 0x31,
            AddressMode::Xindirect => 0x21,
            AddressMode::Zeropage => 0x25,
            AddressMode::ZeropageX => 0x35,
            _ => 0xff,
        },
        Insn::ASL(mode) => match mode {
            AddressMode::Absolute => 0x0e,
            AddressMode::AbsoluteX => 0x1e,
            AddressMode::Zeropage => 0x06,
            AddressMode::ZeropageX => 0x16,
            _ => 0xff,
        },
        Insn::ASLA => 0x0a,
        Insn::BCC(mode) => match mode {
            AddressMode::Relative => 0x90,
            _ => 0xff,
        },
        Insn::BCS(mode) => match mode {
            AddressMode::Relative => 0xb0,
            _ => 0xff,
        },
        Insn::BEQ(mode) => match mode {
            AddressMode::Relative => 0xf0,
            _ => 0xff,
        },
        Insn::BIT(mode) => match mode {
            AddressMode::Absolute => 0x2c,
            AddressMode::Zeropage => 0x24,
            _ => 0xff,
        },
        Insn::BMI(mode) => match mode {
            AddressMode::Relative => 0x30,
            _ => 0xff,
        },
        Insn::BNE(mode) => match mode {
            AddressMode::Relative => 0xd0,
            _ => 0xff,
        },
        Insn::BPL(mode) => match mode {
            AddressMode::Relative => 0x10,
            _ => 0xff,
        },
        Insn::BRK => 0x00,
        Insn::BVC(mode) => match mode {
            AddressMode::Relative => 0x50,
            _ => 0xff,
        },
        Insn::BVS(mode) => match mode {
            AddressMode::Relative => 0x70,
            _ => 0xff,
        },
        Insn::CLC => 0x18,
        Insn::CLD => 0xd8,
        Insn::CLI => 0x58,
        Insn::CLV => 0xb8,
        Insn::CMP(mode) => match mode {
            AddressMode::Absolute => 0xcd,
            AddressMode::AbsoluteX => 0xdd,
            AddressMode::AbsoluteY => 0xd9,
            AddressMode::Immediate => 0xc9,
            AddressMode::IndirectY => 0xd1,
            AddressMode::Xindirect => 0xc1,
            AddressMode::Zeropage => 0xc5,
            AddressMode::ZeropageX => 0xd5,
            _ => 0xff,
        },
        Insn::CPX(mode) => match mode {
            AddressMode::Absolute => 0xec,
            AddressMode::Immediate => 0xe0,
            AddressMode::Zeropage => 0xe4,
            _ => 0xff,
        },
        Insn::CPY(mode) => match mode {
            AddressMode::Absolute => 0xcc,
            AddressMode::Immediate => 0xc0,
            AddressMode::Zeropage => 0xc4,
            _ => 0xff,
        },
        Insn::DEC(mode) => match mode {
            AddressMode::Absolute => 0xce,
            AddressMode::AbsoluteX => 0xde,
            AddressMode::Zeropage => 0xc6,
            AddressMode::ZeropageX => 0xd6,
            _ => 0xff,
        },
        Insn::DEX => 0xca,
        Insn::DEY => 0x88,
        Insn::EOR(mode) => match mode {
            AddressMode::Absolute => 0x4d,
            AddressMode::AbsoluteX => 0x5d,
            AddressMode::AbsoluteY => 0x59,
            AddressMode::Immediate => 0x49,
            AddressMode::IndirectY => 0x51,
            AddressMode::Xindirect => 0x41,
            AddressMode::Zeropage => 0x45,
            AddressMode::ZeropageX => 0x55,
            _ => 0xff,
        },
        Insn::INC(mode) => match mode {
            AddressMode::Absolute => 0xee,
            AddressMode::AbsoluteX => 0xfe,
            AddressMode::Zeropage => 0xe6,
            AddressMode::ZeropageX => 0xf6,
            _ => 0xff,
        },
        Insn::INX => 0xe8,
        Insn::INY => 0xc8,
        Insn::JMP(mode) => match mode {
            AddressMode::Absolute => 0x4c,
            AddressMode::Indirect => 0x6c,
            _ => 0xff,
        },
        Insn::JSR(mode) => match mode {
            AddressMode::Absolute => 0x20,
            _ => 0xff,
        },
        Insn::LDA(mode) => match mode {
            AddressMode::Absolute => 0xad,
            AddressMode::AbsoluteX => 0xbd,
            AddressMode::AbsoluteY => 0xb9,
            AddressMode::Immediate => 0xa9,
            AddressMode::IndirectY => 0xb1,
            AddressMode::Xindirect => 0xa1,
            AddressMode::Zeropage => 0xa5,
            AddressMode::ZeropageX => 0xb5,
            _ => 0xff,
        },
        Insn::LDX(mode) => match mode {
            AddressMode::Absolute => 0xae,
            AddressMode::AbsoluteY => 0xbe,
            AddressMode::Immediate => 0xa2,
            AddressMode::Zeropage => 0xa6,
            AddressMode::ZeropageY => 0xb6,
            _ => 0xff,
        },
        Insn::LDY(mode) => match mode {
            AddressMode::Absolute => 0xac,
            AddressMode::AbsoluteX => 0xbc,
            AddressMode::Immediate => 0xa0,
            AddressMode::Zeropage => 0xa4,
            AddressMode::ZeropageX => 0xb4,
            _ => 0xff,
        },
        Insn::LSR(mode) => match mode {
            AddressMode::Absolute => 0x4e,
            AddressMode::AbsoluteX => 0x5e,
            AddressMode::Zeropage => 0x46,
            AddressMode::ZeropageX => 0x56,
            _ => 0xff,
        },
        Insn::LSRA => 0x4a,
        Insn::NOP => 0xea,
        Insn::ORA(mode) => match mode {
            AddressMode::Absolute => 0x0d,
            AddressMode::AbsoluteX => 0x1d,
            AddressMode::AbsoluteY => 0x19,
            AddressMode::Immediate => 0x09,
            AddressMode::IndirectY => 0x11,
            AddressMode::Xindirect => 0x01,
            AddressMode::Zeropage => 0x05,
            AddressMode::ZeropageX => 0x15,
            _ => 0xff,
        },
        Insn::PHA => 0x48,
        Insn::PHP => 0x08,
        Insn::PLA => 0x68,
        Insn::PLP => 0x28,
        Insn::ROL(mode) => match mode {
            AddressMode::Absolute => 0x2e,
            AddressMode::AbsoluteX => 0x3e,
            AddressMode::Zeropage => 0x26,
            AddressMode::ZeropageX => 0x36,
            _ => 0xff,
        },
        Insn::ROLA => 0x2a,
        Insn::ROR(mode) => match mode {
            AddressMode::Absolute => 0x6e,
            AddressMode::AbsoluteX => 0x7e,
            AddressMode::Zeropage => 0x66,
            AddressMode::ZeropageX => 0x76,
            _ => 0xff,
        },
        Insn::RORA => 0x6a,
        Insn::RTI => 0x40,
        Insn::RTS => 0x60,
        Insn::SBC(mode) => match mode {
            AddressMode::Absolute => 0xed,
            AddressMode::AbsoluteX => 0xfd,
            AddressMode::AbsoluteY => 0xf9,
            AddressMode::Immediate => 0xe9,
            AddressMode::IndirectY => 0xf1,
            AddressMode::Xindirect => 0xe1,
            AddressMode::Zeropage => 0xe5,
            AddressMode::ZeropageX => 0xf5,
            _ => 0xff,
        },
        Insn::SEC => 0x38,
        Insn::SED => 0xf8,
        Insn::SEI => 0x78,
        Insn::STA(mode) => match mode {
            AddressMode::Absolute => 0x8d,
            AddressMode::AbsoluteX => 0x9d,
            AddressMode::AbsoluteY => 0x99,
            AddressMode::IndirectY => 0x91,
            AddressMode::Xindirect => 0x81,
            AddressMode::Zeropage => 0x85,
            AddressMode::ZeropageX => 0x95,
            _ => 0xff,
        },
        Insn::STX(mode) => match mode {
            AddressMode::Absolute => 0x8e,
            AddressMode::Zeropage => 0x86,
            AddressMode::ZeropageY => 0x96,
            _ => 0xff,
        },
        Insn::STY(mode) => match mode {
            AddressMode::Absolute => 0x8c,
            AddressMode::Zeropage => 0x84,
            AddressMode::ZeropageX => 0x94,
            _ => 0xff,
        },
        Insn::TAX => 0xaa,
        Insn::TAY => 0xa8,
        Insn::TSX => 0xba,
        Insn::TXA => 0x8a,
        Insn::TXS => 0x9a,
        Insn::TYA => 0x98,
        Insn::JAM => 0xff,
    }
}

/// An instruction that the processor has: one with an opcode of its own.
pub open spec fn is_instruction(insn: Insn) -> bool {
    encode(insn) != 0xff
}

/// Group of an opcode: its two low bits.
pub open spec fn group_of(opcode: u8) -> u8 {
    opcode % 4
}

/// Row of an opcode in the table of its group: its three high bits.
pub open spec fn row_of(opcode: u8) -> u8 {
    opcode / 32
}

/// Column of an opcode in the table of its group: bits 2 to 4.
pub open spec fn column_of(opcode: u8) -> u8 {
    (opcode / 4) % 8
}

/// The opcode that stands in a group's table at the given row and column.
pub open spec fn opcode_at(group: u8, row: u8, column: u8) -> u8 {
    (row * 32 + column * 4 + group) as u8
}

/// The cell of one table row that stands in the given column.
pub open spec fn pick(
    column: u8,
    c0: Insn,
    c1: Insn,
    c2: Insn,
    c3: Insn,
    c4: Insn,
    c5: Insn,
    c6: Insn,
    c7: Insn,
) -> Insn {
    match column {
        0 => c0,
        1 => c1,
        2 => c2,
        3 => c3,
        4 => c4,
        5 => c5,
        6 => c6,
        _ => c7,
    }
}

fn pick_cell(
    column: u8,
    c0: Insn,
    c1: Insn,
    c2: Insn,
    c3: Insn,
    c4: Insn,
    c5: Insn,
    c6: Insn,
    c7: Insn,
) -> (insn: Insn)
    requires
        column < 8,
    ensures
        insn == pick(column, c0, c1, c2, c3, c4, c5, c6, c7),
{
    match column {
        0 => c0,
        1 => c1,
        2 => c2,
        3 => c3,
        4 => c4,
        5 => c5,
        6 => c6,
        _ => c7,
    }
}

/// Group 0b00. Flags, conditionals, jumps, misc.
fn lookup_group_zero(row: u8, column: u8) -> (insn: Insn)
    requires
        row < 8,
        column < 8,
    ensures
        insn == decode(opcode_at(0, row, column)),
{
    match row {
        0 => pick_cell(
            column,
            Insn::BRK,
            Insn::JAM,
            Insn::PHP,
            Insn::JAM,
            Insn::BPL(AddressMode::Relative),
            Insn::JAM,
            Insn::CLC,
            Insn::JAM,
        ),
        1 => pick_cell(
            column,
            Insn::JSR(AddressMode::Absolute),
            Insn::BIT(AddressMode::Zeropage),
            Insn::PLP,
            Insn::BIT(AddressMode::Absolute),
            Insn::BMI(AddressMode::Relative),
            Insn::JAM,
            Insn::SEC,
            Insn::JAM,
        ),
        2 => pick_cell(
            column,
            Insn::RTI,
            Insn::JAM,
            Insn::PHA,
            Insn::JMP(AddressMode::Absolute),
            Insn::BVC(AddressMode::Relative),
            Insn::JAM,
            Insn::CLI,
            Insn::JAM,
        ),
        3 => pick_cell(
            column,
            Insn::RTS,
            Insn::JAM,
            Insn::PLA,
            Insn::JMP(AddressMode::Indirect),
            Insn::BVS(AddressMode::Relative),
            Insn::JAM,
            Insn::SEI,
            Insn::JAM,
        ),
        4 => pick_cell(
            column,
            Insn::JAM,
            Insn::STY(AddressMode::Zeropage),
            Insn::DEY,
            Insn::STY(AddressMode::Absolute),
            Insn::BCC(AddressMode::Relative),
            Insn::STY(AddressMode::ZeropageX),
            Insn::TYA,
            Insn::JAM,
        ),
        5 => pick_cell(
            column,
            Insn::LDY(AddressMode::Immediate),
            Insn::LDY(AddressMode::Zeropage),
            Insn::TAY,
            Insn::LDY(AddressMode::Absolute),
            Insn::BCS(AddressMode::Relative),
            Insn::LDY(AddressMode::ZeropageX),
            Insn::CLV,
            Insn::LDY(AddressMode::AbsoluteX),
        ),
        6 => pick_cell(
            column,
            Insn::CPY(AddressMode::Immediate),
            Insn::CPY(AddressMode::Zeropage),
            Insn::INY,
            Insn::CPY(AddressMode::Absolute),
            Insn::BNE(AddressMode::Relative),
            Insn::JAM,
            Insn::CLD,
            Insn::JAM,
        ),
        _ => pick_cell(
            column,
            Insn::CPX(AddressMode::Immediate),
            Insn::CPX(AddressMode::Zeropage),
            Insn::INX,
            Insn::CPX(AddressMode::Absolute),
            Insn::BEQ(AddressMode::Relative),
            Insn::JAM,
            Insn::SED,
            Insn::JAM,
        ),
    }
}

/// Group 0b01. ALU instructions and load/store for the accumulator, with
/// the most regular encoding of the three.
fn lookup_group_one(row: u8, column: u8) -> (insn: Insn)
    requires
        row < 8,
        column < 8,
    ensures
        insn == decode(opcode_at(1, row, column)),
{
    match row {
        0 => pick_cell(
            column,
            Insn::ORA(AddressMode::Xindirect),
            Insn::ORA(AddressMode::Zeropage),
            Insn::ORA(AddressMode::Immediate),
            Insn::ORA(AddressMode::Absolute),
            Insn::ORA(AddressMode::IndirectY),
            Insn::ORA(AddressMode::ZeropageX),
            Insn::ORA(AddressMode::AbsoluteY),
            Insn::ORA(AddressMode::AbsoluteX),
        ),
        1 => pick_cell(
            column,
            Insn::AND(AddressMode::Xindirect),
            Insn::AND(AddressMode::Zeropage),
            Insn::AND(AddressMode::Immediate),
            Insn::AND(AddressMode::Absolute),
            Insn::AND(AddressMode::IndirectY),
            Insn::AND(AddressMode::ZeropageX),
            Insn::AND(AddressMode::AbsoluteY),
            Insn::AND(AddressMode::AbsoluteX),
        ),
        2 => pick_cell(
            column,
            Insn::EOR(AddressMode::Xindirect),
            Insn::EOR(AddressMode::Zeropage),
            Insn::EOR(AddressMode::Immediate),
            Insn::EOR(AddressMode::Absolute),
            Insn::EOR(AddressMode::IndirectY),
            Insn::EOR(AddressMode::ZeropageX),
            Insn::EOR(AddressMode::AbsoluteY),
            Insn::EOR(AddressMode::AbsoluteX),
        ),
        3 => pick_cell(
            column,
            Insn::ADC(AddressMode::Xindirect),
            Insn::ADC(AddressMode::Zeropage),
            Insn::ADC(AddressMode::Immediate),
            Insn::ADC(AddressMode::Absolute),
            Insn::ADC(AddressMode::IndirectY),
            Insn::ADC(AddressMode::ZeropageX),
            Insn::ADC(AddressMode::AbsoluteY),
            Insn::ADC(AddressMode::AbsoluteX),
        ),
        4 => pick_cell(
            column,
            Insn::STA(AddressMode::Xindirect),
            Insn::STA(AddressMode::Zeropage),
            Insn::JAM,
            Insn::STA(AddressMode::Absolute),
            Insn::STA(AddressMode::IndirectY),
            Insn::STA(AddressMode::ZeropageX),
            Insn::STA(AddressMode::AbsoluteY),
            Insn::STA(AddressMode::AbsoluteX),
        ),
        5 => pick_cell(
            column,
            Insn::LDA(AddressMode::Xindirect),
            Insn::LDA(AddressMode::Zeropage),
            Insn::LDA(AddressMode::Immediate),
            Insn::LDA(AddressMode::Absolute),
            Insn::LDA(AddressMode::IndirectY),
            Insn::LDA(AddressMode::ZeropageX),
            Insn::LDA(AddressMode::AbsoluteY),
            Insn::LDA(AddressMode::AbsoluteX),
        ),
        6 => pick_cell(
            column,
            Insn::CMP(AddressMode::Xindirect),
            Insn::CMP(AddressMode::Zeropage),
            Insn::CMP(AddressMode::Immediate),
            Insn::CMP(AddressMode::Absolute),
            Insn::CMP(AddressMode::IndirectY),
            Insn::CMP(AddressMode::ZeropageX),
            Insn::CMP(AddressMode::AbsoluteY),
            Insn::CMP(AddressMode::AbsoluteX),
        ),
        _ => pick_cell(
            column,
            Insn::SBC(AddressMode::Xindirect),
            Insn::SBC(AddressMode::Zeropage),
            Insn::SBC(AddressMode::Immediate),
            Insn::SBC(AddressMode::Absolute),
            Insn::SBC(AddressMode::IndirectY),
            Insn::SBC(AddressMode::ZeropageX),
            Insn::SBC(AddressMode::AbsoluteY),
            Insn::SBC(AddressMode::AbsoluteX),
        ),
    }
}

/// Group 0b10. Shifts, rotates and the operations on the X register.
fn lookup_group_two(row: u8, column: u8) -> (insn: Insn)
    requires
        row < 8,
        column < 8,
    ensures
        insn == decode(opcode_at(2, row, column)),
{
    match row {
        0 => pick_cell(
            column,
            Insn::JAM,
            Insn::ASL(AddressMode::Zeropage),
            Insn::ASLA,
            Insn::ASL(AddressMode::Absolute),
            Insn::JAM,
            Insn::ASL(AddressMode::ZeropageX),
            Insn::JAM,
            Insn::ASL(AddressMode::AbsoluteX),
        ),
        1 => pick_cell(
            column,
            Insn::JAM,
            Insn::ROL(AddressMode::Zeropage),
            Insn::ROLA,
            Insn::ROL(AddressMode::Absolute),
            Insn::JAM,
            Insn::ROL(AddressMode::ZeropageX),
            Insn::JAM,
            Insn::ROL(AddressMode::AbsoluteX),
        ),
        2 => pick_cell(
            column,
            Insn::JAM,
            Insn::LSR(AddressMode::Zeropage),
            Insn::LSRA,
            Insn::LSR(AddressMode::Absolute),
            Insn::JAM,
            Insn::LSR(AddressMode::ZeropageX),
            Insn::JAM,
            Insn::LSR(AddressMode::AbsoluteX),
        ),
        3 => pick_cell(
            column,
            Insn::JAM,
            Insn::ROR(AddressMode::Zeropage),
            Insn::RORA,
            Insn::ROR(AddressMode::Absolute),
            Insn::JAM,
            Insn::ROR(AddressMode::ZeropageX),
            Insn::JAM,
            Insn::ROR(AddressMode::AbsoluteX),
        ),
        4 => pick_cell(
            column,
            Insn::JAM,
            Insn::STX(AddressMode::Zeropage),
            Insn::TXA,
            Insn::STX(AddressMode::Absolute),
            Insn::JAM,
            Insn::STX(AddressMode::ZeropageY),
            Insn::TXS,
            Insn::JAM,
        ),
        5 => pick_cell(
            column,
            Insn::LDX(AddressMode::Immediate),
            Insn::LDX(AddressMode::Zeropage),
            Insn::TAX,
            Insn::LDX(AddressMode::Absolute),
            Insn::JAM,
            Insn::LDX(AddressMode::ZeropageY),
            Insn::TSX,
            Insn::LDX(AddressMode::AbsoluteY),
        ),
        6 => pick_cell(
            column,
            Insn::JAM,
            Insn::DEC(AddressMode::Zeropage),
            Insn::DEX,
            Insn::DEC(AddressMode::Absolute),
            Insn::JAM,
            Insn::DEC(AddressMode::ZeropageX),
            Insn::JAM,
            Insn::DEC(AddressMode::AbsoluteX),
        ),
        _ => pick_cell(
            column,
            Insn::JAM,
            Insn::INC(AddressMode::Zeropage),
            Insn::NOP,
            Insn::INC(AddressMode::Absolute),
            Insn::JAM,
            Insn::INC(AddressMode::ZeropageX),
            Insn::JAM,
            Insn::INC(AddressMode::AbsoluteX),
        ),
    }
}

/// The bit fields of an opcode, read off with shifts and masks, are its
/// group, row and column, and they give the opcode back.
pub proof fn lemma_opcode_fields(opcode: u8)
    ensures
        opcode & 0b11 == group_of(opcode),
        opcode >> 5 == row_of(opcode),
        (opcode >> 2) & 0b111 == column_of(opcode),
        group_of(opcode) < 4,
        row_of(opcode) < 8,
        column_of(opcode) < 8,
        opcode_at(group_of(opcode), row_of(opcode), column_of(opcode)) == opcode,
{
    assert(opcode & 0b11 == opcode % 4 && opcode >> 5 == opcode / 32 && (opcode >> 2) & 0b111 == (
    opcode / 4) % 8) by (bit_vector);
}

/// Decodes by looking the opcode up in the table of its group, at its row
/// and column.
pub fn decode_insn(opcode: u8) -> (insn: Insn)
    ensures
        insn == decode(opcode),
{
    let group: u8 = opcode & 0b11;
    let row: u8 = opcode >> 5;
    let column: u8 = (opcode >> 2) & 0b111;
    proof {
        lemma_opcode_fields(opcode);
    }
    match group {
        0 => lookup_group_zero(row, column),
        1 => lookup_group_one(row, column),
        2 => lookup_group_two(row, column),
        _ => Insn::JAM,
    }
}

pub fn encode_insn(insn: Insn) -> (opcode: u8)
    ensures
        opcode == encode(insn),
{
    match insn {
        Insn::ADC(mode) => match mode {
            AddressMode::Absolute => 0x6d,
            AddressMode::AbsoluteX => 0x7d,
            AddressMode::AbsoluteY => 0x79,
            AddressMode::Immediate => 0x69,
            AddressMode::IndirectY => 0x71,
            AddressMode::Xindirect => 0x61,
            AddressMode::Zeropage => 0x65,
            AddressMode::ZeropageX => 0x75,
            _ => 0xff,
        },
        Insn::AND(mode) => match mode {
            AddressMode::Absolute => 0x2d,
            AddressMode::AbsoluteX => 0x3d,
            AddressMode::AbsoluteY => 0x39,
            AddressMode::Immediate => 0x29,
            AddressMode::IndirectY => 0x31,
            AddressMode::Xindirect => 0x21,
            AddressMode::Zeropage => 0x25,
            AddressMode::ZeropageX => 0x35,
            _ => 0xff,
        },
        Insn::ASL(mode) => match mode {
            AddressMode::Absolute => 0x0e,
            AddressMode::AbsoluteX => 0x1e,
            AddressMode::Zeropage => 0x06,
            AddressMode::ZeropageX => 0x16,
            _ => 0xff,
        },
        Insn::ASLA => 0x0a,
        Insn::BCC(mode) => match mode {
            AddressMode::Relative => 0x90,
            _ => 0xff,
        },
        Insn::BCS(mode) => match mode {
            AddressMode::Relative => 0xb0,
            _ => 0xff,
        },
        Insn::BEQ(mode) => match mode {
            AddressMode::Relative => 0xf0,
            _ => 0xff,
        },
        Insn::BIT(mode) => match mode {
            AddressMode::Absolute => 0x2c,
            AddressMode::Zeropage => 0x24,
            _ => 0xff,
        },
        Insn::BMI(mode) => match mode {
            AddressMode::Relative => 0x30,
            _ => 0xff,
        },
        Insn::BNE(mode) => match mode {
            AddressMode::Relative => 0xd0,
            _ => 0xff,
        },
        Insn::BPL(mode) => match mode {
            AddressMode::Relative => 0x10,
            _ => 0xff,
        },
        Insn::BRK => 0x00,
        Insn::BVC(mode) => match mode {
            AddressMode::Relative => 0x50,
            _ => 0xff,
        },
        Insn::BVS(mode) => match mode {
            AddressMode::Relative => 0x70,
            _ => 0xff,
        },
        Insn::CLC => 0x18,
        Insn::CLD => 0xd8,
        Insn::CLI => 0x58,
        Insn::CLV => 0xb8,
        Insn::CMP(mode) => match mode {
            AddressMode::Absolute => 0xcd,
            AddressMode::AbsoluteX => 0xdd,
            AddressMode::AbsoluteY => 0xd9,
            AddressMode::Immediate => 0xc9,
            AddressMode::IndirectY => 0xd1,
            AddressMode::Xindirect => 0xc1,
            AddressMode::Zeropage => 0xc5,
            AddressMode::ZeropageX => 0xd5,
            _ => 0xff,
        },
        Insn::CPX(mode) => match mode {
            AddressMode::Absolute => 0xec,
            AddressMode::Immediate => 0xe0,
            AddressMode::Zeropage => 0xe4,
            _ => 0xff,
        },
        Insn::CPY(mode) => match mode {
            AddressMode::Absolute => 0xcc,
            AddressMode::Immediate => 0xc0,
            AddressMode::Zeropage => 0xc4,
            _ => 0xff,
        },
        Insn::DEC(mode) => match mode {
            AddressMode::Absolute => 0xce,
            AddressMode::AbsoluteX => 0xde,
            AddressMode::Zeropage => 0xc6,
            AddressMode::ZeropageX => 0xd6,
            _ => 0xff,
        },
        Insn::DEX => 0xca,
        Insn::DEY => 0x88,
        Insn::EOR(mode) => match mode {
            AddressMode::Absolute => 0x4d,
            AddressMode::AbsoluteX => 0x5d,
            AddressMode::AbsoluteY => 0x59,
            AddressMode::Immediate => 0x49,
            AddressMode::IndirectY => 0x51,
            AddressMode::Xindirect => 0x41,
            AddressMode::Zeropage => 0x45,
            AddressMode::ZeropageX => 0x55,
            _ => 0xff,
        },
        Insn::INC(mode) => match mode {
            AddressMode::Absolute => 0xee,
            AddressMode::AbsoluteX => 0xfe,
            AddressMode::Zeropage => 0xe6,
            AddressMode::ZeropageX => 0xf6,
            _ => 0xff,
        },
        Insn::INX => 0xe8,
        Insn::INY => 0xc8,
        Insn::JMP(mode) => match mode {
            AddressMode::Absolute => 0x4c,
            AddressMode::Indirect => 0x6c,
            _ => 0xff,
        },
        Insn::JSR(mode) => match mode {
            AddressMode::Absolute => 0x20,
            _ => 0xff,
        },
        Insn::LDA(mode) => match mode {
            AddressMode::Absolute => 0xad,
            AddressMode::AbsoluteX => 0xbd,
            AddressMode::AbsoluteY => 0xb9,
            AddressMode::Immediate => 0xa9,
            AddressMode::IndirectY => 0xb1,
            AddressMode::Xindirect => 0xa1,
            AddressMode::Zeropage => 0xa5,
            AddressMode::ZeropageX => 0xb5,
            _ => 0xff,
        },
        Insn::LDX(mode) => match mode {
            AddressMode::Absolute => 0xae,
            AddressMode::AbsoluteY => 0xbe,
            AddressMode::Immediate => 0xa2,
            AddressMode::Zeropage => 0xa6,
            AddressMode::ZeropageY => 0xb6,
            _ => 0xff,
        },
        Insn::LDY(mode) => match mode {
            AddressMode::Absolute => 0xac,
            AddressMode::AbsoluteX => 0xbc,
            AddressMode::Immediate => 0xa0,
            AddressMode::Zeropage => 0xa4,
            AddressMode::ZeropageX => 0xb4,
            _ => 0xff,
        },
        Insn::LSR(mode) => match mode {
            AddressMode::Absolute => 0x4e,
            AddressMode::AbsoluteX => 0x5e,
            AddressMode::Zeropage => 0x46,
            AddressMode::ZeropageX => 0x56,
            _ => 0xff,
        },
        Insn::LSRA => 0x4a,
        Insn::NOP => 0xea,
        Insn::ORA(mode) => match mode {
            AddressMode::Absolute => 0x0d,
            AddressMode::AbsoluteX => 0x1d,
            AddressMode::AbsoluteY => 0x19,
            AddressMode::Immediate => 0x09,
            AddressMode::IndirectY => 0x11,
            AddressMode::Xindirect => 0x01,
            AddressMode::Zeropage => 0x05,
            AddressMode::ZeropageX => 0x15,
            _ => 0xff,
        },
        Insn::PHA => 0x48,
        Insn::PHP => 0x08,
        Insn::PLA => 0x68,
        Insn::PLP => 0x28,
        Insn::ROL(mode) => match mode {
            AddressMode::Absolute => 0x2e,
            AddressMode::AbsoluteX => 0x3e,
            AddressMode::Zeropage => 0x26,
            AddressMode::ZeropageX => 0x36,
            _ => 0xff,
        },
        Insn::ROLA => 0x2a,
        Insn::ROR(mode) => match mode {
            AddressMode::Absolute => 0x6e,
            AddressMode::AbsoluteX => 0x7e,
            AddressMode::Zeropage => 0x66,
            AddressMode::ZeropageX => 0x76,
            _ => 0xff,
        },
        Insn::RORA => 0x6a,
        Insn::RTI => 0x40,
        Insn::RTS => 0x60,
        Insn::SBC(mode) => match mode {
            AddressMode::Absolute => 0xed,
            AddressMode::AbsoluteX => 0xfd,
            AddressMode::AbsoluteY => 0xf9,
            AddressMode::Immediate => 0xe9,
            AddressMode::IndirectY => 0xf1,
            AddressMode::Xindirect => 0xe1,
            AddressMode::Zeropage => 0xe5,
            AddressMode::ZeropageX => 0xf5,
            _ => 0xff,
        },
        Insn::SEC => 0x38,
        Insn::SED => 0xf8,
        Insn::SEI => 0x78,
        Insn::STA(mode) => match mode {
            AddressMode::Absolute => 0x8d,
            AddressMode::AbsoluteX => 0x9d,
            AddressMode::AbsoluteY => 0x99,
            AddressMode::IndirectY => 0x91,
            AddressMode::Xindirect => 0x81,
            AddressMode::Zeropage => 0x85,
            AddressMode::ZeropageX => 0x95,
            _ => 0xff,
        },
        Insn::STX(mode) => match mode {
            AddressMode::Absolute => 0x8e,
            AddressMode::Zeropage => 0x86,
            AddressMode::ZeropageY => 0x96,
            _ => 0xff,
        },
        Insn::STY(mode) => match mode {
            AddressMode::Absolute => 0x8c,
            AddressMode::Zeropage => 0x84,
            AddressMode::ZeropageX => 0x94,
            _ => 0xff,
        },
        Insn::TAX => 0xaa,
        Insn::TAY => 0xa8,
        Insn::TSX => 0xba,
        Insn::TXA => 0x8a,
        Insn::TXS => 0x9a,
        Insn::TYA => 0x98,
        Insn::JAM => 0xff,
    }
}

/// Decoding an opcode and encoding the instruction gives the opcode back,
/// unless the opcode is no instruction.
pub proof fn lemma_encode_decode(opcode: u8)
    requires
        decode(opcode) != Insn::JAM,
    ensures
        encode(decode(opcode)) == opcode,
        is_instruction(decode(opcode)),
{
    match opcode {
        0x00 => {},
        0x01 => {},
        0x05 => {},
        0x06 => {},
        0x08 => {},
        0x09 => {},
        0x0a => {},
        0x0d => {},
        0x0e => {},
        0x10 => {},
        0x11 => {},
        0x15 => {},
        0x16 => {},
        0x18 => {},
        0x19 => {},
        0x1d => {},
        0x1e => {},
        0x20 => {},
        0x21 => {},
        0x24 => {},
        0x25 => {},
        0x26 => {},
        0x28 => {},
        0x29 => {},
        0x2a => {},
        0x2c => {},
        0x2d => {},
        0x2e => {},
        0x30 => {},
        0x31 => {},
        0x35 => {},
        0x36 => {},
        0x38 => {},
        0x39 => {},
        0x3d => {},
        0x3e => {},
        0x40 => {},
        0x41 => {},
        0x45 => {},
        0x46 => {},
        0x48 => {},
        0x49 => {},
        0x4a => {},
        0x4c => {},
        0x4d => {},
        0x4e => {},
        0x50 => {},
        0x51 => {},
        0x55 => {},
        0x56 => {},
        0x58 => {},
        0x59 => {},
        0x5d => {},
        0x5e => {},
        0x60 => {},
        0x61 => {},
        0x65 => {},
        0x66 => {},
        0x68 => {},
        0x69 => {},
        0x6a => {},
        0x6c => {},
        0x6d => {},
        0x6e => {},
        0x70 => {},
        0x71 => {},
        0x75 => {},
        0x76 => {},
        0x78 => {},
        0x79 => {},
        0x7d => {},
        0x7e => {},
        0x81 => {},
        0x84 => {},
        0x85 => {},
        0x86 => {},
        0x88 => {},
        0x8a => {},
        0x8c => {},
        0x8d => {},
        0x8e => {},
        0x90 => {},
        0x91 => {},
        0x94 => {},
        0x95 => {},
        0x96 => {},
        0x98 => {},
        0x99 => {},
        0x9a => {},
        0x9d => {},
        0xa0 => {},
        0xa1 => {},
        0xa2 => {},
        0xa4 => {},
        0xa5 => {},
        0xa6 => {},
        0xa8 => {},
        0xa9 => {},
        0xaa => {},
        0xac => {},
        0xad => {},
        0xae => {},
        0xb0 => {},
        0xb1 => {},
        0xb4 => {},
        0xb5 => {},
        0xb6 => {},
        0xb8 => {},
        0xb9 => {},
        0xba => {},
        0xbc => {},
        0xbd => {},
        0xbe => {},
        0xc0 => {},
        0xc1 => {},
        0xc4 => {},
        0xc5 => {},
        0xc6 => {},
        0xc8 => {},
        0xc9 => {},
        0xca => {},
        0xcc => {},
        0xcd => {},
        0xce => {},
        0xd0 => {},
        0xd1 => {},
        0xd5 => {},
        0xd6 => {},
        0xd8 => {},
        0xd9 => {},
        0xdd => {},
        0xde => {},
        0xe0 => {},
        0xe1 => {},
        0xe4 => {},
        0xe5 => {},
        0xe6 => {},
        0xe8 => {},
        0xe9 => {},
        0xea => {},
        0xec => {},
        0xed => {},
        0xee => {},
        0xf0 => {},
        0xf1 => {},
        0xf5 => {},
        0xf6 => {},
        0xf8 => {},
        0xf9 => {},
        0xfd => {},
        0xfe => {},
        _ => {},
    }
}

/// Encoding an instruction that the processor has and decoding the opcode
/// gives the instruction back: together with the law above, opcodes and
/// instructions correspond one to one.
pub proof fn lemma_decode_encode(insn: Insn)
    requires
        is_instruction(insn),
    ensures
        decode(encode(insn)) == insn,
        insn != Insn::JAM,
{
    match insn {
        Insn::ADC(mode) => {},
        Insn::AND(mode) => {},
        Insn::ASL(mode) => {},
        Insn::ASLA => {},
        Insn::BCC(mode) => {},
        Insn::BCS(mode) => {},
        Insn::BEQ(mode) => {},
        Insn::BIT(mode) => {},
        Insn::BMI(mode) => {},
        Insn::BNE(mode) => {},
        Insn::BPL(mode) => {},
        Insn::BRK => {},
        Insn::BVC(mode) => {},
        Insn::BVS(mode) => {},
        Insn::CLC => {},
        Insn::CLD => {},
        Insn::CLI => {},
        Insn::CLV => {},
        Insn::CMP(mode) => {},
        Insn::CPX(mode) => {},
        Insn::CPY(mode) => {},
        Insn::DEC(mode) => {},
        Insn::DEX => {},
        Insn::DEY => {},
        Insn::EOR(mode) => {},
        Insn::INC(mode) => {},
        Insn::INX => {},
        Insn::INY => {},
        Insn::JMP(mode) => {},
        Insn::JSR(mode) => {},
        Insn::LDA(mode) => {},
        Insn::LDX(mode) => {},
        Insn::LDY(mode) => {},
        Insn::LSR(mode) => {},
        Insn::LSRA => {},
        Insn::NOP => {},
        Insn::ORA(mode) => {},
        Insn::PHA => {},
        Insn::PHP => {},
        Insn::PLA => {},
        Insn::PLP => {},
        Insn::ROL(mode) => {},
        Insn::ROLA => {},
        Insn::ROR(mode) => {},
        Insn::RORA => {},
        Insn::RTI => {},
        Insn::RTS => {},
        Insn::SBC(mode) => {},
        Insn::SEC => {},
        Insn::SED => {},
        Insn::SEI => {},
        Insn::STA(mode) => {},
        Insn::STX(mode) => {},
        Insn::STY(mode) => {},
        Insn::TAX => {},
        Insn::TAY => {},
        Insn::TSX => {},
        Insn::TXA => {},
        Insn::TXS => {},
        Insn::TYA => {},
        Insn::JAM => {},
    }
}

/// No opcode whose two low bits are both set is an instruction.
pub proof fn lemma_group_three_is_jam(opcode: u8)
    requires
        opcode & 0b11 == 0b11,
    ensures
        decode(opcode) == Insn::JAM,
{
    lemma_opcode_fields(opcode);
}

/// Two opcodes that stand for the same instruction are the same opcode.
pub proof fn lemma_decode_injective(first: u8, second: u8)
    requires
        decode(first) == decode(second),
        decode(first) != Insn::JAM,
    ensures
        first == second,
{
    lemma_encode_decode(first);
    lemma_encode_decode(second);
}

} // verus!
