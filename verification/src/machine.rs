//! What the processor does, as functions from one state of the machine to the
//! next.
//!
//! Every operation takes the state before it and gives the state after it,
//! together with what the operation returns. A failed access to memory ends
//! an operation at once; what was done before it stays done.

use crate::alu::{
    add_with_carry, high_byte, low_byte, signed, subtract_with_borrow, word, wrap16, wrap8, Modify,
};
use crate::insns::{decode, AddressMode, Insn};
use crate::memory::{Memory, MemoryError};
use crate::regfile::{pc_moved, with_flag, Register, RegisterFile, Status};
use vstd::prelude::*;

verus! {

/// When an interrupt is signaled (by the hardware, or by the software via
/// BRK), the program counter is loaded from the word at this address.
pub const IRQ_BRK_VECTOR: u16 = 0xFFFE;

/// When a reset is requested, the program counter is loaded from the word at
/// this address.
pub const RESET_VECTOR: u16 = 0xFFFC;

/// When a non-maskable interrupt is signaled, the program counter is loaded
/// from the word at this address.
pub const NMI_VECTOR: u16 = 0xFFFA;

/// Bottom of the stack
pub const STACK_BOTTOM: u16 = 0x0100;

/// Run normal exit
#[derive(Debug, Clone, Copy, PartialEq, Eq, Structural)]
pub enum RunExit {
    /// Instruction retired
    Executed(Insn),
    /// Interrupt
    Interrupt,
    /// Non-maskable interrupt
    NonMaskableInterrupt,
}

/// Run error
#[derive(Debug, Clone, Copy, PartialEq, Eq, Structural)]
pub enum RunError {
    /// Malformed or unknown instruction was fetched
    InvalidInstruction(u8),
    /// Could not fetch the next instruction from the address
    CannotFetchInstruction(MemoryError),
    /// Stack overflow
    StackOverflow,
    /// Stack underflow
    StackUnderflow,
    /// Error occured when accessing the memory
    MemoryAccess(MemoryError),
}

/// Stack wraparound policy
#[derive(Debug, Clone, Copy, PartialEq, Eq, Structural)]
pub enum StackWraparound {
    Allow,
    Disallow,
}

/// The address of the stack's cell that the stack pointer `sp` selects.
pub open spec fn stack_address(sp: u8) -> u16 {
    (STACK_BOTTOM + sp) as u16
}

/// The status byte with the zero and negative flags set from `value`.
pub open spec fn with_nz(p: u8, value: u8) -> u8 {
    with_flag(with_flag(p, Status::Zero, value == 0), Status::Negative, value >= 0x80)
}

/// What a shift, rotate, increment or decrement leaves in the status byte:
/// zero and negative of the result, and the bit that left the byte, if one
/// did, in the carry flag.
pub open spec fn modified_status(p: u8, modify: Modify, value: u8) -> u8 {
    let nz = with_nz(p, modify.result(value));
    match modify.carry_out(value) {
        Some(carry) => with_flag(nz, Status::Carry, carry),
        None => nz,
    }
}

/// The status byte as BRK and PHP push it: with the break flag and bit 5 on.
pub open spec fn pushed_by_software(p: u8) -> u8 {
    p | Status::Break.spec_mask() | Status::AlwaysSet.spec_mask()
}

/// The status byte as an interrupt pushes it: with the break flag off and
/// bit 5 on.
pub open spec fn pushed_by_interrupt(p: u8) -> u8 {
    (p & !Status::Break.spec_mask()) | Status::AlwaysSet.spec_mask()
}

/// The status byte as PLP and RTI take it from the stack: with the break
/// flag off and bit 5 on.
pub open spec fn pulled_status(value: u8) -> u8 {
    with_flag(with_flag(value, Status::Break, false), Status::AlwaysSet, true)
}

/// The state of the machine: the memory as its model, the registers, the
/// three event lines, and the fault that jams the processor until the next
/// reset.
pub struct Machine<M: Memory> {
    pub mem: M::Model,
    pub regs: RegisterFile,
    pub reset_pending: bool,
    pub nmi_pending: bool,
    pub irq_pending: bool,
    pub fault: Option<RunError>,
    pub last_opcode: u8,
    pub policy: StackWraparound,
}

impl<M: Memory> Machine<M> {
    pub open spec fn with_regs(self, regs: RegisterFile) -> Self {
        Machine { regs, ..self }
    }

    pub open spec fn with_pc(self, pc: u16) -> Self {
        self.with_regs(RegisterFile { pc, ..self.regs })
    }

    /// The program counter moves forward over `count` bytes.
    pub open spec fn skip(self, count: int) -> Self {
        self.with_pc(pc_moved(self.regs.pc, count))
    }

    pub open spec fn with_flag(self, flag: Status, on: bool) -> Self {
        self.with_regs(self.regs.with_flag(flag, on))
    }

    /// A register receives a value, and the zero and negative flags say
    /// what the value is.
    pub open spec fn load(self, reg: Register, value: u8) -> Self {
        let loaded = self.regs.with_reg(reg, value);
        self.with_regs(RegisterFile { p: with_nz(loaded.p, value), ..loaded })
    }

    pub open spec fn read_u8(self, addr: u16) -> (Self, Result<u8, RunError>) {
        (
            Machine { mem: M::after_read(self.mem, addr), ..self },
            match M::read_result(self.mem, addr) {
                Ok(value) => Ok(value),
                Err(e) => Err(RunError::MemoryAccess(e)),
            },
        )
    }

    pub open spec fn write_u8(self, addr: u16, value: u8) -> (Self, Result<(), RunError>) {
        (
            Machine { mem: M::after_write(self.mem, addr, value), ..self },
            match M::write_result(self.mem, addr, value) {
                Ok(()) => Ok(()),
                Err(e) => Err(RunError::MemoryAccess(e)),
            },
        )
    }

    /// A word is read low byte first; the high byte is in the next cell,
    /// which for the last cell of the memory is the first.
    pub open spec fn read_u16(self, addr: u16) -> (Self, Result<u16, RunError>) {
        let (s1, lo) = self.read_u8(addr);
        match lo {
            Err(e) => (s1, Err(e)),
            Ok(lo) => {
                let (s2, hi) = s1.read_u8(wrap16(addr + 1));
                match hi {
                    Err(e) => (s2, Err(e)),
                    Ok(hi) => (s2, Ok(word(lo, hi))),
                }
            },
        }
    }

    /// A word is written low byte first.
    pub open spec fn write_u16(self, addr: u16, value: u16) -> (Self, Result<(), RunError>) {
        let (s1, lo) = self.write_u8(addr, low_byte(value));
        match lo {
            Err(e) => (s1, Err(e)),
            Ok(()) => s1.write_u8(wrap16(addr + 1), high_byte(value)),
        }
    }

    /// The byte at the program counter, which then moves past it.
    pub open spec fn operand_byte(self) -> (Self, Result<u8, RunError>) {
        let (s1, value) = self.read_u8(self.regs.pc);
        match value {
            Err(e) => (s1, Err(e)),
            Ok(value) => (s1.skip(1), Ok(value)),
        }
    }

    /// The word at the program counter, which then moves past it.
    pub open spec fn operand_word(self) -> (Self, Result<u16, RunError>) {
        let (s1, value) = self.read_u16(self.regs.pc);
        match value {
            Err(e) => (s1, Err(e)),
            Ok(value) => (s1.skip(2), Ok(value)),
        }
    }

    /// The address that an instruction works on. The program counter stands
    /// behind the opcode before, and behind the operand after.
    ///
    /// The indexed zero page modes and the pointer of the X-indirect mode
    /// wrap around within the zero page; the indexed absolute modes and the
    /// indirect-Y mode wrap around within the address space.
    #[verifier::opaque]
    pub open spec fn effective_address(self, mode: AddressMode) -> (Self, Result<u16, RunError>) {
        match mode {
            AddressMode::Immediate | AddressMode::Relative => (self.skip(1), Ok(self.regs.pc)),
            AddressMode::Zeropage => {
                let (s1, operand) = self.operand_byte();
                match operand {
                    Err(e) => (s1, Err(e)),
                    Ok(zp) => (s1, Ok(word(zp, 0))),
                }
            },
            AddressMode::ZeropageX => {
                let (s1, operand) = self.operand_byte();
                match operand {
                    Err(e) => (s1, Err(e)),
                    Ok(zp) => (s1, Ok(word(wrap8(zp + self.regs.x), 0))),
                }
            },
            AddressMode::ZeropageY => {
                let (s1, operand) = self.operand_byte();
                match operand {
                    Err(e) => (s1, Err(e)),
                    Ok(zp) => (s1, Ok(word(wrap8(zp + self.regs.y), 0))),
                }
            },
            AddressMode::Absolute => self.operand_word(),
            AddressMode::AbsoluteX => {
                let (s1, operand) = self.operand_word();
                match operand {
                    Err(e) => (s1, Err(e)),
                    Ok(base) => (s1, Ok(wrap16(base + self.regs.x))),
                }
            },
            AddressMode::AbsoluteY => {
                let (s1, operand) = self.operand_word();
                match operand {
                    Err(e) => (s1, Err(e)),
                    Ok(base) => (s1, Ok(wrap16(base + self.regs.y))),
                }
            },
            AddressMode::Indirect => {
                let (s1, operand) = self.operand_word();
                match operand {
                    Err(e) => (s1, Err(e)),
                    Ok(pointer) => s1.read_u16(pointer),
                }
            },
            AddressMode::Xindirect => {
                let (s1, operand) = self.operand_byte();
                match operand {
                    Err(e) => (s1, Err(e)),
                    Ok(zp) => s1.read_u16(word(wrap8(zp + self.regs.x), 0)),
                }
            },
            AddressMode::IndirectY => {
                let (s1, operand) = self.operand_byte();
                match operand {
                    Err(e) => (s1, Err(e)),
                    Ok(zp) => {
                        let (s2, pointer) = s1.read_u16(word(zp, 0));
                        match pointer {
                            Err(e) => (s2, Err(e)),
                            Ok(base) => (s2, Ok(wrap16(base + self.regs.y))),
                        }
                    },
                }
            },
        }
    }

    /// The byte that an instruction works on: the one at its effective
    /// address.
    pub open spec fn operand(self, mode: AddressMode) -> (Self, Result<u8, RunError>) {
        let (s1, ea) = self.effective_address(mode);
        match ea {
            Err(e) => (s1, Err(e)),
            Ok(ea) => s1.read_u8(ea),
        }
    }

    /// Loads: a register receives the operand.
    pub open spec fn mem_to_reg(self, mode: AddressMode, reg: Register) -> (
        Self,
        Result<(), RunError>,
    ) {
        let (s1, operand) = self.operand(mode);
        match operand {
            Err(e) => (s1, Err(e)),
            Ok(value) => (s1.load(reg, value), Ok(())),
        }
    }

    /// Stores: the register goes to the effective address, and no flag
    /// changes.
    pub open spec fn reg_to_mem(self, reg: Register, mode: AddressMode) -> (
        Self,
        Result<(), RunError>,
    ) {
        let (s1, ea) = self.effective_address(mode);
        match ea {
            Err(e) => (s1, Err(e)),
            Ok(ea) => s1.write_u8(ea, s1.regs.get(reg)),
        }
    }

    /// Transfers: a register receives the value of another.
    pub open spec fn reg_to_reg(self, src: Register, dst: Register) -> Self {
        self.load(dst, self.regs.get(src))
    }

    /// A byte of the memory is read, changed and written back.
    pub open spec fn read_modify_write_mem(self, mode: AddressMode, modify: Modify) -> (
        Self,
        Result<(), RunError>,
    ) {
        let (s1, ea) = self.effective_address(mode);
        match ea {
            Err(e) => (s1, Err(e)),
            Ok(ea) => {
                let (s2, value) = s1.read_u8(ea);
                match value {
                    Err(e) => (s2, Err(e)),
                    Ok(value) => {
                        let (s3, written) = s2.write_u8(ea, modify.result(value));
                        match written {
                            Err(e) => (s3, Err(e)),
                            Ok(()) => (
                                s3.with_regs(
                                    RegisterFile {
                                        p: modified_status(s3.regs.p, modify, value),
                                        ..s3.regs
                                    },
                                ),
                                Ok(()),
                            ),
                        }
                    },
                }
            },
        }
    }

    /// A register is changed in place.
    pub open spec fn read_modify_write_reg(self, reg: Register, modify: Modify) -> Self {
        let value = self.regs.get(reg);
        let changed = self.regs.with_reg(reg, modify.result(value));
        self.with_regs(RegisterFile { p: modified_status(changed.p, modify, value), ..changed })
    }

    /// A byte goes to the cell that the stack pointer selects, and the stack
    /// pointer moves down. A push with the stack pointer at zero takes the
    /// stack pointer around to the top of the stack page; where that is not
    /// allowed, it is a stack overflow.
    pub open spec fn stack_push_u8(self, value: u8) -> (Self, Result<(), RunError>) {
        let sp = self.regs.s;
        let (s1, written) = self.write_u8(stack_address(sp), value);
        match written {
            Err(e) => (s1, Err(e)),
            Ok(()) => {
                let s2 = s1.with_regs(RegisterFile { s: wrap8(sp - 1), ..s1.regs });
                if sp == 0 && self.policy == StackWraparound::Disallow {
                    (s2, Err(RunError::StackOverflow))
                } else {
                    (s2, Ok(()))
                }
            },
        }
    }

    /// The stack pointer moves up, and the byte comes from the cell that it
    /// then selects. A pull with the stack pointer at the top of the stack
    /// page takes the stack pointer around to zero; where that is not
    /// allowed, it is a stack underflow and nothing is read.
    pub open spec fn stack_pull_u8(self) -> (Self, Result<u8, RunError>) {
        let sp = wrap8(self.regs.s + 1);
        if sp == 0 && self.policy == StackWraparound::Disallow {
            (self, Err(RunError::StackUnderflow))
        } else {
            let (s1, value) = self.read_u8(stack_address(sp));
            match value {
                Err(e) => (s1, Err(e)),
                Ok(value) => (s1.with_regs(RegisterFile { s: sp, ..s1.regs }), Ok(value)),
            }
        }
    }

    /// A word is pushed high byte first.
    pub open spec fn stack_push_u16(self, value: u16) -> (Self, Result<(), RunError>) {
        let (s1, pushed) = self.stack_push_u8(high_byte(value));
        match pushed {
            Err(e) => (s1, Err(e)),
            Ok(()) => s1.stack_push_u8(low_byte(value)),
        }
    }

    /// A word is pulled low byte first.
    pub open spec fn stack_pull_u16(self) -> (Self, Result<u16, RunError>) {
        let (s1, lo) = self.stack_pull_u8();
        match lo {
            Err(e) => (s1, Err(e)),
            Ok(lo) => {
                let (s2, hi) = s1.stack_pull_u8();
                match hi {
                    Err(e) => (s2, Err(e)),
                    Ok(hi) => (s2, Ok(word(lo, hi))),
                }
            },
        }
    }

    /// A branch that is taken reads its operand as a signed displacement
    /// from the address of the next instruction; one that is not taken goes
    /// on with the next instruction.
    pub open spec fn branch(self, mode: AddressMode, taken: bool) -> (Self, Result<(), RunError>) {
        if taken {
            let (s1, operand) = self.operand(mode);
            match operand {
                Err(e) => (s1, Err(e)),
                Ok(offset) => (s1.skip(signed(offset)), Ok(())),
            }
        } else {
            (self.skip(1), Ok(()))
        }
    }

    /// Compares: the flags say how the register stands to the operand. Zero
    /// and negative are those of the difference, and carry says that the
    /// register is not below the operand.
    pub open spec fn compare_reg_mem(self, reg: Register, mode: AddressMode) -> (
        Self,
        Result<(), RunError>,
    ) {
        let (s1, operand) = self.operand(mode);
        match operand {
            Err(e) => (s1, Err(e)),
            Ok(value) => {
                let held = s1.regs.get(reg);
                let p = with_flag(
                    with_nz(s1.regs.p, wrap8(held - value)),
                    Status::Carry,
                    held >= value,
                );
                (s1.with_regs(RegisterFile { p, ..s1.regs }), Ok(()))
            },
        }
    }

    /// BIT: zero says that the accumulator and the operand share no bit;
    /// negative and overflow are bits 7 and 6 of the operand.
    pub open spec fn bit(self, mode: AddressMode) -> (Self, Result<(), RunError>) {
        let (s1, operand) = self.operand(mode);
        match operand {
            Err(e) => (s1, Err(e)),
            Ok(value) => {
                let p = with_flag(
                    with_flag(
                        with_flag(s1.regs.p, Status::Zero, value & s1.regs.a == 0),
                        Status::Negative,
                        value & 0x80 != 0,
                    ),
                    Status::Overflow,
                    value & 0x40 != 0,
                );
                (s1.with_regs(RegisterFile { p, ..s1.regs }), Ok(()))
            },
        }
    }

    /// AND, EOR, ORA: the accumulator is combined with the operand.
    pub open spec fn logic(self, mode: AddressMode, insn: Insn) -> (Self, Result<(), RunError>) {
        let (s1, operand) = self.operand(mode);
        match operand {
            Err(e) => (s1, Err(e)),
            Ok(value) => {
                let a = self.regs.a;
                let combined = match insn {
                    Insn::AND(_) => value & a,
                    Insn::EOR(_) => value ^ a,
                    _ => value | a,
                };
                (s1.load(Register::A, combined), Ok(()))
            },
        }
    }

    /// ADC and SBC: the accumulator receives the sum or the difference; zero
    /// and negative are those of the new accumulator, carry and overflow
    /// those of the arithmetic.
    pub open spec fn arithmetic(self, mode: AddressMode, subtract: bool) -> (
        Self,
        Result<(), RunError>,
    ) {
        let a = self.regs.a;
        let carry = self.regs.flag(Status::Carry);
        let decimal = self.regs.flag(Status::Decimal);
        let overflow = self.regs.flag(Status::Overflow);
        let (s1, operand) = self.operand(mode);
        match operand {
            Err(e) => (s1, Err(e)),
            Ok(value) => {
                let out = if subtract {
                    subtract_with_borrow(a, value, carry, decimal, overflow)
                } else {
                    add_with_carry(a, value, carry, decimal, overflow)
                };
                let s2 = s1.load(Register::A, out.value);
                let p = with_flag(
                    with_flag(s2.regs.p, Status::Carry, out.carry),
                    Status::Overflow,
                    out.overflow,
                );
                (s2.with_regs(RegisterFile { p, ..s2.regs }), Ok(()))
            },
        }
    }

    /// BRK: the byte behind the opcode is skipped, the program counter and
    /// the status byte are pushed, interrupts are disabled and the program
    /// counter is loaded from the vector that interrupts share.
    pub open spec fn software_interrupt(self) -> (Self, Result<(), RunError>) {
        let s0 = self.skip(1);
        let (s1, pushed) = s0.stack_push_u16(s0.regs.pc);
        match pushed {
            Err(e) => (s1, Err(e)),
            Ok(()) => {
                let (s2, pushed) = s1.stack_push_u8(pushed_by_software(s1.regs.p));
                match pushed {
                    Err(e) => (s2, Err(e)),
                    Ok(()) => {
                        let s3 = s2.with_flag(Status::InterruptDisable, true);
                        let (s4, vector) = s3.read_u16(IRQ_BRK_VECTOR);
                        match vector {
                            Err(e) => (s4, Err(e)),
                            Ok(pc) => (s4.with_pc(pc), Ok(())),
                        }
                    },
                }
            },
        }
    }

    /// JSR: the address of the last byte of the instruction is pushed, and
    /// the program counter receives the effective address.
    pub open spec fn jump_to_subroutine(self, mode: AddressMode) -> (Self, Result<(), RunError>) {
        let (s1, ea) = self.effective_address(mode);
        match ea {
            Err(e) => (s1, Err(e)),
            Ok(ea) => {
                let (s2, pushed) = s1.stack_push_u16(wrap16(s1.regs.pc - 1));
                match pushed {
                    Err(e) => (s2, Err(e)),
                    Ok(()) => (s2.with_pc(ea), Ok(())),
                }
            },
        }
    }

    /// PLP: the status byte comes from the stack.
    pub open spec fn pull_status(self) -> (Self, Result<(), RunError>) {
        let (s1, pulled) = self.stack_pull_u8();
        match pulled {
            Err(e) => (s1, Err(e)),
            Ok(value) => (
                s1.with_regs(RegisterFile { p: pulled_status(value), ..s1.regs }),
                Ok(()),
            ),
        }
    }

    /// RTI: the status byte and the program counter come from the stack.
    pub open spec fn return_from_interrupt(self) -> (Self, Result<(), RunError>) {
        let (s1, pulled) = self.pull_status();
        match pulled {
            Err(e) => (s1, Err(e)),
            Ok(()) => {
                let (s2, pc) = s1.stack_pull_u16();
                match pc {
                    Err(e) => (s2, Err(e)),
                    Ok(pc) => (s2.with_pc(pc), Ok(())),
                }
            },
        }
    }

    /// RTS: the program counter receives the address behind the one that
    /// comes from the stack.
    pub open spec fn return_from_subroutine(self) -> (Self, Result<(), RunError>) {
        let (s1, pc) = self.stack_pull_u16();
        match pc {
            Err(e) => (s1, Err(e)),
            Ok(pc) => (s1.with_pc(wrap16(pc + 1)), Ok(())),
        }
    }

    /// PLA: the accumulator comes from the stack.
    pub open spec fn pull_accumulator(self) -> (Self, Result<(), RunError>) {
        let (s1, pulled) = self.stack_pull_u8();
        match pulled {
            Err(e) => (s1, Err(e)),
            Ok(value) => (s1.load(Register::A, value), Ok(())),
        }
    }

    /// JMP: the program counter receives the effective address.
    pub open spec fn jump(self, mode: AddressMode) -> (Self, Result<(), RunError>) {
        let (s1, ea) = self.effective_address(mode);
        match ea {
            Err(e) => (s1, Err(e)),
            Ok(ea) => (s1.with_pc(ea), Ok(())),
        }
    }

    /// What an instruction does once its opcode has been fetched and the
    /// program counter stands behind the opcode.
    pub open spec fn execute(self, insn: Insn) -> (Self, Result<(), RunError>) {
        match insn {
            // Group 0b00. Flags, conditionals, jumps, misc.
            Insn::BRK => self.software_interrupt(),
            Insn::BCC(mode) => self.branch(mode, !self.regs.flag(Status::Carry)),
            Insn::BCS(mode) => self.branch(mode, self.regs.flag(Status::Carry)),
            Insn::BNE(mode) => self.branch(mode, !self.regs.flag(Status::Zero)),
            Insn::BEQ(mode) => self.branch(mode, self.regs.flag(Status::Zero)),
            Insn::BVC(mode) => self.branch(mode, !self.regs.flag(Status::Overflow)),
            Insn::BVS(mode) => self.branch(mode, self.regs.flag(Status::Overflow)),
            Insn::BPL(mode) => self.branch(mode, !self.regs.flag(Status::Negative)),
            Insn::BMI(mode) => self.branch(mode, self.regs.flag(Status::Negative)),
            Insn::BIT(mode) => self.bit(mode),
            Insn::CLC => (self.with_flag(Status::Carry, false), Ok(())),
            Insn::CLD => (self.with_flag(Status::Decimal, false), Ok(())),
            Insn::CLI => (self.with_flag(Status::InterruptDisable, false), Ok(())),
            Insn::CLV => (self.with_flag(Status::Overflow, false), Ok(())),
            Insn::CPX(mode) => self.compare_reg_mem(Register::X, mode),
            Insn::CPY(mode) => self.compare_reg_mem(Register::Y, mode),
            Insn::DEY => (self.read_modify_write_reg(Register::Y, Modify::Decrement), Ok(())),
            Insn::INX => (self.read_modify_write_reg(Register::X, Modify::Increment), Ok(())),
            Insn::INY => (self.read_modify_write_reg(Register::Y, Modify::Increment), Ok(())),
            Insn::JMP(mode) => self.jump(mode),
            Insn::JSR(mode) => self.jump_to_subroutine(mode),
            Insn::LDY(mode) => self.mem_to_reg(mode, Register::Y),
            Insn::PHA => self.stack_push_u8(self.regs.a),
            Insn::PHP => self.stack_push_u8(pushed_by_software(self.regs.p)),
            Insn::PLA => self.pull_accumulator(),
            Insn::PLP => self.pull_status(),
            Insn::RTI => self.return_from_interrupt(),
            Insn::RTS => self.return_from_subroutine(),
            Insn::SEC => (self.with_flag(Status::Carry, true), Ok(())),
            Insn::SED => (self.with_flag(Status::Decimal, true), Ok(())),
            Insn::SEI => (self.with_flag(Status::InterruptDisable, true), Ok(())),
            Insn::STY(mode) => self.reg_to_mem(Register::Y, mode),
            Insn::TAY => (self.reg_to_reg(Register::A, Register::Y), Ok(())),
            Insn::TYA => (self.reg_to_reg(Register::Y, Register::A), Ok(())),
            // Group 0b01. ALU instructions and load/store for the accumulator.
            Insn::ADC(mode) => self.arithmetic(mode, false),
            Insn::AND(mode) => self.logic(mode, insn),
            Insn::CMP(mode) => self.compare_reg_mem(Register::A, mode),
            Insn::EOR(mode) => self.logic(mode, insn),
            Insn::LDA(mode) => self.mem_to_reg(mode, Register::A),
            Insn::ORA(mode) => self.logic(mode, insn),
            Insn::SBC(mode) => self.arithmetic(mode, true),
            Insn::STA(mode) => self.reg_to_mem(Register::A, mode),
            // Group 0b10. Shifts, rotates and the operations on the X register.
            Insn::ASLA => (self.read_modify_write_reg(Register::A, Modify::ShiftLeft), Ok(())),
            Insn::ASL(mode) => self.read_modify_write_mem(mode, Modify::ShiftLeft),
            Insn::DEC(mode) => self.read_modify_write_mem(mode, Modify::Decrement),
            Insn::DEX => (self.read_modify_write_reg(Register::X, Modify::Decrement), Ok(())),
            Insn::INC(mode) => self.read_modify_write_mem(mode, Modify::Increment),
            Insn::LDX(mode) => self.mem_to_reg(mode, Register::X),
            Insn::LSRA => (self.read_modify_write_reg(Register::A, Modify::ShiftRight), Ok(())),
            Insn::LSR(mode) => self.read_modify_write_mem(mode, Modify::ShiftRight),
            Insn::NOP => (self, Ok(())),
            Insn::ROLA => (
                self.read_modify_write_reg(
                    Register::A,
                    Modify::RotateLeft(self.regs.flag(Status::Carry)),
                ),
                Ok(()),
            ),
            Insn::ROL(mode) => self.read_modify_write_mem(
                mode,
                Modify::RotateLeft(self.regs.flag(Status::Carry)),
            ),
            Insn::RORA => (
                self.read_modify_write_reg(
                    Register::A,
                    Modify::RotateRight(self.regs.flag(Status::Carry)),
                ),
                Ok(()),
            ),
            Insn::ROR(mode) => self.read_modify_write_mem(
                mode,
                Modify::RotateRight(self.regs.flag(Status::Carry)),
            ),
            Insn::STX(mode) => self.reg_to_mem(Register::X, mode),
            Insn::TAX => (self.reg_to_reg(Register::A, Register::X), Ok(())),
            Insn::TSX => (self.reg_to_reg(Register::S, Register::X), Ok(())),
            Insn::TXA => (self.reg_to_reg(Register::X, Register::A), Ok(())),
            // TXS does not update the flags.
            Insn::TXS => (
                self.with_regs(RegisterFile { s: self.regs.x, ..self.regs }),
                Ok(()),
            ),
            // Group 0b11 holds no instruction.
            Insn::JAM => (self, Err(RunError::InvalidInstruction(self.last_opcode))),
        }
    }

    /// One instruction: the opcode is fetched, the program counter moves
    /// past it, and the instruction that the opcode stands for is executed.
    pub open spec fn step(self) -> (Self, Result<RunExit, RunError>) {
        let fetched = Machine { mem: M::after_read(self.mem, self.regs.pc), ..self };
        match M::read_result(self.mem, self.regs.pc) {
            Err(e) => (fetched, Err(RunError::CannotFetchInstruction(e))),
            Ok(opcode) => {
                let insn = decode(opcode);
                let (s1, done) = (Machine { last_opcode: opcode, ..fetched }).skip(1).execute(insn);
                match done {
                    Err(e) => (s1, Err(e)),
                    Ok(()) => (s1, Ok(RunExit::Executed(insn))),
                }
            },
        }
    }

    /// Reset: the program counter is loaded from the reset vector, the
    /// fault is cleared and the flags are set as the hardware sets them.
    /// While the vector cannot be read the reset stays pending.
    pub open spec fn handle_reset(self) -> (Self, Result<(), RunError>) {
        let (s1, vector) = self.read_u16(RESET_VECTOR);
        match vector {
            Err(e) => (s1, Err(e)),
            Ok(pc) => (
                Machine {
                    regs: s1.with_pc(pc).regs.after_reset(),
                    fault: None,
                    reset_pending: false,
                    ..s1
                },
                Ok(()),
            ),
        }
    }

    /// An interrupt is taken: interrupts are disabled, the program counter
    /// and the status byte are pushed, and the program counter is loaded from
    /// the vector.
    pub open spec fn enter_interrupt(self, vector: u16) -> (Self, Result<(), RunError>) {
        let s0 = self.with_flag(Status::InterruptDisable, true);
        let (s1, pushed) = s0.stack_push_u16(s0.regs.pc);
        match pushed {
            Err(e) => (s1, Err(e)),
            Ok(()) => {
                let (s2, pushed) = s1.stack_push_u8(pushed_by_interrupt(s1.regs.p));
                match pushed {
                    Err(e) => (s2, Err(e)),
                    Ok(()) => {
                        let (s3, target) = s2.read_u16(vector);
                        match target {
                            Err(e) => (s3, Err(e)),
                            Ok(pc) => (s3.with_pc(pc), Ok(())),
                        }
                    },
                }
            },
        }
    }

    /// What `run` does once a pending reset has been handled: a fault is
    /// returned again; else a pending non-maskable interrupt is taken; else
    /// a pending interrupt, unless interrupts are disabled; else one
    /// instruction is executed. An instruction that fails leaves its fault
    /// behind and the registers as they were before it.
    pub open spec fn run_after_reset(self) -> (Self, Result<RunExit, RunError>) {
        if let Some(fault) = self.fault {
            (self, Err(fault))
        } else if self.nmi_pending {
            let (s1, entered) = self.enter_interrupt(NMI_VECTOR);
            match entered {
                Err(e) => (s1, Err(e)),
                Ok(()) => (Machine { nmi_pending: false, ..s1 }, Ok(RunExit::NonMaskableInterrupt)),
            }
        } else if !self.regs.flag(Status::InterruptDisable) && self.irq_pending {
            let (s1, entered) = self.enter_interrupt(IRQ_BRK_VECTOR);
            match entered {
                Err(e) => (s1, Err(e)),
                Ok(()) => (Machine { irq_pending: false, ..s1 }, Ok(RunExit::Interrupt)),
            }
        } else {
            let (s1, stepped) = self.step();
            match stepped {
                Err(e) => (Machine { fault: Some(e), regs: self.regs, ..s1 }, Err(e)),
                Ok(exit) => (s1, Ok(exit)),
            }
        }
    }

    /// One call of `run`: a pending reset is handled first, and then one
    /// event is serviced or one instruction is executed.
    pub open spec fn run(self) -> (Self, Result<RunExit, RunError>) {
        if self.reset_pending {
            let (s1, reset) = self.handle_reset();
            match reset {
                Err(e) => (s1, Err(e)),
                Ok(()) => s1.run_after_reset(),
            }
        } else {
            self.run_after_reset()
        }
    }
}

} // verus!
