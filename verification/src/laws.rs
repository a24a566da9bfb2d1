//! Laws of the machine: what holds of every state and every memory.

use crate::alu::{
    add_with_carry, high_byte, lemma_wrap16, lemma_wrap8, low_byte, signed, subtract_with_borrow,
    word, wrap16, wrap8, Modify,
};
use crate::insns::{decode, AddressMode, Insn};
use crate::machine::{
    modified_status, pulled_status, pushed_by_interrupt, pushed_by_software, stack_address,
    with_nz, Machine, RunError, RunExit, IRQ_BRK_VECTOR, NMI_VECTOR,
};
use crate::memory::{Memory, MemoryError, RomRam};
use crate::regfile::{has_flag, lemma_with_flag, with_flag, Register, RegisterFile, Status};
use vstd::prelude::*;

verus! {

/// Two states of the machine that differ in the memory and in the program
/// counter at most.
pub open spec fn same_but_memory_and_pc<M: Memory>(before: Machine<M>, after: Machine<M>) -> bool {
    after == (Machine::<M> {
        mem: after.mem,
        regs: RegisterFile { pc: after.regs.pc, ..before.regs },
        ..before
    })
}

/// Finding the effective address changes no register but the program
/// counter.
pub proof fn lemma_effective_address_keeps_registers<M: Memory>(s: Machine<M>, mode: AddressMode)
    ensures
        same_but_memory_and_pc(s, s.effective_address(mode).0),
{
    reveal(Machine::effective_address);
}

/// The number of bytes that the operand of an instruction takes.
pub open spec fn operand_length(mode: AddressMode) -> int {
    match mode {
        AddressMode::Absolute
        | AddressMode::AbsoluteX
        | AddressMode::AbsoluteY
        | AddressMode::Indirect => 2,
        _ => 1,
    }
}

/// Once the effective address is found, the program counter stands behind
/// the operand.
pub proof fn lemma_operand_is_skipped<M: Memory>(s: Machine<M>, mode: AddressMode)
    requires
        s.effective_address(mode).1 is Ok,
    ensures
        s.effective_address(mode).0.regs.pc == wrap16(s.regs.pc + operand_length(mode)),
{
    reveal(Machine::effective_address);
}

/// Reading the operand changes no register but the program counter.
pub proof fn lemma_operand_keeps_registers<M: Memory>(s: Machine<M>, mode: AddressMode)
    ensures
        same_but_memory_and_pc(s, s.operand(mode).0),
{
    lemma_effective_address_keeps_registers(s, mode);
}

/// Stores change no flag, and no register but the program counter.
pub proof fn lemma_store_keeps_registers<M: Memory>(s: Machine<M>, reg: Register, mode: AddressMode)
    ensures
        same_but_memory_and_pc(s, s.reg_to_mem(reg, mode).0),
{
    lemma_effective_address_keeps_registers(s, mode);
}

/// The cell that a stack pointer selects lies in the stack page,
/// `0x0100..=0x01FF`, whatever the stack pointer is.
pub proof fn lemma_stack_address_in_page(sp: u8)
    ensures
        0x0100 <= stack_address(sp) <= 0x01FF,
        stack_address(sp) == 0x0100 + sp,
{
}

/// A push writes one cell of the stack page, the one that the stack pointer
/// selects, and touches no other cell.
pub proof fn lemma_push_touches_stack_page<M: Memory>(s: Machine<M>, value: u8)
    ensures
        ({
            let addr = stack_address(s.regs.s);
            &&& 0x0100 <= addr <= 0x01FF
            &&& s.stack_push_u8(value).0.mem == M::after_write(s.mem, addr, value)
        }),
{
}

/// A pull reads one cell of the stack page, the one above the stack pointer,
/// and touches no other cell; a pull that underflows touches none.
pub proof fn lemma_pull_touches_stack_page<M: Memory>(s: Machine<M>)
    ensures
        ({
            let addr = stack_address(wrap8(s.regs.s + 1));
            &&& 0x0100 <= addr <= 0x01FF
            &&& s.stack_pull_u8().1 == Err::<u8, RunError>(RunError::StackUnderflow)
                ==> s.stack_pull_u8().0 == s
            &&& s.stack_pull_u8().1 != Err::<u8, RunError>(RunError::StackUnderflow)
                ==> s.stack_pull_u8().0.mem == M::after_read(s.mem, addr)
        }),
{
}

/// A branch that is taken leaves the program counter at the address behind
/// its operand, moved by the operand read as a signed byte, modulo 2^16. One
/// that is not taken leaves it at the address behind its operand.
pub proof fn lemma_branch_target<M: Memory>(s: Machine<M>, offset: u8)
    requires
        M::read_result(s.mem, s.regs.pc) == Ok::<u8, MemoryError>(offset),
    ensures
        s.branch(AddressMode::Relative, true).1 is Ok,
        s.branch(AddressMode::Relative, true).0.regs.pc == wrap16(s.regs.pc + 1 + signed(offset)),
        s.branch(AddressMode::Relative, false).1 is Ok,
        s.branch(AddressMode::Relative, false).0.regs.pc == wrap16(s.regs.pc + 1),
        same_but_memory_and_pc(s, s.branch(AddressMode::Relative, true).0),
        s.branch(AddressMode::Relative, false).0 == s.skip(1),
{
    reveal(Machine::effective_address);
}

/// A reset whose vector can be read loads the program counter with the
/// little-endian word at `0xFFFC..=0xFFFD`, disables interrupts, selects
/// binary arithmetic and releases a jammed processor; the same call of
/// `run` then goes on from there.
pub proof fn lemma_reset_loads_vector<M: Memory>(s: Machine<M>, lo: u8, hi: u8)
    requires
        s.reset_pending,
        M::read_result(s.mem, 0xFFFC) == Ok::<u8, MemoryError>(lo),
        M::read_result(M::after_read(s.mem, 0xFFFC), 0xFFFD) == Ok::<u8, MemoryError>(hi),
    ensures
        ({
            let (after, r) = s.handle_reset();
            &&& r is Ok
            &&& after.regs.pc == word(lo, hi)
            &&& after.regs.flag(Status::InterruptDisable)
            &&& after.regs.flag(Status::AlwaysSet)
            &&& !after.regs.flag(Status::Decimal)
            &&& !after.regs.flag(Status::Break)
            &&& after.fault is None
            &&& !after.reset_pending
            &&& s.run() == after.run_after_reset()
        }),
{
    assert(0x24u8 & 0x04u8 != 0 && 0x24u8 & 0x20u8 != 0 && 0x24u8 & 0x08u8 == 0 && 0x24u8 & 0x10u8
        == 0) by (bit_vector);
}

/// A reset whose vector cannot be read changes nothing but the memory, and
/// stays pending.
pub proof fn lemma_reset_waits_for_vector<M: Memory>(s: Machine<M>)
    requires
        s.reset_pending,
        s.handle_reset().1 is Err,
    ensures
        s.run().1 is Err,
        s.run().0 == (Machine::<M> { mem: s.run().0.mem, ..s }),
{
}

/// Whether `run`, with no reset pending, goes on to execute an instruction.
pub open spec fn reaches_step<M: Memory>(s: Machine<M>) -> bool {
    &&& s.fault is None
    &&& !s.nmi_pending
    &&& !(!s.regs.flag(Status::InterruptDisable) && s.irq_pending)
}

/// An instruction that fails leaves the registers as they were before it,
/// so that the program counter points at the instruction, and leaves its
/// error behind as the fault.
pub proof fn lemma_rollback_on_fault<M: Memory>(s: Machine<M>)
    requires
        !s.reset_pending,
        reaches_step(s),
        s.step().1 is Err,
    ensures
        s.run().1 is Err,
        s.run().1->Err_0 == s.step().1->Err_0,
        s.run().0.regs == s.regs,
        s.run().0.fault == Some(s.run().1->Err_0),
{
}

/// The same after a reset: the registers are those that the reset left.
pub proof fn lemma_rollback_on_fault_after_reset<M: Memory>(s: Machine<M>)
    requires
        s.reset_pending,
        s.handle_reset().1 is Ok,
        reaches_step(s.handle_reset().0),
        s.handle_reset().0.step().1 is Err,
    ensures
        s.run().1 is Err,
        s.run().0.regs == s.handle_reset().0.regs,
        s.run().0.fault == Some(s.run().1->Err_0),
{
}

/// A jammed processor returns its fault again and does nothing else, until
/// a reset is requested.
pub proof fn lemma_jammed_until_reset<M: Memory>(s: Machine<M>)
    requires
        !s.reset_pending,
        s.fault is Some,
    ensures
        s.run() == (s, Err::<RunExit, RunError>(s.fault->Some_0)),
{
}

/// A non-maskable interrupt is taken whatever the interrupt-disable flag
/// says, and before a pending interrupt.
pub proof fn lemma_nmi_is_not_maskable<M: Memory>(s: Machine<M>)
    requires
        !s.reset_pending,
        s.fault is None,
        s.nmi_pending,
    ensures
        s.run().1 is Ok ==> s.run().1 == Ok::<RunExit, RunError>(RunExit::NonMaskableInterrupt),
        s.run().1 is Ok ==> !s.run().0.nmi_pending,
        s.run().0.irq_pending == s.irq_pending,
        s.run().0.mem == s.enter_interrupt(NMI_VECTOR).0.mem,
        s.run().0.regs == s.enter_interrupt(NMI_VECTOR).0.regs,
{
}

/// What no instruction does to the status byte: clear bit 5, or set the
/// break flag.
pub open spec fn status_kept(before: u8, after: u8) -> bool {
    &&& has_flag(before, Status::AlwaysSet) ==> has_flag(after, Status::AlwaysSet)
    &&& has_flag(after, Status::Break) ==> has_flag(before, Status::Break)
}

/// What an instruction leaves alone: the three event lines, the fault, the
/// stack policy and the opcode that was fetched last; and in the status
/// byte it neither clears bit 5 nor sets the break flag.
pub open spec fn instruction_frame<M: Memory>(before: Machine<M>, after: Machine<M>) -> bool {
    &&& after.reset_pending == before.reset_pending
    &&& after.nmi_pending == before.nmi_pending
    &&& after.irq_pending == before.irq_pending
    &&& after.fault == before.fault
    &&& after.policy == before.policy
    &&& after.last_opcode == before.last_opcode
    &&& status_kept(before.regs.p, after.regs.p)
}

/// Forcing a flag other than bit 5 and the break flag leaves these two as
/// they were.
pub proof fn lemma_flag_keeps_status(p: u8, flag: Status, on: bool)
    requires
        flag != Status::AlwaysSet,
        flag != Status::Break,
    ensures
        status_kept(p, with_flag(p, flag, on)),
{
    lemma_with_flag(p, flag, on, Status::AlwaysSet);
    lemma_with_flag(p, flag, on, Status::Break);
}

/// Setting zero and negative from a value leaves bit 5 and the break flag
/// as they were.
pub proof fn lemma_nz_keeps_status(p: u8, value: u8)
    ensures
        status_kept(p, with_nz(p, value)),
{
    let z = with_flag(p, Status::Zero, value == 0);
    lemma_flag_keeps_status(p, Status::Zero, value == 0);
    lemma_flag_keeps_status(z, Status::Negative, value >= 0x80);
}

/// A status byte that comes from the stack has bit 5 on and the break flag
/// off, whatever the stack held.
pub proof fn lemma_pulled_status(value: u8)
    ensures
        has_flag(pulled_status(value), Status::AlwaysSet),
        !has_flag(pulled_status(value), Status::Break),
{
    let b = with_flag(value, Status::Break, false);
    lemma_with_flag(value, Status::Break, false, Status::Break);
    lemma_with_flag(b, Status::AlwaysSet, true, Status::AlwaysSet);
    lemma_with_flag(b, Status::AlwaysSet, true, Status::Break);
}

proof fn lemma_load_frame<M: Memory>(s: Machine<M>, reg: Register, value: u8)
    requires
        reg != Register::P,
    ensures
        instruction_frame(s, s.load(reg, value)),
{
    lemma_nz_keeps_status(s.regs.p, value);
}

proof fn lemma_push_frame<M: Memory>(s: Machine<M>, value: u8)
    ensures
        instruction_frame(s, s.stack_push_u8(value).0),
        s.stack_push_u8(value).0.regs.p == s.regs.p,
{
}

proof fn lemma_pull_frame<M: Memory>(s: Machine<M>)
    ensures
        instruction_frame(s, s.stack_pull_u8().0),
        s.stack_pull_u8().0.regs.p == s.regs.p,
{
}

proof fn lemma_push_word_frame<M: Memory>(s: Machine<M>, value: u16)
    ensures
        instruction_frame(s, s.stack_push_u16(value).0),
        s.stack_push_u16(value).0.regs.p == s.regs.p,
{
    let s1 = s.stack_push_u8(high_byte(value)).0;
    lemma_push_frame(s, high_byte(value));
    lemma_push_frame(s1, low_byte(value));
}

proof fn lemma_pull_word_frame<M: Memory>(s: Machine<M>)
    ensures
        instruction_frame(s, s.stack_pull_u16().0),
        s.stack_pull_u16().0.regs.p == s.regs.p,
{
    let s1 = s.stack_pull_u8().0;
    lemma_pull_frame(s);
    lemma_pull_frame(s1);
}

proof fn lemma_modify_keeps_status(p: u8, modify: Modify, value: u8)
    ensures
        status_kept(p, modified_status(p, modify, value)),
{
    let nz = with_nz(p, modify.result(value));
    lemma_nz_keeps_status(p, modify.result(value));
    match modify.carry_out(value) {
        Some(carry) => lemma_flag_keeps_status(nz, Status::Carry, carry),
        None => {},
    }
}

proof fn lemma_branch_frame<M: Memory>(s: Machine<M>, mode: AddressMode, taken: bool)
    ensures
        instruction_frame(s, s.branch(mode, taken).0),
{
    lemma_operand_keeps_registers(s, mode);
}

proof fn lemma_bit_frame<M: Memory>(s: Machine<M>, mode: AddressMode)
    ensures
        instruction_frame(s, s.bit(mode).0),
{
    lemma_operand_keeps_registers(s, mode);
    let (s1, operand) = s.operand(mode);
    if let Ok(value) = operand {
        let z = with_flag(s1.regs.p, Status::Zero, value & s1.regs.a == 0);
        let n = with_flag(z, Status::Negative, value & 0x80 != 0);
        lemma_flag_keeps_status(s1.regs.p, Status::Zero, value & s1.regs.a == 0);
        lemma_flag_keeps_status(z, Status::Negative, value & 0x80 != 0);
        lemma_flag_keeps_status(n, Status::Overflow, value & 0x40 != 0);
    }
}

proof fn lemma_compare_frame<M: Memory>(s: Machine<M>, reg: Register, mode: AddressMode)
    ensures
        instruction_frame(s, s.compare_reg_mem(reg, mode).0),
{
    lemma_operand_keeps_registers(s, mode);
    let (s1, operand) = s.operand(mode);
    if let Ok(value) = operand {
        let held = s1.regs.get(reg);
        let nz = with_nz(s1.regs.p, wrap8(held - value));
        lemma_nz_keeps_status(s1.regs.p, wrap8(held - value));
        lemma_flag_keeps_status(nz, Status::Carry, held >= value);
    }
}

proof fn lemma_logic_frame<M: Memory>(s: Machine<M>, mode: AddressMode, insn: Insn)
    ensures
        instruction_frame(s, s.logic(mode, insn).0),
{
    lemma_operand_keeps_registers(s, mode);
    let (s1, operand) = s.operand(mode);
    if let Ok(value) = operand {
        lemma_nz_keeps_status(s1.regs.p, value & s.regs.a);
        lemma_nz_keeps_status(s1.regs.p, value ^ s.regs.a);
        lemma_nz_keeps_status(s1.regs.p, value | s.regs.a);
    }
}

proof fn lemma_arithmetic_frame<M: Memory>(s: Machine<M>, mode: AddressMode, subtract: bool)
    ensures
        instruction_frame(s, s.arithmetic(mode, subtract).0),
{
    lemma_operand_keeps_registers(s, mode);
    let (s1, operand) = s.operand(mode);
    if let Ok(value) = operand {
        let a = s.regs.a;
        let carry = s.regs.flag(Status::Carry);
        let decimal = s.regs.flag(Status::Decimal);
        let overflow = s.regs.flag(Status::Overflow);
        let out = if subtract {
            subtract_with_borrow(a, value, carry, decimal, overflow)
        } else {
            add_with_carry(a, value, carry, decimal, overflow)
        };
        let s2 = s1.load(Register::A, out.value);
        lemma_load_frame(s1, Register::A, out.value);
        let c = with_flag(s2.regs.p, Status::Carry, out.carry);
        lemma_flag_keeps_status(s2.regs.p, Status::Carry, out.carry);
        lemma_flag_keeps_status(c, Status::Overflow, out.overflow);
    }
}

proof fn lemma_load_from_memory_frame<M: Memory>(s: Machine<M>, mode: AddressMode, reg: Register)
    requires
        reg != Register::P,
    ensures
        instruction_frame(s, s.mem_to_reg(mode, reg).0),
{
    lemma_operand_keeps_registers(s, mode);
    let (s1, operand) = s.operand(mode);
    if let Ok(value) = operand {
        lemma_load_frame(s1, reg, value);
    }
}

proof fn lemma_modify_memory_frame<M: Memory>(s: Machine<M>, mode: AddressMode, modify: Modify)
    ensures
        instruction_frame(s, s.read_modify_write_mem(mode, modify).0),
{
    lemma_effective_address_keeps_registers(s, mode);
    let (s1, ea) = s.effective_address(mode);
    if let Ok(ea) = ea {
        let (s2, value) = s1.read_u8(ea);
        if let Ok(value) = value {
            lemma_modify_keeps_status(s2.regs.p, modify, value);
        }
    }
}

proof fn lemma_modify_register_frame<M: Memory>(s: Machine<M>, reg: Register, modify: Modify)
    requires
        reg != Register::P,
    ensures
        instruction_frame(s, s.read_modify_write_reg(reg, modify)),
{
    lemma_modify_keeps_status(s.regs.p, modify, s.regs.get(reg));
}

proof fn lemma_software_interrupt_frame<M: Memory>(s: Machine<M>)
    ensures
        instruction_frame(s, s.software_interrupt().0),
{
    let s0 = s.skip(1);
    lemma_push_word_frame(s0, s0.regs.pc);
    let (s1, pushed) = s0.stack_push_u16(s0.regs.pc);
    if pushed is Ok {
        lemma_push_frame(s1, pushed_by_software(s1.regs.p));
        let s2 = s1.stack_push_u8(pushed_by_software(s1.regs.p)).0;
        lemma_flag_keeps_status(s2.regs.p, Status::InterruptDisable, true);
    }
}

proof fn lemma_subroutine_frame<M: Memory>(s: Machine<M>, mode: AddressMode)
    ensures
        instruction_frame(s, s.jump_to_subroutine(mode).0),
        instruction_frame(s, s.jump(mode).0),
        instruction_frame(s, s.return_from_subroutine().0),
{
    lemma_effective_address_keeps_registers(s, mode);
    let (s1, ea) = s.effective_address(mode);
    lemma_push_word_frame(s1, wrap16(s1.regs.pc - 1));
    lemma_pull_word_frame(s);
}

proof fn lemma_pull_status_frame<M: Memory>(s: Machine<M>)
    ensures
        instruction_frame(s, s.pull_status().0),
        instruction_frame(s, s.return_from_interrupt().0),
        instruction_frame(s, s.pull_accumulator().0),
        s.pull_status().1 is Ok ==> s.pull_status().0.regs.flag(Status::AlwaysSet)
            && !s.pull_status().0.regs.flag(Status::Break),
        s.return_from_interrupt().1 is Ok ==> s.return_from_interrupt().0.regs.flag(
            Status::AlwaysSet,
        ) && !s.return_from_interrupt().0.regs.flag(Status::Break),
{
    lemma_pull_frame(s);
    let (s1, pulled) = s.stack_pull_u8();
    if let Ok(value) = pulled {
        lemma_pulled_status(value);
        lemma_load_frame(s1, Register::A, value);
    }
    let (t1, done) = s.pull_status();
    if done is Ok {
        lemma_pull_word_frame(t1);
    }
}

/// Instructions that say where the program goes on.
pub open spec fn moves_control(insn: Insn) -> bool {
    insn is BRK || insn is BCC || insn is BCS || insn is BNE || insn is BEQ || insn is BVC ||
        insn is BVS || insn is BPL || insn is BMI || insn is JMP || insn is JSR ||
        insn is RTI || insn is RTS
}

/// Instructions that read and write registers only.
pub open spec fn works_on_registers(insn: Insn) -> bool {
    insn is DEY || insn is INX || insn is INY || insn is DEX || insn is TAX || insn is TAY ||
        insn is TXA || insn is TYA || insn is TSX || insn is ASLA || insn is LSRA ||
        insn is ROLA || insn is RORA
}

/// Instructions that load, store or test a byte of the memory.
pub open spec fn moves_data(insn: Insn) -> bool {
    insn is LDA || insn is LDX || insn is LDY || insn is STA || insn is STX || insn is STY
        || insn is BIT || insn is CMP || insn is CPX || insn is CPY
}

/// Instructions that have an operand in memory.
pub open spec fn works_on_memory(insn: Insn) -> bool {
    insn is BIT || insn is CPX || insn is CPY || insn is LDY || insn is STY || insn is ADC ||
        insn is AND || insn is CMP || insn is EOR || insn is LDA || insn is ORA ||
        insn is SBC || insn is STA || insn is ASL || insn is DEC || insn is INC ||
        insn is LDX || insn is LSR || insn is ROL || insn is ROR || insn is STX
}

proof fn lemma_control_frame<M: Memory>(s: Machine<M>, insn: Insn)
    requires
        moves_control(insn),
    ensures
        instruction_frame(s, s.execute(insn).0),
{
    match insn {
        Insn::BRK => lemma_software_interrupt_frame(s),
        Insn::BCC(mode) => lemma_branch_frame(s, mode, !s.regs.flag(Status::Carry)),
        Insn::BCS(mode) => lemma_branch_frame(s, mode, s.regs.flag(Status::Carry)),
        Insn::BNE(mode) => lemma_branch_frame(s, mode, !s.regs.flag(Status::Zero)),
        Insn::BEQ(mode) => lemma_branch_frame(s, mode, s.regs.flag(Status::Zero)),
        Insn::BVC(mode) => lemma_branch_frame(s, mode, !s.regs.flag(Status::Overflow)),
        Insn::BVS(mode) => lemma_branch_frame(s, mode, s.regs.flag(Status::Overflow)),
        Insn::BPL(mode) => lemma_branch_frame(s, mode, !s.regs.flag(Status::Negative)),
        Insn::BMI(mode) => lemma_branch_frame(s, mode, s.regs.flag(Status::Negative)),
        Insn::JMP(mode) => lemma_subroutine_frame(s, mode),
        Insn::JSR(mode) => lemma_subroutine_frame(s, mode),
        Insn::RTI => lemma_pull_status_frame(s),
        Insn::RTS => lemma_subroutine_frame(s, AddressMode::Absolute),
        _ => {},
    }
}

proof fn lemma_registers_frame<M: Memory>(s: Machine<M>, insn: Insn)
    requires
        works_on_registers(insn),
    ensures
        instruction_frame(s, s.execute(insn).0),
{
    match insn {
        Insn::DEY => lemma_modify_register_frame(s, Register::Y, Modify::Decrement),
        Insn::INX => lemma_modify_register_frame(s, Register::X, Modify::Increment),
        Insn::INY => lemma_modify_register_frame(s, Register::Y, Modify::Increment),
        Insn::DEX => lemma_modify_register_frame(s, Register::X, Modify::Decrement),
        Insn::TAX => lemma_load_frame(s, Register::X, s.regs.a),
        Insn::TAY => lemma_load_frame(s, Register::Y, s.regs.a),
        Insn::TXA => lemma_load_frame(s, Register::A, s.regs.x),
        Insn::TYA => lemma_load_frame(s, Register::A, s.regs.y),
        Insn::TSX => lemma_load_frame(s, Register::X, s.regs.s),
        Insn::ASLA => lemma_modify_register_frame(s, Register::A, Modify::ShiftLeft),
        Insn::LSRA => lemma_modify_register_frame(s, Register::A, Modify::ShiftRight),
        Insn::ROLA => lemma_modify_register_frame(
            s,
            Register::A,
            Modify::RotateLeft(s.regs.flag(Status::Carry)),
        ),
        Insn::RORA => lemma_modify_register_frame(
            s,
            Register::A,
            Modify::RotateRight(s.regs.flag(Status::Carry)),
        ),
        _ => {},
    }
}

proof fn lemma_moving_frame<M: Memory>(s: Machine<M>, insn: Insn)
    requires
        moves_data(insn),
    ensures
        instruction_frame(s, s.execute(insn).0),
{
    match insn {
        Insn::BIT(mode) => lemma_bit_frame(s, mode),
        Insn::CPX(mode) => lemma_compare_frame(s, Register::X, mode),
        Insn::CPY(mode) => lemma_compare_frame(s, Register::Y, mode),
        Insn::LDY(mode) => lemma_load_from_memory_frame(s, mode, Register::Y),
        Insn::STY(mode) => lemma_store_keeps_registers(s, Register::Y, mode),
        Insn::CMP(mode) => lemma_compare_frame(s, Register::A, mode),
        Insn::LDA(mode) => lemma_load_from_memory_frame(s, mode, Register::A),
        Insn::STA(mode) => lemma_store_keeps_registers(s, Register::A, mode),
        Insn::LDX(mode) => lemma_load_from_memory_frame(s, mode, Register::X),
        Insn::STX(mode) => lemma_store_keeps_registers(s, Register::X, mode),
        _ => {},
    }
}

proof fn lemma_changing_frame<M: Memory>(s: Machine<M>, insn: Insn)
    requires
        works_on_memory(insn) && !moves_data(insn),
    ensures
        instruction_frame(s, s.execute(insn).0),
{
    match insn {
        Insn::ADC(mode) => lemma_arithmetic_frame(s, mode, false),
        Insn::AND(mode) => lemma_logic_frame(s, mode, insn),
        Insn::EOR(mode) => lemma_logic_frame(s, mode, insn),
        Insn::ORA(mode) => lemma_logic_frame(s, mode, insn),
        Insn::SBC(mode) => lemma_arithmetic_frame(s, mode, true),
        Insn::ASL(mode) => lemma_modify_memory_frame(s, mode, Modify::ShiftLeft),
        Insn::DEC(mode) => lemma_modify_memory_frame(s, mode, Modify::Decrement),
        Insn::INC(mode) => lemma_modify_memory_frame(s, mode, Modify::Increment),
        Insn::LSR(mode) => lemma_modify_memory_frame(s, mode, Modify::ShiftRight),
        Insn::ROL(mode) => lemma_modify_memory_frame(
            s,
            mode,
            Modify::RotateLeft(s.regs.flag(Status::Carry)),
        ),
        Insn::ROR(mode) => lemma_modify_memory_frame(
            s,
            mode,
            Modify::RotateRight(s.regs.flag(Status::Carry)),
        ),
        _ => {},
    }
}

proof fn lemma_other_frame<M: Memory>(s: Machine<M>, insn: Insn)
    requires
        !moves_control(insn) && !works_on_registers(insn) && !works_on_memory(insn),
    ensures
        instruction_frame(s, s.execute(insn).0),
{
    match insn {
        Insn::CLC => lemma_flag_keeps_status(s.regs.p, Status::Carry, false),
        Insn::CLD => lemma_flag_keeps_status(s.regs.p, Status::Decimal, false),
        Insn::CLI => lemma_flag_keeps_status(s.regs.p, Status::InterruptDisable, false),
        Insn::CLV => lemma_flag_keeps_status(s.regs.p, Status::Overflow, false),
        Insn::SEC => lemma_flag_keeps_status(s.regs.p, Status::Carry, true),
        Insn::SED => lemma_flag_keeps_status(s.regs.p, Status::Decimal, true),
        Insn::SEI => lemma_flag_keeps_status(s.regs.p, Status::InterruptDisable, true),
        Insn::PHA => lemma_push_frame(s, s.regs.a),
        Insn::PHP => lemma_push_frame(s, pushed_by_software(s.regs.p)),
        Insn::PLA => lemma_pull_status_frame(s),
        Insn::PLP => lemma_pull_status_frame(s),
        Insn::NOP => {},
        Insn::JAM => {},
        Insn::TXS => {},
        _ => {},
    }
}

/// No instruction touches the event lines, the fault or the stack policy,
/// and none clears bit 5 of the status register or sets its break flag.
pub proof fn lemma_execute_frame<M: Memory>(s: Machine<M>, insn: Insn)
    ensures
        instruction_frame(s, s.execute(insn).0),
{
    if moves_control(insn) {
        lemma_control_frame(s, insn);
    } else if works_on_registers(insn) {
        lemma_registers_frame(s, insn);
    } else if moves_data(insn) {
        lemma_moving_frame(s, insn);
    } else if works_on_memory(insn) {
        lemma_changing_frame(s, insn);
    } else {
        lemma_other_frame(s, insn);
    }
}

/// What `step` leaves alone: what every instruction leaves alone, but for
/// the opcode that was fetched last.
pub proof fn lemma_step_frame<M: Memory>(s: Machine<M>)
    ensures
        ({
            let after = s.step().0;
            &&& after.reset_pending == s.reset_pending
            &&& after.nmi_pending == s.nmi_pending
            &&& after.irq_pending == s.irq_pending
            &&& after.fault == s.fault
            &&& after.policy == s.policy
            &&& status_kept(s.regs.p, after.regs.p)
        }),
{
    match M::read_result(s.mem, s.regs.pc) {
        Err(_) => {},
        Ok(opcode) => {
            let fetched = Machine::<M> { mem: M::after_read(s.mem, s.regs.pc), ..s };
            let at = (Machine::<M> { last_opcode: opcode, ..fetched }).skip(1);
            lemma_execute_frame(at, decode(opcode));
        },
    }
}

/// An instruction leaves bit 5 of the status register set if it was set,
/// and the break flag clear if it was clear. PLP and RTI, which take the
/// status register from the stack, leave bit 5 set and the break flag clear
/// whatever they were and whatever the stack held.
pub proof fn lemma_step_keeps_always_set<M: Memory>(s: Machine<M>)
    requires
        s.step().1 is Ok,
        s.regs.flag(Status::AlwaysSet) || s.step().1 == Ok::<RunExit, RunError>(
            RunExit::Executed(Insn::PLP),
        ) || s.step().1 == Ok::<RunExit, RunError>(RunExit::Executed(Insn::RTI)),
    ensures
        s.step().0.regs.flag(Status::AlwaysSet),
        !s.regs.flag(Status::Break) ==> !s.step().0.regs.flag(Status::Break),
        s.step().1 == Ok::<RunExit, RunError>(RunExit::Executed(Insn::PLP)) || s.step().1 == Ok::<
            RunExit,
            RunError,
        >(RunExit::Executed(Insn::RTI)) ==> !s.step().0.regs.flag(Status::Break),
{
    lemma_step_frame(s);
    match M::read_result(s.mem, s.regs.pc) {
        Err(_) => {},
        Ok(opcode) => {
            let fetched = Machine::<M> { mem: M::after_read(s.mem, s.regs.pc), ..s };
            let at = (Machine::<M> { last_opcode: opcode, ..fetched }).skip(1);
            lemma_pull_status_frame(at);
        },
    }
}

/// Whatever `run` does, it leaves bit 5 of the status register set if it
/// was set, and after a reset it is set.
pub proof fn lemma_run_keeps_always_set<M: Memory>(s: Machine<M>)
    requires
        s.run().1 is Ok,
        s.regs.flag(Status::AlwaysSet) || s.reset_pending,
    ensures
        s.run().0.regs.flag(Status::AlwaysSet),
{
    let t = if s.reset_pending {
        s.handle_reset().0
    } else {
        s
    };
    assert(0x24u8 & 0x20u8 != 0) by (bit_vector);
    assert(t.regs.flag(Status::AlwaysSet));
    lemma_step_frame(t);
    lemma_enter_interrupt_frame(t, NMI_VECTOR);
    lemma_enter_interrupt_frame(t, IRQ_BRK_VECTOR);
}

/// Taking an interrupt sets the interrupt-disable flag and no other.
pub proof fn lemma_enter_interrupt_frame<M: Memory>(s: Machine<M>, vector: u16)
    ensures
        instruction_frame(s, s.enter_interrupt(vector).0),
{
    let s0 = s.with_flag(Status::InterruptDisable, true);
    lemma_flag_keeps_status(s.regs.p, Status::InterruptDisable, true);
    lemma_push_word_frame(s0, s0.regs.pc);
    let (s1, pushed) = s0.stack_push_u16(s0.regs.pc);
    if pushed is Ok {
        lemma_push_frame(s1, pushed_by_interrupt(s1.regs.p));
    }
}

/// While interrupts are enabled a pending interrupt is taken before the
/// next instruction, and the request is served with that.
pub proof fn lemma_irq_is_taken<M: Memory>(s: Machine<M>)
    requires
        !s.reset_pending,
        s.fault is None,
        !s.nmi_pending,
        s.irq_pending,
        !s.regs.flag(Status::InterruptDisable),
    ensures
        s.run().1 is Ok ==> s.run().1 == Ok::<RunExit, RunError>(RunExit::Interrupt),
        s.run().1 is Ok ==> !s.run().0.irq_pending,
        s.run().1 is Ok ==> s.run().0.regs.flag(Status::InterruptDisable),
        s.run().0.mem == s.enter_interrupt(IRQ_BRK_VECTOR).0.mem,
        s.run().0.regs == s.enter_interrupt(IRQ_BRK_VECTOR).0.regs,
{
    lemma_with_flag(s.regs.p, Status::InterruptDisable, true, Status::InterruptDisable);
    let s0 = s.with_flag(Status::InterruptDisable, true);
    lemma_push_word_frame(s0, s0.regs.pc);
    let (s1, pushed) = s0.stack_push_u16(s0.regs.pc);
    if pushed is Ok {
        lemma_push_frame(s1, pushed_by_interrupt(s1.regs.p));
    }
}

/// While interrupts are disabled a pending interrupt waits, and `run`
/// executes the next instruction instead.
pub proof fn lemma_irq_is_masked<M: Memory>(s: Machine<M>)
    requires
        !s.reset_pending,
        s.fault is None,
        !s.nmi_pending,
        s.irq_pending,
        s.regs.flag(Status::InterruptDisable),
    ensures
        s.run().1 != Ok::<RunExit, RunError>(RunExit::Interrupt),
        s.run().1 == s.step().1,
        s.run().0.irq_pending,
{
    lemma_step_frame(s);
}

/// A memory whose stack page is RAM.
pub open spec fn stack_is_ram(s: Machine<RomRam>) -> bool {
    s.mem.cells.len() >= 0x0200 && s.mem.rom_start >= 0x0200
}

/// On a stack in RAM, what was pushed last is pulled first: the pull gives
/// the byte back and leaves the stack pointer where it was before the push.
pub proof fn lemma_pull_after_push(s: Machine<RomRam>, value: u8)
    requires
        stack_is_ram(s),
        s.stack_push_u8(value).1 is Ok,
    ensures
        ({
            let pushed = s.stack_push_u8(value).0;
            &&& stack_is_ram(pushed)
            &&& pushed.stack_pull_u8().1 == Ok::<u8, RunError>(value)
            &&& pushed.stack_pull_u8().0 == (Machine::<RomRam> { mem: pushed.mem, ..s })
        }),
{
    lemma_wrap8(s.regs.s - 1);
    lemma_wrap8(wrap8(s.regs.s - 1) + 1);
}

/// The same of a word.
pub proof fn lemma_pull_word_after_push(s: Machine<RomRam>, value: u16)
    requires
        stack_is_ram(s),
        s.stack_push_u16(value).1 is Ok,
    ensures
        ({
            let pushed = s.stack_push_u16(value).0;
            &&& stack_is_ram(pushed)
            &&& pushed.stack_pull_u16().1 == Ok::<u16, RunError>(value)
            &&& pushed.stack_pull_u16().0 == (Machine::<RomRam> { mem: pushed.mem, ..s })
        }),
{
    let s1 = s.stack_push_u8(high_byte(value)).0;
    lemma_pull_after_push(s, high_byte(value));
    lemma_pull_after_push(s1, low_byte(value));
    let s2 = s1.stack_push_u8(low_byte(value)).0;
    let t1 = s2.stack_pull_u8().0;
    assert(t1 == (Machine::<RomRam> { mem: s2.mem, ..s1 }));
    lemma_wrap8(s.regs.s - 1);
    lemma_wrap8(wrap8(s.regs.s - 1) + 1);
    lemma_wrap8(wrap8(s.regs.s - 1) - 1);
    assert(t1.stack_pull_u8().1 == Ok::<u8, RunError>(high_byte(value)));
}

/// On a stack in RAM, a return from a subroutine goes to the instruction
/// behind the call that led there, whatever the subroutine did in between,
/// as long as it left the stack as it found it.
pub proof fn lemma_return_after_call(s: Machine<RomRam>, mode: AddressMode)
    requires
        stack_is_ram(s),
        s.jump_to_subroutine(mode).1 is Ok,
    ensures
        ({
            let called = s.jump_to_subroutine(mode).0;
            let behind = s.effective_address(mode).0.regs.pc;
            &&& called.regs.pc == s.effective_address(mode).1->Ok_0
            &&& called.return_from_subroutine().1 is Ok
            &&& called.return_from_subroutine().0.regs.pc == behind
            &&& called.return_from_subroutine().0.regs.s == s.regs.s
        }),
{
    lemma_effective_address_keeps_registers(s, mode);
    let (s1, ea) = s.effective_address(mode);
    assert(s1.mem == s.mem) by {
        reveal(Machine::effective_address);
    }
    let link = wrap16(s1.regs.pc - 1);
    lemma_pull_word_after_push(s1, link);
    let pushed = s1.stack_push_u16(link).0;
    let called = pushed.with_pc(ea->Ok_0);
    let pulled = pushed.stack_pull_u16();
    assert(called.stack_pull_u16() == (pulled.0.with_pc(called.regs.pc), pulled.1));
    lemma_wrap16(s1.regs.pc - 1);
    lemma_wrap16(link + 1);
}

} // verus!
