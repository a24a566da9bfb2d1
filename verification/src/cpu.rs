//! Behavioral emulator of MOS 6502
//!
//! There is no emulation of the microarchitecture: no cycle counting, no
//! undocumented instructions, and none of the side effects that only the
//! bus shows, such as the first write of a read-modify-write instruction.
//!
//! An instruction that cannot be executed jams the processor, which rolls
//! its registers back to what they were before the instruction. Running
//! over either end of the stack is such a fault too, if so configured.

use crate::alu::{
    adc_result, add_in_page, indexed, make_word, next_address, previous_address, sbc_result,
    sign_extend, split_word, sub_in_page, zero_page, Modify,
};
use crate::insns::{decode_insn, AddressMode, Insn};
use crate::machine::{
    pushed_by_software, with_nz, Machine, RunError, RunExit, StackWraparound, IRQ_BRK_VECTOR,
    NMI_VECTOR, RESET_VECTOR, STACK_BOTTOM,
};
use crate::memory::Memory;
use crate::regfile::{with_flag, Register, RegisterFile, Status};
use vstd::prelude::*;

verus! {

/// Behavioral MOS 6502 emulator
#[derive(Debug)]
pub struct Mos6502<M: Memory> {
    mem: M,
    reg_file: RegisterFile,
    reset_pending: bool,
    irq_pending: bool,
    nmi_pending: bool,
    // Jammed, only reset will help
    fault: Option<RunError>,
    last_opcode: u8,
    allow_stack_wraparound: StackWraparound,
}

impl<M: Memory> Mos6502<M> {
    /// The state of the machine that the emulator stands for.
    pub closed spec fn view(&self) -> Machine<M> {
        Machine {
            mem: self.mem.model(),
            regs: self.reg_file,
            reset_pending: self.reset_pending,
            nmi_pending: self.nmi_pending,
            irq_pending: self.irq_pending,
            fault: self.fault,
            last_opcode: self.last_opcode,
            policy: self.allow_stack_wraparound,
        }
    }

    pub fn new(memory: M, allow_stack_wraparound: StackWraparound) -> (cpu: Self)
        ensures
            cpu@ == (Machine::<M> {
                mem: memory.model(),
                regs: RegisterFile::power_on(),
                reset_pending: false,
                nmi_pending: false,
                irq_pending: false,
                fault: None,
                last_opcode: 0,
                policy: allow_stack_wraparound,
            }),
    {
        Self {
            mem: memory,
            reg_file: RegisterFile::new(),
            reset_pending: false,
            nmi_pending: false,
            irq_pending: false,
            fault: None,
            last_opcode: 0,
            allow_stack_wraparound,
        }
    }

    pub fn with_registers(
        memory: M,
        regf: RegisterFile,
        allow_stack_wraparound: StackWraparound,
    ) -> (cpu: Self)
        ensures
            cpu@ == (Machine::<M> {
                mem: memory.model(),
                regs: regf,
                reset_pending: false,
                nmi_pending: false,
                irq_pending: false,
                fault: None,
                last_opcode: 0,
                policy: allow_stack_wraparound,
            }),
    {
        Self {
            mem: memory,
            reg_file: regf,
            reset_pending: false,
            nmi_pending: false,
            irq_pending: false,
            fault: None,
            last_opcode: 0,
            allow_stack_wraparound,
        }
    }

    pub fn set_irq_pending(&mut self)
        ensures
            final(self)@ == (Machine::<M> { irq_pending: true, ..old(self)@ }),
    {
        self.irq_pending = true;
    }

    pub fn set_reset_pending(&mut self)
        ensures
            final(self)@ == (Machine::<M> { reset_pending: true, ..old(self)@ }),
    {
        self.reset_pending = true;
    }

    pub fn set_nmi_pending(&mut self)
        ensures
            final(self)@ == (Machine::<M> { nmi_pending: true, ..old(self)@ }),
    {
        self.nmi_pending = true;
    }

    pub fn registers(&self) -> (regs: &RegisterFile)
        ensures
            *regs == self@.regs,
    {
        &self.reg_file
    }

    pub fn registers_mut(&mut self) -> (regs: &mut RegisterFile)
        ensures
            *regs == old(self)@.regs,
            final(self)@ == old(self)@.with_regs(*final(regs)),
    {
        &mut self.reg_file
    }

    /// The memory, as a host needs it to look at what a program left there.
    pub fn memory(&self) -> (memory: &M)
        ensures
            memory.model() == self@.mem,
    {
        &self.mem
    }

    pub fn read_u8(&mut self, addr: u16) -> (r: Result<u8, RunError>)
        ensures
            (final(self)@, r) == old(self)@.read_u8(addr),
    {
        match self.mem.read(addr) {
            Ok(value) => Ok(value),
            Err(e) => Err(RunError::MemoryAccess(e)),
        }
    }

    pub fn write_u8(&mut self, addr: u16, value: u8) -> (r: Result<(), RunError>)
        ensures
            (final(self)@, r) == old(self)@.write_u8(addr, value),
    {
        match self.mem.write(addr, value) {
            Ok(()) => Ok(()),
            Err(e) => Err(RunError::MemoryAccess(e)),
        }
    }

    pub fn read_u16(&mut self, addr: u16) -> (r: Result<u16, RunError>)
        ensures
            (final(self)@, r) == old(self)@.read_u16(addr),
    {
        let lo = self.read_u8(addr)?;
        let hi = self.read_u8(next_address(addr))?;

        Ok(make_word(lo, hi))
    }

    pub fn write_u16(&mut self, addr: u16, value: u16) -> (r: Result<(), RunError>)
        ensures
            (final(self)@, r) == old(self)@.write_u16(addr, value),
    {
        let (lo, hi) = split_word(value);
        self.write_u8(addr, lo)?;
        self.write_u8(next_address(addr), hi)?;

        Ok(())
    }

    /// Computes the effective address. Expects the program counter being
    /// advanced past the instruction opcode, and advances it to skip the
    /// addressing mode bytes.
    fn get_effective_address(&mut self, addr_mode: AddressMode) -> (r: Result<u16, RunError>)
        ensures
            (final(self)@, r) == old(self)@.effective_address(addr_mode),
    {
        reveal(Machine::effective_address);
        match addr_mode {
            AddressMode::Immediate | AddressMode::Relative => {
                let ea = self.reg_file.pc();
                self.reg_file.adjust_pc_by(1);

                Ok(ea)
            },
            AddressMode::Indirect => {
                let ptr = self.read_u16(self.reg_file.pc())?;
                self.reg_file.adjust_pc_by(2);
                let ea = self.read_u16(ptr)?;

                Ok(ea)
            },
            AddressMode::Xindirect => {
                let ptr = add_in_page(self.read_u8(self.reg_file.pc())?, self.reg_file.x());
                self.reg_file.adjust_pc_by(1);
                let ea = self.read_u16(zero_page(ptr))?;

                Ok(ea)
            },
            AddressMode::IndirectY => {
                let ptr = self.read_u8(self.reg_file.pc())?;
                self.reg_file.adjust_pc_by(1);
                let ea = indexed(self.read_u16(zero_page(ptr))?, self.reg_file.y());

                Ok(ea)
            },
            AddressMode::Absolute => {
                let ea = self.read_u16(self.reg_file.pc())?;
                self.reg_file.adjust_pc_by(2);

                Ok(ea)
            },
            AddressMode::AbsoluteX => {
                let ea = indexed(self.read_u16(self.reg_file.pc())?, self.reg_file.x());
                self.reg_file.adjust_pc_by(2);

                Ok(ea)
            },
            AddressMode::AbsoluteY => {
                let ea = indexed(self.read_u16(self.reg_file.pc())?, self.reg_file.y());
                self.reg_file.adjust_pc_by(2);

                Ok(ea)
            },
            AddressMode::Zeropage => {
                let ea = self.read_u8(self.reg_file.pc())?;
                self.reg_file.adjust_pc_by(1);

                Ok(zero_page(ea))
            },
            AddressMode::ZeropageX => {
                let ea = add_in_page(self.read_u8(self.reg_file.pc())?, self.reg_file.x());
                self.reg_file.adjust_pc_by(1);

                Ok(zero_page(ea))
            },
            AddressMode::ZeropageY => {
                let ea = add_in_page(self.read_u8(self.reg_file.pc())?, self.reg_file.y());
                self.reg_file.adjust_pc_by(1);

                Ok(zero_page(ea))
            },
        }
    }

    #[inline]
    fn update_flags_nz(&mut self, data: u8)
        ensures
            final(self)@ == old(self)@.with_regs(
                RegisterFile { p: with_nz(old(self)@.regs.p, data), ..old(self)@.regs },
            ),
    {
        self.reg_file.set_flag_from_cond(Status::Zero, data == 0);
        self.reg_file.set_flag_from_cond(Status::Negative, data >= 0x80);
    }

    /// Gives a register a value and sets the flags that describe it.
    #[inline]
    fn load_reg(&mut self, reg: Register, value: u8)
        ensures
            final(self)@ == old(self)@.load(reg, value),
    {
        *self.reg_file.reg_mut(reg) = value;
        self.update_flags_nz(value);
    }

    /// Reads the byte that an instruction works on.
    #[inline]
    fn read_operand(&mut self, addr_mode: AddressMode) -> (r: Result<u8, RunError>)
        ensures
            (final(self)@, r) == old(self)@.operand(addr_mode),
    {
        let ea = self.get_effective_address(addr_mode)?;

        self.read_u8(ea)
    }

    #[inline]
    fn mem_to_reg(&mut self, addr_mode: AddressMode, reg: Register) -> (r: Result<(), RunError>)
        ensures
            (final(self)@, r) == old(self)@.mem_to_reg(addr_mode, reg),
    {
        let value = self.read_operand(addr_mode)?;
        self.load_reg(reg, value);

        Ok(())
    }

    #[inline]
    fn reg_to_mem(&mut self, reg: Register, addr_mode: AddressMode) -> (r: Result<(), RunError>)
        ensures
            (final(self)@, r) == old(self)@.reg_to_mem(reg, addr_mode),
    {
        let ea = self.get_effective_address(addr_mode)?;
        let value = self.reg_file.reg(reg);
        self.write_u8(ea, value)?;

        Ok(())
    }

    #[inline]
    fn reg_to_reg(&mut self, reg_src: Register, reg_dst: Register)
        ensures
            final(self)@ == old(self)@.reg_to_reg(reg_src, reg_dst),
    {
        let value = self.reg_file.reg(reg_src);
        self.load_reg(reg_dst, value);
    }

    /// Sets the flags that a changed byte leaves.
    #[inline]
    fn update_flags_modified(&mut self, value: u8, carry: Option<bool>)
        ensures
            final(self)@ == old(self)@.with_regs(
                RegisterFile {
                    p: match carry {
                        Some(carry) => with_flag(
                            with_nz(old(self)@.regs.p, value),
                            Status::Carry,
                            carry,
                        ),
                        None => with_nz(old(self)@.regs.p, value),
                    },
                    ..old(self)@.regs
                },
            ),
    {
        self.update_flags_nz(value);
        if let Some(carry) = carry {
            self.reg_file.set_flag_from_cond(Status::Carry, carry);
        }
    }

    #[inline]
    fn read_modify_write_mem(&mut self, addr_mode: AddressMode, modify: Modify) -> (r: Result<
        (),
        RunError,
    >)
        ensures
            (final(self)@, r) == old(self)@.read_modify_write_mem(addr_mode, modify),
    {
        let ea = self.get_effective_address(addr_mode)?;
        let value = self.read_u8(ea)?;
        let (value, carry) = modify.apply(value);
        self.write_u8(ea, value)?;
        self.update_flags_modified(value, carry);

        Ok(())
    }

    #[inline]
    fn read_modify_write_reg(&mut self, reg: Register, modify: Modify)
        ensures
            final(self)@ == old(self)@.read_modify_write_reg(reg, modify),
    {
        let value = self.reg_file.reg(reg);
        let (value, carry) = modify.apply(value);
        *self.reg_file.reg_mut(reg) = value;
        self.update_flags_modified(value, carry);
    }

    #[inline]
    fn stack_push_u8(&mut self, value: u8) -> (r: Result<(), RunError>)
        ensures
            (final(self)@, r) == old(self)@.stack_push_u8(value),
    {
        let sp = self.reg_file.sp();
        self.write_u8(STACK_BOTTOM + zero_page(sp), value)?;
        *self.reg_file.sp_mut() = sub_in_page(sp, 1);

        if sp == 0 && self.allow_stack_wraparound == StackWraparound::Disallow {
            return Err(RunError::StackOverflow);
        }
        Ok(())
    }

    #[inline]
    fn stack_pull_u8(&mut self) -> (r: Result<u8, RunError>)
        ensures
            (final(self)@, r) == old(self)@.stack_pull_u8(),
    {
        let sp = add_in_page(self.reg_file.sp(), 1);
        if sp == 0 && self.allow_stack_wraparound == StackWraparound::Disallow {
            return Err(RunError::StackUnderflow);
        }
        let value = self.read_u8(STACK_BOTTOM + zero_page(sp))?;
        *self.reg_file.sp_mut() = sp;

        Ok(value)
    }

    #[inline]
    fn stack_push_u16(&mut self, value: u16) -> (r: Result<(), RunError>)
        ensures
            (final(self)@, r) == old(self)@.stack_push_u16(value),
    {
        let (lo, hi) = split_word(value);
        self.stack_push_u8(hi)?;
        self.stack_push_u8(lo)?;

        Ok(())
    }

    #[inline]
    fn stack_pull_u16(&mut self) -> (r: Result<u16, RunError>)
        ensures
            (final(self)@, r) == old(self)@.stack_pull_u16(),
    {
        let lo = self.stack_pull_u8()?;
        let hi = self.stack_pull_u8()?;

        Ok(make_word(lo, hi))
    }

    #[inline]
    fn flag_set(&self, flag: Status) -> (set: bool)
        ensures
            set == self@.regs.flag(flag),
    {
        self.reg_file.flag_set(flag)
    }

    #[inline]
    fn branch(&mut self, addr_mode: AddressMode, cond: bool) -> (r: Result<(), RunError>)
        ensures
            (final(self)@, r) == old(self)@.branch(addr_mode, cond),
    {
        if cond {
            // Branch taken: get the offset
            let offset = sign_extend(self.read_operand(addr_mode)?);
            self.reg_file.adjust_pc_by(offset);
        } else {
            // Branch not taken: skip the offset byte
            self.reg_file.adjust_pc_by(1);
        }
        Ok(())
    }

    #[inline]
    fn compare_reg_mem(&mut self, reg: Register, addr_mode: AddressMode) -> (r: Result<
        (),
        RunError,
    >)
        ensures
            (final(self)@, r) == old(self)@.compare_reg_mem(reg, addr_mode),
    {
        let memv = self.read_operand(addr_mode)?;
        let regv = self.reg_file.reg(reg);

        self.update_flags_nz(sub_in_page(regv, memv));
        self.reg_file.set_flag_from_cond(Status::Carry, regv >= memv);

        Ok(())
    }

    #[inline]
    fn bit(&mut self, addr_mode: AddressMode) -> (r: Result<(), RunError>)
        ensures
            (final(self)@, r) == old(self)@.bit(addr_mode),
    {
        let data = self.read_operand(addr_mode)?;
        let a = self.reg_file.a();

        self.reg_file.set_flag_from_cond(Status::Zero, data & a == 0);
        self.reg_file.set_flag_from_cond(Status::Negative, data & Status::Negative.mask() != 0);
        self.reg_file.set_flag_from_cond(Status::Overflow, data & Status::Overflow.mask() != 0);

        Ok(())
    }

    #[inline]
    fn logic(&mut self, addr_mode: AddressMode, insn: Insn) -> (r: Result<(), RunError>)
        ensures
            (final(self)@, r) == old(self)@.logic(addr_mode, insn),
    {
        let a = self.reg_file.a();
        let value = self.read_operand(addr_mode)?;
        let combined: u8 = match insn {
            Insn::AND(_) => value & a,
            Insn::EOR(_) => value ^ a,
            _ => value | a,
        };
        self.load_reg(Register::A, combined);

        Ok(())
    }

    #[inline]
    fn lsr(&mut self, addr_mode: AddressMode) -> (r: Result<(), RunError>)
        ensures
            (final(self)@, r) == old(self)@.read_modify_write_mem(addr_mode, Modify::ShiftRight),
    {
        self.read_modify_write_mem(addr_mode, Modify::ShiftRight)
    }

    #[inline]
    fn lsra(&mut self)
        ensures
            final(self)@ == old(self)@.read_modify_write_reg(Register::A, Modify::ShiftRight),
    {
        self.read_modify_write_reg(Register::A, Modify::ShiftRight)
    }

    #[inline]
    fn rol(&mut self, addr_mode: AddressMode) -> (r: Result<(), RunError>)
        ensures
            (final(self)@, r) == old(self)@.read_modify_write_mem(
                addr_mode,
                Modify::RotateLeft(old(self)@.regs.flag(Status::Carry)),
            ),
    {
        let carry_set = self.flag_set(Status::Carry);

        self.read_modify_write_mem(addr_mode, Modify::RotateLeft(carry_set))
    }

    #[inline]
    fn rola(&mut self)
        ensures
            final(self)@ == old(self)@.read_modify_write_reg(
                Register::A,
                Modify::RotateLeft(old(self)@.regs.flag(Status::Carry)),
            ),
    {
        let carry_set = self.flag_set(Status::Carry);

        self.read_modify_write_reg(Register::A, Modify::RotateLeft(carry_set))
    }

    #[inline]
    fn ror(&mut self, addr_mode: AddressMode) -> (r: Result<(), RunError>)
        ensures
            (final(self)@, r) == old(self)@.read_modify_write_mem(
                addr_mode,
                Modify::RotateRight(old(self)@.regs.flag(Status::Carry)),
            ),
    {
        let carry_set = self.flag_set(Status::Carry);

        self.read_modify_write_mem(addr_mode, Modify::RotateRight(carry_set))
    }

    #[inline]
    fn rora(&mut self)
        ensures
            final(self)@ == old(self)@.read_modify_write_reg(
                Register::A,
                Modify::RotateRight(old(self)@.regs.flag(Status::Carry)),
            ),
    {
        let carry_set = self.flag_set(Status::Carry);

        self.read_modify_write_reg(Register::A, Modify::RotateRight(carry_set))
    }

    #[inline]
    fn asl(&mut self, addr_mode: AddressMode) -> (r: Result<(), RunError>)
        ensures
            (final(self)@, r) == old(self)@.read_modify_write_mem(addr_mode, Modify::ShiftLeft),
    {
        self.read_modify_write_mem(addr_mode, Modify::ShiftLeft)
    }

    #[inline]
    fn asla(&mut self)
        ensures
            final(self)@ == old(self)@.read_modify_write_reg(Register::A, Modify::ShiftLeft),
    {
        self.read_modify_write_reg(Register::A, Modify::ShiftLeft)
    }

    #[inline]
    fn adc(&mut self, addr_mode: AddressMode) -> (r: Result<(), RunError>)
        ensures
            (final(self)@, r) == old(self)@.arithmetic(addr_mode, false),
    {
        let decimal = self.flag_set(Status::Decimal);
        let carry_in = self.flag_set(Status::Carry);
        let overflow = self.flag_set(Status::Overflow);
        let a = self.reg_file.a();

        let value = self.read_operand(addr_mode)?;
        let sum = adc_result(a, value, carry_in, decimal, overflow);
        self.load_reg(Register::A, sum.value);
        self.reg_file.set_flag_from_cond(Status::Carry, sum.carry);
        self.reg_file.set_flag_from_cond(Status::Overflow, sum.overflow);

        Ok(())
    }

    #[inline]
    fn sbc(&mut self, addr_mode: AddressMode) -> (r: Result<(), RunError>)
        ensures
            (final(self)@, r) == old(self)@.arithmetic(addr_mode, true),
    {
        let decimal = self.flag_set(Status::Decimal);
        let carry_in = self.flag_set(Status::Carry);
        let overflow = self.flag_set(Status::Overflow);
        let a = self.reg_file.a();

        let value = self.read_operand(addr_mode)?;
        let difference = sbc_result(a, value, carry_in, decimal, overflow);
        self.load_reg(Register::A, difference.value);
        self.reg_file.set_flag_from_cond(Status::Carry, difference.carry);
        self.reg_file.set_flag_from_cond(Status::Overflow, difference.overflow);

        Ok(())
    }

    #[inline]
    fn brk(&mut self) -> (r: Result<(), RunError>)
        ensures
            (final(self)@, r) == old(self)@.software_interrupt(),
    {
        // Skip the break mark
        self.reg_file.adjust_pc_by(1);
        // Push the PC
        self.stack_push_u16(self.reg_file.pc())?;
        // Push the status register adjusted for the occasion
        self.php()?;
        // Disable interrupts
        self.reg_file.set_flag(Status::InterruptDisable);
        let new_pc = self.read_u16(IRQ_BRK_VECTOR)?;
        self.reg_file.set_pc(new_pc);

        Ok(())
    }

    #[inline]
    fn jmp(&mut self, addr_mode: AddressMode) -> (r: Result<(), RunError>)
        ensures
            (final(self)@, r) == old(self)@.jump(addr_mode),
    {
        let ea = self.get_effective_address(addr_mode)?;
        self.reg_file.set_pc(ea);

        Ok(())
    }

    #[inline]
    fn jsr(&mut self, addr_mode: AddressMode) -> (r: Result<(), RunError>)
        ensures
            (final(self)@, r) == old(self)@.jump_to_subroutine(addr_mode),
    {
        // Get the new PC location, which also skips the operand
        let ea = self.get_effective_address(addr_mode)?;
        // Now the PC is right after the JSR instruction. RTS adds one to
        // what it pulls, so the address before that is pushed
        self.stack_push_u16(previous_address(self.reg_file.pc()))?;
        // Jump to the subroutine
        self.reg_file.set_pc(ea);

        Ok(())
    }

    #[inline]
    fn php(&mut self) -> (r: Result<(), RunError>)
        ensures
            (final(self)@, r) == old(self)@.stack_push_u8(pushed_by_software(old(self)@.regs.p)),
    {
        let p = self.reg_file.reg(Register::P);

        self.stack_push_u8(p | Status::Break.mask() | Status::AlwaysSet.mask())
    }

    #[inline]
    fn pla(&mut self) -> (r: Result<(), RunError>)
        ensures
            (final(self)@, r) == old(self)@.pull_accumulator(),
    {
        let value = self.stack_pull_u8()?;
        self.load_reg(Register::A, value);

        Ok(())
    }

    #[inline]
    fn rti(&mut self) -> (r: Result<(), RunError>)
        ensures
            (final(self)@, r) == old(self)@.return_from_interrupt(),
    {
        self.pull_status()?;
        let pc = self.stack_pull_u16()?;
        self.reg_file.set_pc(pc);

        Ok(())
    }

    #[inline]
    fn rts(&mut self) -> (r: Result<(), RunError>)
        ensures
            (final(self)@, r) == old(self)@.return_from_subroutine(),
    {
        let pc = self.stack_pull_u16()?;
        self.reg_file.set_pc(next_address(pc));

        Ok(())
    }

    /// Executes an instruction whose opcode has been fetched.
    fn execute(&mut self, insn: Insn) -> (r: Result<(), RunError>)
        ensures
            (final(self)@, r) == old(self)@.execute(insn),
    {
        match insn {
            // Group 0b00. Flags, conditionals, jumps, misc. There are a few
            // quite complex instructions here.
            Insn::BRK => {
                return self.brk();
            },
            Insn::BCC(addr_mode) => {
                return self.branch(addr_mode, !self.flag_set(Status::Carry));
            },
            Insn::BCS(addr_mode) => {
                return self.branch(addr_mode, self.flag_set(Status::Carry));
            },
            Insn::BNE(addr_mode) => {
                return self.branch(addr_mode, !self.flag_set(Status::Zero));
            },
            Insn::BEQ(addr_mode) => {
                return self.branch(addr_mode, self.flag_set(Status::Zero));
            },
            Insn::BVC(addr_mode) => {
                return self.branch(addr_mode, !self.flag_set(Status::Overflow));
            },
            Insn::BVS(addr_mode) => {
                return self.branch(addr_mode, self.flag_set(Status::Overflow));
            },
            Insn::BPL(addr_mode) => {
                return self.branch(addr_mode, !self.flag_set(Status::Negative));
            },
            Insn::BMI(addr_mode) => {
                return self.branch(addr_mode, self.flag_set(Status::Negative));
            },
            Insn::BIT(addr_mode) => {
                return self.bit(addr_mode);
            },
            Insn::CLC => {
                self.reg_file.clear_flag(Status::Carry);
                return Ok(());
            },
            Insn::CLD => {
                self.reg_file.clear_flag(Status::Decimal);
                return Ok(());
            },
            Insn::CLI => {
                self.reg_file.clear_flag(Status::InterruptDisable);
                return Ok(());
            },
            Insn::CLV => {
                self.reg_file.clear_flag(Status::Overflow);
                return Ok(());
            },
            Insn::CPX(addr_mode) => {
                return self.compare_reg_mem(Register::X, addr_mode);
            },
            Insn::CPY(addr_mode) => {
                return self.compare_reg_mem(Register::Y, addr_mode);
            },
            Insn::DEY => {
                self.read_modify_write_reg(Register::Y, Modify::Decrement);
                return Ok(());
            },
            Insn::INX => {
                self.read_modify_write_reg(Register::X, Modify::Increment);
                return Ok(());
            },
            Insn::INY => {
                self.read_modify_write_reg(Register::Y, Modify::Increment);
                return Ok(());
            },
            Insn::JMP(addr_mode) => {
                return self.jmp(addr_mode);
            },
            Insn::JSR(addr_mode) => {
                return self.jsr(addr_mode);
            },
            Insn::LDY(addr_mode) => {
                return self.mem_to_reg(addr_mode, Register::Y);
            },
            Insn::PHA => {
                return self.stack_push_u8(self.reg_file.a());
            },
            Insn::PHP => {
                return self.php();
            },
            Insn::PLA => {
                return self.pla();
            },
            Insn::PLP => {
                return self.pull_status();
            },
            Insn::RTI => {
                return self.rti();
            },
            Insn::RTS => {
                return self.rts();
            },
            Insn::SEC => {
                self.reg_file.set_flag(Status::Carry);
                return Ok(());
            },
            Insn::SED => {
                self.reg_file.set_flag(Status::Decimal);
                return Ok(());
            },
            Insn::SEI => {
                self.reg_file.set_flag(Status::InterruptDisable);
                return Ok(());
            },
            Insn::STY(addr_mode) => {
                return self.reg_to_mem(Register::Y, addr_mode);
            },
            Insn::TAY => {
                self.reg_to_reg(Register::A, Register::Y);
                return Ok(());
            },
            Insn::TYA => {
                self.reg_to_reg(Register::Y, Register::A);
                return Ok(());
            },
            // Group 0b01. ALU instructions and load/store for the accumulator.
            // Very regular encoding to make decoding and execution for the
            // common path faster in hardware (presumably).
            Insn::ADC(addr_mode) => {
                return self.adc(addr_mode);
            },
            Insn::AND(addr_mode) => {
                return self.logic(addr_mode, insn);
            },
            Insn::CMP(addr_mode) => {
                return self.compare_reg_mem(Register::A, addr_mode);
            },
            Insn::EOR(addr_mode) => {
                return self.logic(addr_mode, insn);
            },
            Insn::LDA(addr_mode) => {
                return self.mem_to_reg(addr_mode, Register::A);
            },
            Insn::ORA(addr_mode) => {
                return self.logic(addr_mode, insn);
            },
            Insn::SBC(addr_mode) => {
                return self.sbc(addr_mode);
            },
            Insn::STA(addr_mode) => {
                return self.reg_to_mem(Register::A, addr_mode);
            },
            // Group 0b10. Bit operation and accumulator operations, less
            // regular than the ALU group.
            Insn::ASLA => {
                self.asla();
                return Ok(());
            },
            Insn::ASL(addr_mode) => {
                return self.asl(addr_mode);
            },
            Insn::DEC(addr_mode) => {
                return self.read_modify_write_mem(addr_mode, Modify::Decrement);
            },
            Insn::DEX => {
                self.read_modify_write_reg(Register::X, Modify::Decrement);
                return Ok(());
            },
            Insn::INC(addr_mode) => {
                return self.read_modify_write_mem(addr_mode, Modify::Increment);
            },
            Insn::LDX(addr_mode) => {
                return self.mem_to_reg(addr_mode, Register::X);
            },
            Insn::LSRA => {
                self.lsra();
                return Ok(());
            },
            Insn::LSR(addr_mode) => {
                return self.lsr(addr_mode);
            },
            Insn::NOP => {
                return Ok(());
            },
            Insn::ROLA => {
                self.rola();
                return Ok(());
            },
            Insn::ROL(addr_mode) => {
                return self.rol(addr_mode);
            },
            Insn::RORA => {
                self.rora();
                return Ok(());
            },
            Insn::ROR(addr_mode) => {
                return self.ror(addr_mode);
            },
            Insn::STX(addr_mode) => {
                return self.reg_to_mem(Register::X, addr_mode);
            },
            Insn::TAX => {
                self.reg_to_reg(Register::A, Register::X);
                return Ok(());
            },
            Insn::TSX => {
                self.reg_to_reg(Register::S, Register::X);
                return Ok(());
            },
            Insn::TXA => {
                self.reg_to_reg(Register::X, Register::A);
                return Ok(());
            },
            // Note: TXS does not update flags!
            Insn::TXS => {
                *self.reg_file.sp_mut() = self.reg_file.x();
                return Ok(());
            },
            // Group 0b11 contains invalid instructions
            Insn::JAM => {
                return Err(RunError::InvalidInstruction(self.last_opcode));
            },
        }
    }

    /// Takes the status register from the stack.
    #[inline]
    fn pull_status(&mut self) -> (r: Result<(), RunError>)
        ensures
            (final(self)@, r) == old(self)@.pull_status(),
    {
        let value = self.stack_pull_u8()?;
        *self.reg_file.reg_mut(Register::P) = value;
        self.reg_file.clear_flag(Status::Break);
        self.reg_file.set_flag(Status::AlwaysSet);

        Ok(())
    }

    fn step(&mut self) -> (r: Result<RunExit, RunError>)
        ensures
            (final(self)@, r) == old(self)@.step(),
    {
        // Fetch instruction
        self.last_opcode = match self.mem.read(self.reg_file.pc()) {
            Ok(opcode) => opcode,
            Err(e) => {
                return Err(RunError::CannotFetchInstruction(e));
            },
        };
        self.reg_file.adjust_pc_by(1);

        // Decode instruction from the opcode
        let insn = decode_insn(self.last_opcode);

        // Execute instruction
        self.execute(insn)?;

        Ok(RunExit::Executed(insn))
    }

    /// Takes an interrupt: pushes where the program stands and goes where
    /// the vector says.
    fn enter_interrupt(&mut self, vector: u16) -> (r: Result<(), RunError>)
        ensures
            (final(self)@, r) == old(self)@.enter_interrupt(vector),
    {
        self.reg_file.set_flag(Status::InterruptDisable);
        self.stack_push_u16(self.reg_file.pc())?;

        let p = self.reg_file.reg(Register::P);
        self.stack_push_u8((p & !Status::Break.mask()) | Status::AlwaysSet.mask())?;

        let new_pc = self.read_u16(vector)?;
        self.reg_file.set_pc(new_pc);

        Ok(())
    }

    /// Advances by one instruction, or services one event. A pending reset
    /// comes first, then a latched fault, then a non-maskable interrupt,
    /// then an interrupt, then the next instruction.
    pub fn run(&mut self) -> (r: Result<RunExit, RunError>)
        ensures
            (final(self)@, r) == old(self)@.run(),
    {
        // Handle reset.
        // The real processor can't/won't deassert the line.
        if self.reset_pending {
            let new_pc = self.read_u16(RESET_VECTOR)?;
            self.reg_file.set_pc(new_pc);
            self.fault = None;
            self.reg_file.reset();
            self.reset_pending = false;
        }
        // If the processor faulted, refuse to run.

        if let Some(f) = self.fault {
            return Err(f);
        }
        // Handle other events.
        // The real processor can't/won't deassert these lines.

        if self.nmi_pending {
            self.enter_interrupt(NMI_VECTOR)?;
            self.nmi_pending = false;

            return Ok(RunExit::NonMaskableInterrupt);
        }
        if !self.flag_set(Status::InterruptDisable) && self.irq_pending {
            self.enter_interrupt(IRQ_BRK_VECTOR)?;
            self.irq_pending = false;

            return Ok(RunExit::Interrupt);
        }
        // The register state is rolled back on an instruction fault

        let registers = self.reg_file;
        match self.step() {
            Err(e) => {
                self.fault = Some(e);
                self.reg_file = registers;
                Err(e)
            },
            Ok(o) => Ok(o),
        }
    }
}

} // verus!
