//! Register file
//!
//! MOS 6502 has five 8-bit registers and the 16-bit program counter.

use vstd::prelude::*;

verus! {

/// Flags of the status register, from bit 7 down to bit 0.
#[derive(Debug, Clone, Copy, PartialEq, Eq, Structural)]
pub enum Status {
    /// N, bit 7
    Negative,
    /// V, bit 6
    Overflow,
    /// Bit 5 has no meaning: in the register it is hardwired to `1`.
    AlwaysSet,
    /// B, bit 4. It is never set in the register, only in the value of the
    /// register that BRK and PHP push on the stack.
    Break,
    /// D, bit 3: arithmetic works on packed BCD
    Decimal,
    /// I, bit 2: interrupt requests are ignored
    InterruptDisable,
    /// Z, bit 1
    Zero,
    /// C, bit 0
    Carry,
}

impl Status {
    /// Position of the flag in the status register.
    pub open spec fn bit_index(self) -> u8 {
        match self {
            Status::Negative => 7,
            Status::Overflow => 6,
            Status::AlwaysSet => 5,
            Status::Break => 4,
            Status::Decimal => 3,
            Status::InterruptDisable => 2,
            Status::Zero => 1,
            Status::Carry => 0,
        }
    }

    /// The byte that has the flag's bit set and no other.
    pub open spec fn spec_mask(&self) -> u8 {
        match self {
            Status::Negative => 0x80,
            Status::Overflow => 0x40,
            Status::AlwaysSet => 0x20,
            Status::Break => 0x10,
            Status::Decimal => 0x08,
            Status::InterruptDisable => 0x04,
            Status::Zero => 0x02,
            Status::Carry => 0x01,
        }
    }

    pub fn bit(&self) -> (index: u8)
        ensures
            index == self.bit_index(),
            index < 8,
    {
        match self {
            Status::Negative => 7,
            Status::Overflow => 6,
            Status::AlwaysSet => 5,
            Status::Break => 4,
            Status::Decimal => 3,
            Status::InterruptDisable => 2,
            Status::Zero => 1,
            Status::Carry => 0,
        }
    }

    #[verifier::when_used_as_spec(spec_mask)]
    pub fn mask(&self) -> (m: u8)
        ensures
            m == self.spec_mask(),
    {
        let index: u8 = self.bit();
        proof {
            lemma_mask_is_shifted_one(*self);
        }
        1u8 << index
    }
}

/// The mask of a flag is the number one shifted left to the flag's position.
pub proof fn lemma_mask_is_shifted_one(flag: Status)
    ensures
        flag.spec_mask() == 1u8 << flag.bit_index(),
{
    assert(1u8 << 7u8 == 0x80 && 1u8 << 6u8 == 0x40 && 1u8 << 5u8 == 0x20 && 1u8 << 4u8 == 0x10
        && 1u8 << 3u8 == 0x08 && 1u8 << 2u8 == 0x04 && 1u8 << 1u8 == 0x02 && 1u8 << 0u8 == 0x01)
        by (bit_vector);
}

/// The status byte `p` with one flag forced on or off and the others kept.
pub open spec fn with_flag(p: u8, flag: Status, on: bool) -> u8 {
    if on {
        p | flag.spec_mask()
    } else {
        p & !flag.spec_mask()
    }
}

/// Whether a flag is set in the status byte `p`.
pub open spec fn has_flag(p: u8, flag: Status) -> bool {
    p & flag.spec_mask() != 0
}

/// Forcing a flag makes it read as it was forced, and every other flag reads
/// as before.
pub proof fn lemma_with_flag(p: u8, flag: Status, on: bool, other: Status)
    ensures
        has_flag(with_flag(p, flag, on), flag) == on,
        other != flag ==> has_flag(with_flag(p, flag, on), other) == has_flag(p, other),
{
    let m = flag.spec_mask();
    let o = other.spec_mask();
    assert(m == 0x80 || m == 0x40 || m == 0x20 || m == 0x10 || m == 0x08 || m == 0x04 || m == 0x02
        || m == 0x01);
    assert(o == 0x80 || o == 0x40 || o == 0x20 || o == 0x10 || o == 0x08 || o == 0x04 || o == 0x02
        || o == 0x01);
    assert(other != flag ==> o != m);
    assert(((p | m) & m != 0) && ((p & !m) & m == 0) && (o != m ==> ((p | m) & o == p & o) && ((p
        & !m) & o == p & o))) by (bit_vector)
        requires
            m == 0x80 || m == 0x40 || m == 0x20 || m == 0x10 || m == 0x08 || m == 0x04 || m == 0x02
                || m == 0x01,
            o == 0x80 || o == 0x40 || o == 0x20 || o == 0x10 || o == 0x08 || o == 0x04 || o == 0x02
                || o == 0x01,
    ;
}

/// Names of the 8-bit registers.
#[derive(Debug, Clone, Copy, PartialEq, Eq, Structural)]
pub enum Register {
    /// Accumulator
    A,
    /// X index register
    X,
    /// Y index register
    Y,
    /// Status register [NV-BDIZC]
    P,
    /// Stack pointer. The stack grows top-down.
    S,
}

/// MOS 6502 register file
#[derive(Debug, Clone, Copy, PartialEq, Eq, Structural)]
pub struct RegisterFile {
    /// Program counter
    pub pc: u16,
    /// Accumulator
    pub a: u8,
    /// X index register
    pub x: u8,
    /// Y index register
    pub y: u8,
    /// Status register
    pub p: u8,
    /// Stack pointer
    pub s: u8,
}

/// The program counter moved by `offset`, modulo 2^16.
pub open spec fn pc_moved(pc: u16, offset: int) -> u16 {
    ((pc + offset) % 0x1_0000) as u16
}

impl RegisterFile {
    /// The value of the named register.
    pub open spec fn get(self, reg: Register) -> u8 {
        match reg {
            Register::A => self.a,
            Register::X => self.x,
            Register::Y => self.y,
            Register::P => self.p,
            Register::S => self.s,
        }
    }

    /// The register file with the named register replaced by `value`.
    pub open spec fn with_reg(self, reg: Register, value: u8) -> RegisterFile {
        match reg {
            Register::A => RegisterFile { a: value, ..self },
            Register::X => RegisterFile { x: value, ..self },
            Register::Y => RegisterFile { y: value, ..self },
            Register::P => RegisterFile { p: value, ..self },
            Register::S => RegisterFile { s: value, ..self },
        }
    }

    /// Whether the flag is set in the status register.
    pub open spec fn flag(self, flag: Status) -> bool {
        has_flag(self.p, flag)
    }

    /// The register file with one flag forced on or off.
    pub open spec fn with_flag(self, flag: Status, on: bool) -> RegisterFile {
        RegisterFile { p: with_flag(self.p, flag, on), ..self }
    }

    /// The state of the registers at power-on: interrupts disabled, binary
    /// arithmetic, every other flag cleared.
    pub open spec fn after_reset(self) -> RegisterFile {
        RegisterFile { p: 0x24, ..self }
    }

    /// The registers before the first reset hold arbitrary values, chosen
    /// here to be inconsistent so that software relying on them is caught.
    pub open spec fn power_on() -> RegisterFile {
        RegisterFile { pc: 0xFF55, a: 0xAA, x: 0xCC, y: 0xD2, p: 0, s: 0x01 }
    }

    pub fn new() -> (regf: Self)
        ensures
            regf == RegisterFile::power_on(),
    {
        Self { pc: 0xFF55, a: 0xAA, x: 0xCC, y: 0xD2, p: 0, s: 0x01 }
    }

    /// The hardware sets a few flags; everything else is left to the
    /// software, the stack pointer included.
    pub fn reset(&mut self)
        ensures
            *final(self) == old(self).after_reset(),
            final(self).flag(Status::InterruptDisable),
            final(self).flag(Status::AlwaysSet),
            !final(self).flag(Status::Decimal),
            !final(self).flag(Status::Break),
    {
        *self.reg_mut(Register::P) = 0;
        self.set_flag(Status::InterruptDisable);
        self.set_flag(Status::AlwaysSet);
        assert((0u8 | 0x04u8) | 0x20u8 == 0x24u8 && 0x24u8 & 0x04u8 != 0 && 0x24u8 & 0x20u8 != 0
            && 0x24u8 & 0x08u8 == 0 && 0x24u8 & 0x10u8 == 0) by (bit_vector);
    }

    #[inline]
    pub fn reg_mut(&mut self, reg: Register) -> (r: &mut u8)
        ensures
            *r == old(self).get(reg),
            *final(self) == old(self).with_reg(reg, *final(r)),
    {
        match reg {
            Register::A => &mut self.a,
            Register::X => &mut self.x,
            Register::Y => &mut self.y,
            Register::P => &mut self.p,
            Register::S => &mut self.s,
        }
    }

    #[inline]
    pub fn reg(&self, reg: Register) -> (value: u8)
        ensures
            value == self.get(reg),
    {
        match reg {
            Register::A => self.a,
            Register::X => self.x,
            Register::Y => self.y,
            Register::P => self.p,
            Register::S => self.s,
        }
    }

    #[inline]
    pub fn a(&self) -> (value: u8)
        ensures
            value == self.a,
    {
        self.reg(Register::A)
    }

    #[inline]
    pub fn x(&self) -> (value: u8)
        ensures
            value == self.x,
    {
        self.reg(Register::X)
    }

    #[inline]
    pub fn y(&self) -> (value: u8)
        ensures
            value == self.y,
    {
        self.reg(Register::Y)
    }

    #[inline]
    pub fn sp(&self) -> (value: u8)
        ensures
            value == self.s,
    {
        self.reg(Register::S)
    }

    #[inline]
    pub fn pc(&self) -> (value: u16)
        ensures
            value == self.pc,
    {
        self.pc
    }

    #[inline]
    pub fn a_mut(&mut self) -> (r: &mut u8)
        ensures
            *r == old(self).a,
            *final(self) == (RegisterFile { a: *final(r), ..*old(self) }),
    {
        &mut self.a
    }

    #[inline]
    pub fn x_mut(&mut self) -> (r: &mut u8)
        ensures
            *r == old(self).x,
            *final(self) == (RegisterFile { x: *final(r), ..*old(self) }),
    {
        &mut self.x
    }

    #[inline]
    pub fn y_mut(&mut self) -> (r: &mut u8)
        ensures
            *r == old(self).y,
            *final(self) == (RegisterFile { y: *final(r), ..*old(self) }),
    {
        &mut self.y
    }

    #[inline]
    pub fn sp_mut(&mut self) -> (r: &mut u8)
        ensures
            *r == old(self).s,
            *final(self) == (RegisterFile { s: *final(r), ..*old(self) }),
    {
        &mut self.s
    }

    #[inline]
    pub fn set_pc(&mut self, pc: u16)
        ensures
            *final(self) == (RegisterFile { pc, ..*old(self) }),
    {
        self.pc = pc
    }

    /// Moves the program counter by a signed displacement, wrapping around
    /// the 16-bit address space.
    #[inline]
    pub fn adjust_pc_by(&mut self, offset: i8)
        ensures
            *final(self) == (RegisterFile {
                pc: pc_moved(old(self).pc, offset as int),
                ..*old(self)
            }),
    {
        let wide: i16 = offset as i16;
        self.pc = self.pc.wrapping_add_signed(wide);
    }

    #[inline]
    pub fn flag_set(&self, flag: Status) -> (set: bool)
        ensures
            set == self.flag(flag),
    {
        (self.reg(Register::P) & flag.mask()) != 0
    }

    #[inline]
    pub fn set_flag_from_cond(&mut self, flag: Status, cond: bool)
        ensures
            *final(self) == old(self).with_flag(flag, cond),
            final(self).flag(flag) == cond,
    {
        let mask: u8 = flag.mask();
        let index: u8 = flag.bit();
        let bit: u8 = if cond { 1 } else { 0 };
        let ghost before = self.p;
        proof {
            lemma_mask_is_shifted_one(flag);
            assert((before & !mask) | (bit << index) == if bit == 1 {
                before | mask
            } else {
                before & !mask
            }) by (bit_vector)
                requires
                    mask == 1u8 << index,
                    index < 8,
                    bit == 0 || bit == 1,
            ;
            lemma_with_flag(before, flag, cond, flag);
        }
        let p = self.reg_mut(Register::P);
        *p = (*p & !mask) | (bit << index);
    }

    #[inline]
    pub fn set_flag(&mut self, flag: Status)
        ensures
            *final(self) == old(self).with_flag(flag, true),
            final(self).flag(flag),
    {
        self.set_flag_from_cond(flag, true)
    }

    #[inline]
    pub fn clear_flag(&mut self, flag: Status)
        ensures
            *final(self) == old(self).with_flag(flag, false),
            !final(self).flag(flag),
    {
        self.set_flag_from_cond(flag, false)
    }

    /// The eight flags as letters, from bit 7 down to bit 0: a capital for a
    /// flag that is set, a small letter for one that is clear.
    pub open spec fn letters(self) -> Seq<char> {
        seq![
            if self.flag(Status::Negative) { 'N' } else { 'n' },
            if self.flag(Status::Overflow) { 'V' } else { 'v' },
            if self.flag(Status::AlwaysSet) { 'X' } else { 'x' },
            if self.flag(Status::Break) { 'B' } else { 'b' },
            if self.flag(Status::Decimal) { 'D' } else { 'd' },
            if self.flag(Status::InterruptDisable) { 'I' } else { 'i' },
            if self.flag(Status::Zero) { 'Z' } else { 'z' },
            if self.flag(Status::Carry) { 'C' } else { 'c' },
        ]
    }

    /// The status register in the form a register dump shows it.
    pub fn flag_letters(&self) -> (flags: [char; 8])
        ensures
            flags@ == self.letters(),
    {
        let flags: [char; 8] = [
            if self.flag_set(Status::Negative) { 'N' } else { 'n' },
            if self.flag_set(Status::Overflow) { 'V' } else { 'v' },
            if self.flag_set(Status::AlwaysSet) { 'X' } else { 'x' },
            if self.flag_set(Status::Break) { 'B' } else { 'b' },
            if self.flag_set(Status::Decimal) { 'D' } else { 'd' },
            if self.flag_set(Status::InterruptDisable) { 'I' } else { 'i' },
            if self.flag_set(Status::Zero) { 'Z' } else { 'z' },
            if self.flag_set(Status::Carry) { 'C' } else { 'c' },
        ];
        assert(flags@ =~= self.letters());
        flags
    }
}

impl Default for RegisterFile {
    fn default() -> (regf: Self)
        ensures
            regf == RegisterFile::power_on(),
    {
        RegisterFile::new()
    }
}

} // verus!
