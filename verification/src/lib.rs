//! Behavioral emulator of the MOS 6502 microprocessor.
//!
//! The crate models the processor at the level of retired instructions: there
//! is no cycle counting, no undocumented opcodes and no bus-level side effects.

pub mod alu;
pub mod bcd;
pub mod cpu;
pub mod image;
pub mod insns;
pub mod laws;
pub mod machine;
pub mod memory;
pub mod mnemonics;
pub mod regfile;

pub use crate::cpu::Mos6502;
pub use crate::insns::{decode_insn, encode_insn, AddressMode, Insn};
pub use crate::machine::{
    RunError, RunExit, StackWraparound, IRQ_BRK_VECTOR, NMI_VECTOR, RESET_VECTOR, STACK_BOTTOM,
};
pub use crate::memory::{Memory, MemoryError, RomRam, MAX_MEMORY_SIZE};
pub use crate::mnemonics::get_opcode_string;
pub use crate::regfile::{Register, RegisterFile, Status};
