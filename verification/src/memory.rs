//! Memory as the processor sees it: 64 KiB of 8-bit cells behind a narrow
//! interface of one read and one write.

use vstd::prelude::*;

verus! {

/// Memory errors
#[derive(Debug, Clone, Copy, PartialEq, Eq, Structural)]
pub enum MemoryError {
    /// Could not read at the address
    BadAddress(u16),
    /// Could not write at the address
    ReadOnlyAddress(u16),
}

/// No more than 64 KiB of memory is supported
pub const MAX_MEMORY_SIZE: usize = 0x1_0000;

/// A 16-bit addressable, 8-bit cell memory.
///
/// The processor makes no assumption on what is behind an address: RAM, ROM
/// or a device whose registers change when they are read. An implementation
/// chooses a model of its state and says, as functions of that model, what
/// each access returns and what state it leaves. The contracts of the
/// processor are stated over these functions.
///
/// A memory that is implemented in code that is not verified gives `read`
/// and `write` only. The four functions then stand for whatever that memory
/// does, and what is proved of the processor holds of it as far as its
/// accesses are functions of its state.
pub trait Memory {
    /// What the memory is to its users.
    type Model;

    /// The model of this memory.
    open spec fn model(&self) -> Self::Model {
        arbitrary()
    }

    /// What a read at `addr` returns.
    open spec fn read_result(m: Self::Model, addr: u16) -> Result<u8, MemoryError> {
        arbitrary()
    }

    /// The memory after a read at `addr`.
    open spec fn after_read(m: Self::Model, addr: u16) -> Self::Model {
        arbitrary()
    }

    /// What a write of `value` at `addr` returns.
    open spec fn write_result(m: Self::Model, addr: u16, value: u8) -> Result<(), MemoryError> {
        arbitrary()
    }

    /// The memory after a write of `value` at `addr`.
    open spec fn after_write(m: Self::Model, addr: u16, value: u8) -> Self::Model {
        arbitrary()
    }

    fn write(&mut self, addr: u16, value: u8) -> (r: Result<(), MemoryError>)
        ensures
            r == Self::write_result(old(self).model(), addr, value),
            final(self).model() == Self::after_write(old(self).model(), addr, value),
    ;

    fn read(&mut self, addr: u16) -> (r: Result<u8, MemoryError>)
        ensures
            r == Self::read_result(old(self).model(), addr),
            final(self).model() == Self::after_read(old(self).model(), addr),
    ;
}

/// A memory of RAM below `rom_start` and ROM from there up. It may hold fewer
/// cells than there are addresses: the addresses behind its last cell are
/// bad addresses.
pub struct RomRam {
    cells: Vec<u8>,
    rom_start: u16,
}

/// The cells of a `RomRam` and the address at which its ROM starts.
pub struct RomRamModel {
    pub cells: Seq<u8>,
    pub rom_start: u16,
}

impl RomRamModel {
    /// An address that has a cell.
    pub open spec fn has_cell(self, addr: u16) -> bool {
        addr < self.cells.len()
    }

    /// An address whose cell cannot be written.
    pub open spec fn is_rom(self, addr: u16) -> bool {
        addr >= self.rom_start
    }
}

impl RomRam {
    pub fn new(cells: Vec<u8>, rom_start: u16) -> (memory: Self)
        ensures
            memory.model() == (RomRamModel { cells: cells@, rom_start }),
    {
        Self { cells, rom_start }
    }

    /// The cells, ROM included.
    pub fn cells(&self) -> (cells: &Vec<u8>)
        ensures
            cells@ == self.model().cells,
    {
        &self.cells
    }
}

impl Memory for RomRam {
    type Model = RomRamModel;

    closed spec fn model(&self) -> RomRamModel {
        RomRamModel { cells: self.cells@, rom_start: self.rom_start }
    }

    /// Any cell that is there can be read.
    open spec fn read_result(m: RomRamModel, addr: u16) -> Result<u8, MemoryError> {
        if m.has_cell(addr) {
            Ok(m.cells[addr as int])
        } else {
            Err(MemoryError::BadAddress(addr))
        }
    }

    /// Reading changes nothing.
    open spec fn after_read(m: RomRamModel, addr: u16) -> RomRamModel {
        m
    }

    /// A cell that is there can be written unless it lies in ROM.
    open spec fn write_result(m: RomRamModel, addr: u16, value: u8) -> Result<(), MemoryError> {
        if !m.has_cell(addr) {
            Err(MemoryError::BadAddress(addr))
        } else if m.is_rom(addr) {
            Err(MemoryError::ReadOnlyAddress(addr))
        } else {
            Ok(())
        }
    }

    /// A write that is accepted changes its cell and no other; one that is
    /// refused changes nothing.
    open spec fn after_write(m: RomRamModel, addr: u16, value: u8) -> RomRamModel {
        if m.has_cell(addr) && !m.is_rom(addr) {
            RomRamModel { cells: m.cells.update(addr as int, value), ..m }
        } else {
            m
        }
    }

    fn write(&mut self, addr: u16, value: u8) -> (r: Result<(), MemoryError>) {
        if addr as usize >= self.cells.len() {
            return Err(MemoryError::BadAddress(addr));
        }
        if addr >= self.rom_start {
            return Err(MemoryError::ReadOnlyAddress(addr));
        }
        self.cells[addr as usize] = value;

        Ok(())
    }

    fn read(&mut self, addr: u16) -> (r: Result<u8, MemoryError>) {
        if addr as usize >= self.cells.len() {
            return Err(MemoryError::BadAddress(addr));
        }
        let value: u8 = self.cells[addr as usize];

        Ok(value)
    }
}

} // verus!
