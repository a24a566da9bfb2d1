use yamos6502::{Memory, MemoryError, RomRam, MAX_MEMORY_SIZE};

#[test]
fn ram_keeps_what_is_written() {
    let mut memory = RomRam::new(vec![0; 0x100], 0x80);
    assert_eq!(memory.read(0x00), Ok(0));
    assert_eq!(memory.write(0x00, 0x12), Ok(()));
    assert_eq!(memory.write(0x7f, 0x34), Ok(()));
    assert_eq!(memory.read(0x00), Ok(0x12));
    assert_eq!(memory.read(0x7f), Ok(0x34));
    assert_eq!(memory.read(0x01), Ok(0));
    assert_eq!(memory.cells()[0x7f], 0x34);
    assert_eq!(memory.cells().len(), 0x100);
}

#[test]
fn rom_can_be_read_but_not_written() {
    let mut cells = vec![0; 0x100];
    cells[0x80] = 0xaa;
    cells[0xff] = 0xbb;
    let mut memory = RomRam::new(cells, 0x80);
    assert_eq!(memory.read(0x80), Ok(0xaa));
    assert_eq!(memory.read(0xff), Ok(0xbb));
    assert_eq!(memory.write(0x80, 1), Err(MemoryError::ReadOnlyAddress(0x80)));
    assert_eq!(memory.write(0xff, 1), Err(MemoryError::ReadOnlyAddress(0xff)));
    assert_eq!(memory.read(0x80), Ok(0xaa));
    assert_eq!(memory.read(0xff), Ok(0xbb));
}

#[test]
fn addresses_behind_the_last_cell_are_bad() {
    let mut memory = RomRam::new(vec![0; 0x100], 0x80);
    assert_eq!(memory.read(0x100), Err(MemoryError::BadAddress(0x100)));
    assert_eq!(memory.read(0xffff), Err(MemoryError::BadAddress(0xffff)));
    // A bad address is reported as such in ROM too
    assert_eq!(memory.write(0x100, 1), Err(MemoryError::BadAddress(0x100)));
    assert_eq!(memory.write(0xffff, 1), Err(MemoryError::BadAddress(0xffff)));
    let mut empty = RomRam::new(vec![], 0);
    assert_eq!(empty.read(0), Err(MemoryError::BadAddress(0)));
    assert_eq!(empty.write(0, 1), Err(MemoryError::BadAddress(0)));
}

#[test]
fn full_memory_has_its_last_cell_in_rom() {
    let mut memory = RomRam::new(vec![0; MAX_MEMORY_SIZE], 0xffff);
    assert_eq!(memory.write(0xfffe, 7), Ok(()));
    assert_eq!(memory.read(0xfffe), Ok(7));
    assert_eq!(memory.write(0xffff, 7), Err(MemoryError::ReadOnlyAddress(0xffff)));
    assert_eq!(memory.read(0xffff), Ok(0));
}
