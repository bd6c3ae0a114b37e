use cpu_emulator::fault::Fault;
use cpu_emulator::memory::Memory;

#[test]
fn new_memory_is_zeroed_and_sized() {
    let memory = Memory::new(64);
    assert_eq!(memory.size(), 64);
    for address in 0..64 {
        assert_eq!(memory.read(address), Ok(0));
    }
}

#[test]
fn empty_memory_rejects_every_access() {
    let mut memory = Memory::new(0);
    assert_eq!(memory.size(), 0);
    assert_eq!(memory.read(0), Err(Fault::OutOfBounds { address: 0 }));
    assert_eq!(memory.write(0, 1), Err(Fault::OutOfBounds { address: 0 }));
    assert_eq!(memory.read_u16(0), Err(Fault::OutOfBounds { address: 0 }));
    assert_eq!(memory.write_u16(0, 1), Err(Fault::OutOfBounds { address: 0 }));
}

#[test]
fn write_then_read_byte() {
    let mut memory = Memory::new(16);
    assert_eq!(memory.write(5, 0xAB), Ok(()));
    assert_eq!(memory.read(5), Ok(0xAB));
    assert_eq!(memory.read(4), Ok(0));
    assert_eq!(memory.read(6), Ok(0));
    assert_eq!(memory.size(), 16);
}

#[test]
fn byte_access_is_checked_at_the_boundary() {
    let mut memory = Memory::new(16);
    assert_eq!(memory.write(15, 7), Ok(()));
    assert_eq!(memory.read(15), Ok(7));
    assert_eq!(memory.read(16), Err(Fault::OutOfBounds { address: 16 }));
    assert_eq!(memory.write(16, 7), Err(Fault::OutOfBounds { address: 16 }));
    assert_eq!(memory.read(usize::MAX), Err(Fault::OutOfBounds { address: usize::MAX }));
    assert_eq!(memory.write(usize::MAX, 1), Err(Fault::OutOfBounds { address: usize::MAX }));
}

#[test]
fn failed_byte_write_changes_nothing() {
    let mut memory = Memory::new(4);
    for address in 0..4 {
        assert_eq!(memory.write(address, 0x11 * (address as u8 + 1)), Ok(()));
    }
    assert_eq!(memory.write(4, 0xFF), Err(Fault::OutOfBounds { address: 4 }));
    assert_eq!(memory.read(0), Ok(0x11));
    assert_eq!(memory.read(1), Ok(0x22));
    assert_eq!(memory.read(2), Ok(0x33));
    assert_eq!(memory.read(3), Ok(0x44));
    assert_eq!(memory.size(), 4);
}

#[test]
fn word_is_stored_little_endian() {
    let mut memory = Memory::new(16);
    assert_eq!(memory.write_u16(3, 0xABCD), Ok(()));
    assert_eq!(memory.read(3), Ok(0xCD));
    assert_eq!(memory.read(4), Ok(0xAB));
    assert_eq!(memory.read(2), Ok(0));
    assert_eq!(memory.read(5), Ok(0));
}

#[test]
fn word_is_read_little_endian() {
    let mut memory = Memory::new(16);
    assert_eq!(memory.write(8, 0x34), Ok(()));
    assert_eq!(memory.write(9, 0x12), Ok(()));
    assert_eq!(memory.read_u16(8), Ok(0x1234));
    assert_eq!(memory.read_u16(7), Ok(0x3400));
    assert_eq!(memory.read_u16(9), Ok(0x0012));
}

#[test]
fn word_round_trip_at_every_address() {
    let mut memory = Memory::new(32);
    let values: [u16; 7] = [0, 1, 0x00FF, 0x0100, 0x1234, 0xFF00, 0xFFFF];
    for address in 0..31 {
        for value in values {
            assert_eq!(memory.write_u16(address, value), Ok(()));
            assert_eq!(memory.read_u16(address), Ok(value));
        }
    }
}

#[test]
fn word_round_trip_for_every_value() {
    let mut memory = Memory::new(4);
    for value in 0..=u16::MAX {
        assert_eq!(memory.write_u16(1, value), Ok(()));
        assert_eq!(memory.read_u16(1), Ok(value));
    }
    assert_eq!(memory.read(0), Ok(0));
    assert_eq!(memory.read(3), Ok(0));
}

#[test]
fn word_access_is_checked_at_the_boundary() {
    let mut memory = Memory::new(16);
    assert_eq!(memory.write_u16(14, 0xBEEF), Ok(()));
    assert_eq!(memory.read_u16(14), Ok(0xBEEF));
    assert_eq!(memory.read_u16(15), Err(Fault::OutOfBounds { address: 15 }));
    assert_eq!(memory.write_u16(15, 1), Err(Fault::OutOfBounds { address: 15 }));
    assert_eq!(memory.read_u16(16), Err(Fault::OutOfBounds { address: 16 }));
    assert_eq!(memory.write_u16(16, 1), Err(Fault::OutOfBounds { address: 16 }));
    assert_eq!(memory.read_u16(usize::MAX), Err(Fault::OutOfBounds { address: usize::MAX }));
    assert_eq!(memory.write_u16(usize::MAX, 1), Err(Fault::OutOfBounds { address: usize::MAX }));
}

#[test]
fn failed_word_write_changes_nothing() {
    let mut memory = Memory::new(4);
    assert_eq!(memory.write(3, 0x77), Ok(()));
    assert_eq!(memory.write_u16(3, 0xABCD), Err(Fault::OutOfBounds { address: 3 }));
    assert_eq!(memory.read(3), Ok(0x77));
    assert_eq!(memory.read(2), Ok(0));
    assert_eq!(memory.size(), 4);
}

#[test]
fn one_byte_memory_holds_no_word() {
    let mut memory = Memory::new(1);
    assert_eq!(memory.read(0), Ok(0));
    assert_eq!(memory.read_u16(0), Err(Fault::OutOfBounds { address: 0 }));
    assert_eq!(memory.write_u16(0, 0x0101), Err(Fault::OutOfBounds { address: 0 }));
    assert_eq!(memory.read(0), Ok(0));
}
