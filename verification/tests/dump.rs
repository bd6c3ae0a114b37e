use cpu_emulator::cpu::CPU;
use cpu_emulator::fault::Fault;

#[test]
fn dump_of_nothing_is_empty() {
    let cpu = CPU::new(16);
    assert_eq!(cpu.dump_memory(0, 0), (String::new(), None));
    assert_eq!(cpu.dump_memory(16, 0), (String::new(), None));
    assert_eq!(cpu.dump_memory(usize::MAX, 0), (String::new(), None));
}

#[test]
fn dump_renders_upper_case_hex_with_spaces() {
    let mut cpu = CPU::new(16);
    cpu.memory.write(0, 0x00).unwrap();
    cpu.memory.write(1, 0x0A).unwrap();
    cpu.memory.write(2, 0xFF).unwrap();
    cpu.memory.write(3, 0x9C).unwrap();
    assert_eq!(cpu.dump_memory(0, 4), (String::from("00 0A FF 9C "), None));
    assert_eq!(cpu.dump_memory(1, 2), (String::from("0A FF "), None));
}

#[test]
fn dump_renders_every_byte_value() {
    let mut cpu = CPU::new(1);
    for value in 0..=u8::MAX {
        cpu.memory.write(0, value).unwrap();
        assert_eq!(cpu.dump_memory(0, 1), (format!("{:02X} ", value), None));
    }
}

#[test]
fn dump_breaks_the_line_after_sixteen_bytes() {
    let mut cpu = CPU::new(64);
    for address in 0..40 {
        cpu.memory.write(address, address as u8).unwrap();
    }
    let expected = String::from(
        "00 01 02 03 04 05 06 07 08 09 0A 0B 0C 0D 0E 0F \n\
         10 11 12 13 14 15 16 17 18 19 1A 1B 1C 1D 1E 1F \n\
         20 21 ",
    );
    assert_eq!(cpu.dump_memory(0, 34), (expected, None));
    assert_eq!(
        cpu.dump_memory(8, 16),
        (String::from("08 09 0A 0B 0C 0D 0E 0F 10 11 12 13 14 15 16 17 \n"), None)
    );
}

#[test]
fn dump_stops_at_the_end_of_memory() {
    let mut cpu = CPU::new(4);
    cpu.memory.write(2, 0xAB).unwrap();
    cpu.memory.write(3, 0xCD).unwrap();
    assert_eq!(
        cpu.dump_memory(2, 5),
        (String::from("AB CD "), Some(Fault::OutOfBounds { address: 4 }))
    );
    assert_eq!(cpu.dump_memory(2, 2), (String::from("AB CD "), None));
    assert_eq!(
        cpu.dump_memory(0, usize::MAX),
        (String::from("00 00 AB CD "), Some(Fault::OutOfBounds { address: 4 }))
    );
}

#[test]
fn dump_from_outside_memory_reads_nothing() {
    let cpu = CPU::new(4);
    assert_eq!(cpu.dump_memory(4, 1), (String::new(), Some(Fault::OutOfBounds { address: 4 })));
    assert_eq!(cpu.dump_memory(9, 3), (String::new(), Some(Fault::OutOfBounds { address: 9 })));
    assert_eq!(
        cpu.dump_memory(usize::MAX, usize::MAX),
        (String::new(), Some(Fault::OutOfBounds { address: usize::MAX }))
    );
}
