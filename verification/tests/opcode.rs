use cpu_emulator::opcode::{Opcode, Operand};

const TABLE: [(u8, Opcode, Operand); 27] = [
    (0x01, Opcode::Load, Operand::Address),
    (0x02, Opcode::Store, Operand::Address),
    (0x03, Opcode::Add, Operand::Address),
    (0x04, Opcode::Sub, Operand::Address),
    (0x07, Opcode::Inc, Operand::Implied),
    (0x08, Opcode::Dec, Operand::Implied),
    (0x09, Opcode::And, Operand::Address),
    (0x0A, Opcode::Or, Operand::Address),
    (0x0B, Opcode::Xor, Operand::Address),
    (0x10, Opcode::Jmp, Operand::Address),
    (0x11, Opcode::Jz, Operand::Address),
    (0x12, Opcode::Jnz, Operand::Address),
    (0x13, Opcode::Lda, Operand::Immediate),
    (0x14, Opcode::Mov, Operand::Implied),
    (0x15, Opcode::Mul, Operand::Implied),
    (0x16, Opcode::Div, Operand::Implied),
    (0x17, Opcode::Cmp, Operand::Implied),
    (0x18, Opcode::Call, Operand::Address),
    (0x19, Opcode::Ret, Operand::Implied),
    (0x1A, Opcode::Jp, Operand::Address),
    (0x1B, Opcode::Jn, Operand::Address),
    (0x1C, Opcode::Int, Operand::Address),
    (0x1D, Opcode::Cli, Operand::Implied),
    (0x1E, Opcode::Sei, Operand::Implied),
    (0x1F, Opcode::Push, Operand::Implied),
    (0x20, Opcode::Pop, Operand::Implied),
    (0xFF, Opcode::Halt, Operand::Implied),
];

#[test]
fn every_defined_byte_decodes_to_its_instruction() {
    for (byte, opcode, _) in TABLE {
        assert_eq!(Opcode::decode(byte), Some(opcode));
    }
}

#[test]
fn every_other_byte_decodes_to_nothing() {
    let mut unknown = 0;
    for byte in 0..=u8::MAX {
        if TABLE.iter().all(|(code, _, _)| *code != byte) {
            assert_eq!(Opcode::decode(byte), None);
            unknown += 1;
        }
    }
    assert_eq!(unknown, 256 - 27);
}

#[test]
fn gaps_in_the_table_are_unknown() {
    for byte in [0x00u8, 0x05, 0x06, 0x0C, 0x0D, 0x0E, 0x0F, 0x21, 0x7F, 0x80, 0xFE] {
        assert_eq!(Opcode::decode(byte), None);
    }
}

#[test]
fn every_instruction_has_its_operand() {
    for (_, opcode, operand) in TABLE {
        assert_eq!(opcode.operand(), operand);
    }
}
