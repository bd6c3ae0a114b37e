//! The instruction set: which byte names which instruction, and what operand
//! follows it in the program.

use vstd::prelude::*;

verus! {

/// What follows an opcode byte in the program.
#[derive(Clone, Copy, Debug, PartialEq, Eq, Structural)]
pub enum Operand {
    /// Nothing: the instruction works on registers alone.
    Implied,
    /// One byte, used as a value.
    Immediate,
    /// Two bytes, a little-endian 16-bit address.
    Address,
}

/// The instructions of the processor.
#[derive(Clone, Copy, Debug, PartialEq, Eq, Structural)]
pub enum Opcode {
    /// `0x01`: load the accumulator from memory.
    Load,
    /// `0x02`: store the accumulator to memory.
    Store,
    /// `0x03`: add a byte from memory to the accumulator, wrapping.
    Add,
    /// `0x04`: subtract a byte from memory from the accumulator, wrapping.
    Sub,
    /// `0x07`: increment the accumulator, wrapping.
    Inc,
    /// `0x08`: decrement the accumulator, wrapping.
    Dec,
    /// `0x09`: bitwise and of the accumulator with a byte from memory.
    And,
    /// `0x0A`: bitwise or of the accumulator with a byte from memory.
    Or,
    /// `0x0B`: bitwise exclusive or of the accumulator with a byte from memory.
    Xor,
    /// `0x10`: jump.
    Jmp,
    /// `0x11`: jump if the accumulator is zero.
    Jz,
    /// `0x12`: jump if the accumulator is not zero.
    Jnz,
    /// `0x13`: load the accumulator with the byte that follows.
    Lda,
    /// `0x14`: copy register A to register B.
    Mov,
    /// `0x15`: multiply register A by register B into the accumulator, wrapping.
    Mul,
    /// `0x16`: divide register A by register B into the accumulator.
    Div,
    /// `0x17`: reserved for a comparison; does nothing.
    Cmp,
    /// `0x18`: push the program counter and jump.
    Call,
    /// `0x19`: release two stack bytes and write the program counter there.
    Ret,
    /// `0x1A`: reserved for "jump if positive"; always jumps.
    Jp,
    /// `0x1B`: reserved for "jump if negative"; always jumps.
    Jn,
    /// `0x1C`: write the program counter at the stack pointer, lower the
    /// stack pointer by two, and jump to the vector.
    Int,
    /// `0x1D`: disable interrupts.
    Cli,
    /// `0x1E`: enable interrupts.
    Sei,
    /// `0x1F`: push register A.
    Push,
    /// `0x20`: pop into register A.
    Pop,
    /// `0xFF`: halt.
    Halt,
}

impl Opcode {
    /// The opcode table: the instruction that `byte` names, if any.
    pub open spec fn decode_spec(byte: u8) -> Option<Opcode> {
        if byte == 0x01 {
            Some(Opcode::Load)
        } else if byte == 0x02 {
            Some(Opcode::Store)
        } else if byte == 0x03 {
            Some(Opcode::Add)
        } else if byte == 0x04 {
            Some(Opcode::Sub)
        } else if byte == 0x07 {
            Some(Opcode::Inc)
        } else if byte == 0x08 {
            Some(Opcode::Dec)
        } else if byte == 0x09 {
            Some(Opcode::And)
        } else if byte == 0x0A {
            Some(Opcode::Or)
        } else if byte == 0x0B {
            Some(Opcode::Xor)
        } else if byte == 0x10 {
            Some(Opcode::Jmp)
        } else if byte == 0x11 {
            Some(Opcode::Jz)
        } else if byte == 0x12 {
            Some(Opcode::Jnz)
        } else if byte == 0x13 {
            Some(Opcode::Lda)
        } else if byte == 0x14 {
            Some(Opcode::Mov)
        } else if byte == 0x15 {
            Some(Opcode::Mul)
        } else if byte == 0x16 {
            Some(Opcode::Div)
        } else if byte == 0x17 {
            Some(Opcode::Cmp)
        } else if byte == 0x18 {
            Some(Opcode::Call)
        } else if byte == 0x19 {
            Some(Opcode::Ret)
        } else if byte == 0x1A {
            Some(Opcode::Jp)
        } else if byte == 0x1B {
            Some(Opcode::Jn)
        } else if byte == 0x1C {
            Some(Opcode::Int)
        } else if byte == 0x1D {
            Some(Opcode::Cli)
        } else if byte == 0x1E {
            Some(Opcode::Sei)
        } else if byte == 0x1F {
            Some(Opcode::Push)
        } else if byte == 0x20 {
            Some(Opcode::Pop)
        } else if byte == 0xFF {
            Some(Opcode::Halt)
        } else {
            None
        }
    }

    /// The byte that names this instruction.
    pub open spec fn code(self) -> u8 {
        match self {
            Opcode::Load => 0x01,
            Opcode::Store => 0x02,
            Opcode::Add => 0x03,
            Opcode::Sub => 0x04,
            Opcode::Inc => 0x07,
            Opcode::Dec => 0x08,
            Opcode::And => 0x09,
            Opcode::Or => 0x0A,
            Opcode::Xor => 0x0B,
            Opcode::Jmp => 0x10,
            Opcode::Jz => 0x11,
            Opcode::Jnz => 0x12,
            Opcode::Lda => 0x13,
            Opcode::Mov => 0x14,
            Opcode::Mul => 0x15,
            Opcode::Div => 0x16,
            Opcode::Cmp => 0x17,
            Opcode::Call => 0x18,
            Opcode::Ret => 0x19,
            Opcode::Jp => 0x1A,
            Opcode::Jn => 0x1B,
            Opcode::Int => 0x1C,
            Opcode::Cli => 0x1D,
            Opcode::Sei => 0x1E,
            Opcode::Push => 0x1F,
            Opcode::Pop => 0x20,
            Opcode::Halt => 0xFF,
        }
    }

    /// The operand table: what follows this instruction's opcode byte in the
    /// program.
    pub open spec fn operand_spec(self) -> Operand {
        match self {
            Opcode::Load
            | Opcode::Store
            | Opcode::Add
            | Opcode::Sub
            | Opcode::And
            | Opcode::Or
            | Opcode::Xor
            | Opcode::Jmp
            | Opcode::Jz
            | Opcode::Jnz
            | Opcode::Call
            | Opcode::Jp
            | Opcode::Jn
            | Opcode::Int => Operand::Address,
            Opcode::Lda => Operand::Immediate,
            Opcode::Inc
            | Opcode::Dec
            | Opcode::Mov
            | Opcode::Mul
            | Opcode::Div
            | Opcode::Cmp
            | Opcode::Ret
            | Opcode::Cli
            | Opcode::Sei
            | Opcode::Push
            | Opcode::Pop
            | Opcode::Halt => Operand::Implied,
        }
    }

    /// Looks `byte` up in the opcode table.
    #[verifier::when_used_as_spec(decode_spec)]
    pub fn decode(byte: u8) -> (opcode: Option<Opcode>)
        ensures
            opcode == Opcode::decode_spec(byte),
    {
        match byte {
            0x01 => Some(Opcode::Load),
            0x02 => Some(Opcode::Store),
            0x03 => Some(Opcode::Add),
            0x04 => Some(Opcode::Sub),
            0x07 => Some(Opcode::Inc),
            0x08 => Some(Opcode::Dec),
            0x09 => Some(Opcode::And),
            0x0A => Some(Opcode::Or),
            0x0B => Some(Opcode::Xor),
            0x10 => Some(Opcode::Jmp),
            0x11 => Some(Opcode::Jz),
            0x12 => Some(Opcode::Jnz),
            0x13 => Some(Opcode::Lda),
            0x14 => Some(Opcode::Mov),
            0x15 => Some(Opcode::Mul),
            0x16 => Some(Opcode::Div),
            0x17 => Some(Opcode::Cmp),
            0x18 => Some(Opcode::Call),
            0x19 => Some(Opcode::Ret),
            0x1A => Some(Opcode::Jp),
            0x1B => Some(Opcode::Jn),
            0x1C => Some(Opcode::Int),
            0x1D => Some(Opcode::Cli),
            0x1E => Some(Opcode::Sei),
            0x1F => Some(Opcode::Push),
            0x20 => Some(Opcode::Pop),
            0xFF => Some(Opcode::Halt),
            _ => None,
        }
    }

    /// Looks this instruction up in the operand table.
    #[verifier::when_used_as_spec(operand_spec)]
    pub fn operand(self) -> (kind: Operand)
        ensures
            kind == self.operand_spec(),
    {
        match self {
            Opcode::Load
            | Opcode::Store
            | Opcode::Add
            | Opcode::Sub
            | Opcode::And
            | Opcode::Or
            | Opcode::Xor
            | Opcode::Jmp
            | Opcode::Jz
            | Opcode::Jnz
            | Opcode::Call
            | Opcode::Jp
            | Opcode::Jn
            | Opcode::Int => Operand::Address,
            Opcode::Lda => Operand::Immediate,
            Opcode::Inc
            | Opcode::Dec
            | Opcode::Mov
            | Opcode::Mul
            | Opcode::Div
            | Opcode::Cmp
            | Opcode::Ret
            | Opcode::Cli
            | Opcode::Sei
            | Opcode::Push
            | Opcode::Pop
            | Opcode::Halt => Operand::Implied,
        }
    }
}

/// The opcode table and the encoding agree: a byte names an instruction
/// exactly when it is that instruction's code, so no two instructions share a
/// byte and every instruction has one.
pub proof fn lemma_decode_inverts_code(byte: u8, opcode: Opcode)
    ensures
        Opcode::decode_spec(byte) == Some(opcode) <==> opcode.code() == byte,
{
}

} // verus!
