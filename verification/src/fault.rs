//! The ways in which a memory access or an instruction can fail.

use vstd::prelude::*;

verus! {

/// A failure reported by the memory or by the processor.
///
/// Every fault is fatal to the current run: the run loop halts the processor
/// and hands the fault to its caller.
#[derive(Clone, Copy, Debug, PartialEq, Eq, Structural)]
pub enum Fault {
    /// An access at `address` does not lie wholly inside the memory. For a
    /// 16-bit access, `address` is the address of the low byte.
    OutOfBounds { address: usize },
    /// `opcode` names no instruction. `pc` is the program counter when the
    /// byte was decoded; in the run loop that is the address just past it.
    UnknownInstruction { opcode: u8, pc: u16 },
    /// A division with a zero divisor.
    DivisionByZero,
    /// The stack pointer would have dropped below zero.
    StackUnderflow,
    /// The stack has no room for a return address, or the stack pointer would
    /// have risen past the top of the address space.
    StackOverflow,
}

/// A fault that halted the run loop, with the part of the cycle it arose in.
#[derive(Clone, Copy, Debug, PartialEq, Eq, Structural)]
pub enum RunFault {
    /// The opcode byte could not be fetched.
    Fetch(Fault),
    /// The opcode byte was fetched, and the instruction failed: in decoding,
    /// in fetching its operand, or in what it does.
    Execute(Fault),
}

} // verus!
