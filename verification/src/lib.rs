//! An emulated 8-bit processor: a flat, bounds-checked byte memory and a
//! register machine that fetches, decodes and executes a small fixed
//! instruction set.
//!
//! Every executable function carries a contract over a mathematical model of
//! the machine: memory is a sequence of bytes, and the processor is a record of
//! registers together with that sequence.

pub mod cpu;
pub mod dump;
pub mod fault;
pub mod lemmas;
pub mod machine;
pub mod memory;
pub mod opcode;
