//! The processor: registers over an owned memory, with fetch, decode,
//! execute and the run loop.
//!
//! Three instructions are placeholders, and one does not do what its name
//! says. They are kept as they are, and their contracts say so:
//!
//! - CMP compares nothing and sets no flag.
//! - JP and JN test no sign: they always jump, like JMP.
//! - RET raises the stack pointer by two and *writes* the program counter at
//!   the new stack pointer. It reads no return address and does not jump, so
//!   it does not return to the caller of a CALL.
//!
//! The run loop takes a number of cycles that it will not exceed, since a
//! program may loop for ever. A caller that wants to run to the end calls
//! `run` again for as long as the processor is not halted.

use crate::fault::{Fault, RunFault};
use crate::machine::{lemma_wrap_byte, MachineState};
use crate::memory::{low_byte, Memory};
use crate::opcode::{Opcode, Operand};
use vstd::prelude::*;

verus! {

/// An 8-bit processor that owns its memory.
///
/// A program is staged by writing bytes into `memory`; `run` then drives the
/// processor until it halts. `sp` starts at zero: set it to the top of the
/// stack before any instruction that uses the stack.
pub struct CPU {
    /// Program counter.
    pub pc: u16,
    /// Accumulator.
    pub acc: u8,
    /// General register A.
    pub reg_a: u8,
    /// General register B.
    pub reg_b: u8,
    /// The memory, owned by this processor alone.
    pub memory: Memory,
    /// Halt flag.
    pub halted: bool,
    /// Stack pointer.
    pub sp: u16,
    /// Interrupt enable flag.
    pub interrupts_enabled: bool,
}

impl View for CPU {
    type V = MachineState;

    open spec fn view(&self) -> MachineState {
        MachineState {
            pc: self.pc,
            acc: self.acc,
            reg_a: self.reg_a,
            reg_b: self.reg_b,
            sp: self.sp,
            halted: self.halted,
            interrupts_enabled: self.interrupts_enabled,
            memory: self.memory@,
        }
    }
}

impl CPU {
    /// A processor over `memory_size` zero bytes: every register zero,
    /// running, interrupts disabled.
    pub fn new(memory_size: usize) -> (cpu: CPU)
        ensures
            cpu@.pc == 0,
            cpu@.acc == 0,
            cpu@.reg_a == 0,
            cpu@.reg_b == 0,
            cpu@.sp == 0,
            !cpu@.halted,
            !cpu@.interrupts_enabled,
            cpu@.memory.len() == memory_size,
            forall|i: int| 0 <= i < memory_size ==> cpu@.memory[i] == 0,
    {
        CPU {
            pc: 0,
            acc: 0,
            reg_a: 0,
            reg_b: 0,
            memory: Memory::new(memory_size),
            halted: false,
            sp: 0,
            interrupts_enabled: false,
        }
    }

    /// Reads the byte at `pc` and advances `pc`, wrapping at `0xFFFF`.
    pub fn fetch(&mut self) -> (result: Result<u8, Fault>)
        ensures
            final(self)@ == old(self)@.fetch().state,
            result == old(self)@.fetch().result,
    {
        let instruction = self.memory.read(self.pc as usize)?;
        self.pc = self.pc.wrapping_add(1);
        Ok(instruction)
    }

    /// Fetches a little-endian 16-bit operand: the low byte first, then the
    /// high byte. When the second fetch fails, the first has already advanced
    /// the program counter.
    pub fn fetch_address(&mut self) -> (result: Result<u16, Fault>)
        ensures
            final(self)@ == old(self)@.fetch_address().state,
            result == old(self)@.fetch_address().result,
    {
        let low = self.fetch()? as u16;
        let high = self.fetch()? as u16;
        assert((high << 8) | low == low + 256 * high) by (bit_vector)
            requires
                low < 256,
                high < 256,
        ;
        Ok((high << 8) | low)
    }

    /// Fetches what the operand table says follows the opcode: nothing (the
    /// value is then zero), one byte, or a little-endian address.
    fn fetch_operand(&mut self, kind: Operand) -> (result: Result<u16, Fault>)
        ensures
            final(self)@ == old(self)@.fetch_operand(kind).state,
            result == old(self)@.fetch_operand(kind).result,
    {
        match kind {
            Operand::Implied => Ok(0),
            Operand::Immediate => {
                let value = self.fetch()?;
                Ok(value as u16)
            },
            Operand::Address => self.fetch_address(),
        }
    }

    /// LOAD: the accumulator becomes the byte at `address`.
    fn load(&mut self, address: u16) -> (result: Result<(), Fault>)
        ensures
            final(self)@ == old(self)@.load(address).state,
            result == old(self)@.load(address).result,
    {
        self.acc = self.memory.read(address as usize)?;
        Ok(())
    }

    /// STORE: the byte at `address` becomes the accumulator.
    fn store(&mut self, address: u16) -> (result: Result<(), Fault>)
        ensures
            final(self)@ == old(self)@.store(address).state,
            result == old(self)@.store(address).result,
    {
        self.memory.write(address as usize, self.acc)
    }

    /// ADD: adds the byte at `address` to the accumulator, wrapping.
    fn add(&mut self, address: u16) -> (result: Result<(), Fault>)
        ensures
            final(self)@ == old(self)@.add_from(address).state,
            result == old(self)@.add_from(address).result,
    {
        let value = self.memory.read(address as usize)?;
        proof {
            lemma_wrap_byte(self.acc + value);
        }
        self.acc = self.acc.wrapping_add(value);
        Ok(())
    }

    /// SUB: subtracts the byte at `address` from the accumulator, wrapping.
    fn sub(&mut self, address: u16) -> (result: Result<(), Fault>)
        ensures
            final(self)@ == old(self)@.sub_from(address).state,
            result == old(self)@.sub_from(address).result,
    {
        let value = self.memory.read(address as usize)?;
        proof {
            lemma_wrap_byte(self.acc - value);
        }
        self.acc = self.acc.wrapping_sub(value);
        Ok(())
    }

    /// INC: adds one to the accumulator, wrapping.
    fn inc(&mut self)
        ensures
            final(self)@ == old(self)@.increment(),
    {
        proof {
            lemma_wrap_byte(self.acc + 1);
        }
        self.acc = self.acc.wrapping_add(1);
    }

    /// DEC: subtracts one from the accumulator, wrapping.
    fn dec(&mut self)
        ensures
            final(self)@ == old(self)@.decrement(),
    {
        proof {
            lemma_wrap_byte(self.acc - 1);
        }
        self.acc = self.acc.wrapping_sub(1);
    }

    /// AND: bitwise and of the accumulator with the byte at `address`.
    fn and(&mut self, address: u16) -> (result: Result<(), Fault>)
        ensures
            final(self)@ == old(self)@.and_from(address).state,
            result == old(self)@.and_from(address).result,
    {
        let value = self.memory.read(address as usize)?;
        self.acc &= value;
        Ok(())
    }

    /// OR: bitwise or of the accumulator with the byte at `address`.
    fn or(&mut self, address: u16) -> (result: Result<(), Fault>)
        ensures
            final(self)@ == old(self)@.or_from(address).state,
            result == old(self)@.or_from(address).result,
    {
        let value = self.memory.read(address as usize)?;
        self.acc |= value;
        Ok(())
    }

    /// XOR: bitwise exclusive or of the accumulator with the byte at `address`.
    fn xor(&mut self, address: u16) -> (result: Result<(), Fault>)
        ensures
            final(self)@ == old(self)@.xor_from(address).state,
            result == old(self)@.xor_from(address).result,
    {
        let value = self.memory.read(address as usize)?;
        self.acc ^= value;
        Ok(())
    }

    /// JMP: jumps to `address`.
    fn jmp(&mut self, address: u16)
        ensures
            final(self)@ == old(self)@.jump(address),
    {
        self.pc = address;
    }

    /// JZ: jumps to `address` if the accumulator is zero.
    fn jz(&mut self, address: u16)
        ensures
            final(self)@ == old(self)@.jump_if(old(self)@.acc == 0, address),
    {
        if self.acc == 0 {
            self.pc = address;
        }
    }

    /// JNZ: jumps to `address` if the accumulator is not zero.
    fn jnz(&mut self, address: u16)
        ensures
            final(self)@ == old(self)@.jump_if(old(self)@.acc != 0, address),
    {
        if self.acc != 0 {
            self.pc = address;
        }
    }

    /// LDA: the accumulator becomes the immediate byte, which arrives in the
    /// low half of `operand`.
    fn lda(&mut self, operand: u16)
        ensures
            final(self)@ == old(self)@.load_immediate(low_byte(operand)),
    {
        assert(operand & 0x00FF == operand % 256) by (bit_vector);
        self.acc = (operand & 0x00FF) as u8;
    }

    /// MOV: copies register A to register B.
    fn mov(&mut self)
        ensures
            final(self)@ == old(self)@.move_a_to_b(),
    {
        self.reg_b = self.reg_a;
    }

    /// MUL: the accumulator becomes register A times register B, wrapping.
    fn mul(&mut self)
        ensures
            final(self)@ == old(self)@.multiply(),
    {
        self.acc = self.reg_a.wrapping_mul(self.reg_b);
    }

    /// DIV: the accumulator becomes register A divided by register B.
    fn div(&mut self) -> (result: Result<(), Fault>)
        ensures
            final(self)@ == old(self)@.divide().state,
            result == old(self)@.divide().result,
    {
        if self.reg_b == 0 {
            return Err(Fault::DivisionByZero);
        }
        self.acc = self.reg_a / self.reg_b;
        Ok(())
    }

    /// CMP: reserved for a comparison. It compares nothing and sets no flag.
    fn cmp(&self) -> (result: Result<(), Fault>)
        ensures
            result == Ok::<(), Fault>(()),
    {
        Ok(())
    }

    /// CALL: pushes the program counter as a word and jumps to `address`.
    fn call(&mut self, address: u16) -> (result: Result<(), Fault>)
        ensures
            final(self)@ == old(self)@.call(address).state,
            result == old(self)@.call(address).result,
    {
        if self.sp < 2 {
            return Err(Fault::StackOverflow);
        }
        self.sp -= 2;
        self.memory.write_u16(self.sp as usize, self.pc)?;
        self.pc = address;
        Ok(())
    }

    /// RET: raises the stack pointer by two and writes the program counter
    /// at the new stack pointer. It reads no return address and leaves the
    /// program counter alone, so it does not undo a CALL.
    fn ret(&mut self) -> (result: Result<(), Fault>)
        ensures
            final(self)@ == old(self)@.ret().state,
            result == old(self)@.ret().result,
    {
        if self.sp > 0xFFFD {
            return Err(Fault::StackOverflow);
        }
        self.sp += 2;
        self.memory.write_u16(self.sp as usize, self.pc)?;
        Ok(())
    }

    /// JP: reserved for "jump if positive". No sign is tested: it jumps to
    /// `address` whenever `condition` is set.
    fn jp(&mut self, condition: bool, address: u16)
        ensures
            final(self)@ == old(self)@.jump_if(condition, address),
    {
        if condition {
            self.pc = address;
        }
    }

    /// JN: reserved for "jump if negative". No sign is tested: it jumps to
    /// `address` whenever `condition` is set.
    fn jn(&mut self, condition: bool, address: u16)
        ensures
            final(self)@ == old(self)@.jump_if(condition, address),
    {
        if condition {
            self.pc = address;
        }
    }

    /// INT: writes the program counter at the stack pointer, lowers the
    /// stack pointer by two and jumps to `vector`.
    fn interrupt(&mut self, vector: u16) -> (result: Result<(), Fault>)
        ensures
            final(self)@ == old(self)@.interrupt(vector).state,
            result == old(self)@.interrupt(vector).result,
    {
        self.memory.write_u16(self.sp as usize, self.pc)?;
        match self.sp.checked_sub(2) {
            None => Err(Fault::StackUnderflow),
            Some(sp) => {
                self.sp = sp;
                self.pc = vector;
                Ok(())
            },
        }
    }

    /// CLI: disables interrupts.
    fn cli(&mut self)
        ensures
            final(self)@ == old(self)@.set_interrupts(false),
    {
        self.interrupts_enabled = false;
    }

    /// SEI: enables interrupts.
    fn sei(&mut self)
        ensures
            final(self)@ == old(self)@.set_interrupts(true),
    {
        self.interrupts_enabled = true;
    }

    /// Lowers the stack pointer by one and writes `value` there.
    fn push(&mut self, value: u8) -> (result: Result<(), Fault>)
        ensures
            final(self)@ == old(self)@.push(value).state,
            result == old(self)@.push(value).result,
    {
        match self.sp.checked_sub(1) {
            None => Err(Fault::StackUnderflow),
            Some(sp) => {
                self.sp = sp;
                self.memory.write(self.sp as usize, value)
            },
        }
    }

    /// Reads the byte at the stack pointer and raises the stack pointer by
    /// one, wrapping at `0xFFFF`.
    fn pop(&mut self) -> (result: Result<u8, Fault>)
        ensures
            final(self)@ == old(self)@.pop().state,
            result == old(self)@.pop().result,
    {
        let value = self.memory.read(self.sp as usize)?;
        self.sp = self.sp.wrapping_add(1);
        Ok(value)
    }

    /// HALT: sets the halt flag.
    fn halt(&mut self)
        ensures
            final(self)@ == old(self)@.halt(),
    {
        self.halted = true;
    }

    /// Decodes `instruction`, fetches the operand that the operand table
    /// gives it, and performs it. A byte outside the opcode table fails with
    /// `UnknownInstruction` and changes nothing. On any other fault the
    /// registers and memory keep whatever had changed before the failure;
    /// the halt flag is left to the run loop.
    pub fn execute(&mut self, instruction: u8) -> (result: Result<(), Fault>)
        ensures
            final(self)@ == old(self)@.execute(instruction).state,
            result == old(self)@.execute(instruction).result,
    {
        let opcode = match Opcode::decode(instruction) {
            None => {
                return Err(Fault::UnknownInstruction { opcode: instruction, pc: self.pc });
            },
            Some(opcode) => opcode,
        };
        let operand = self.fetch_operand(opcode.operand())?;
        match opcode {
            Opcode::Load => self.load(operand),
            Opcode::Store => self.store(operand),
            Opcode::Add => self.add(operand),
            Opcode::Sub => self.sub(operand),
            Opcode::Inc => {
                self.inc();
                Ok(())
            },
            Opcode::Dec => {
                self.dec();
                Ok(())
            },
            Opcode::And => self.and(operand),
            Opcode::Or => self.or(operand),
            Opcode::Xor => self.xor(operand),
            Opcode::Jmp => {
                self.jmp(operand);
                Ok(())
            },
            Opcode::Jz => {
                self.jz(operand);
                Ok(())
            },
            Opcode::Jnz => {
                self.jnz(operand);
                Ok(())
            },
            Opcode::Lda => {
                self.lda(operand);
                Ok(())
            },
            Opcode::Mov => {
                self.mov();
                Ok(())
            },
            Opcode::Mul => {
                self.mul();
                Ok(())
            },
            Opcode::Div => self.div(),
            Opcode::Cmp => self.cmp(),
            Opcode::Call => self.call(operand),
            Opcode::Ret => self.ret(),
            Opcode::Jp => {
                self.jp(true, operand);
                Ok(())
            },
            Opcode::Jn => {
                self.jn(true, operand);
                Ok(())
            },
            Opcode::Int => self.interrupt(operand),
            Opcode::Cli => {
                self.cli();
                Ok(())
            },
            Opcode::Sei => {
                self.sei();
                Ok(())
            },
            Opcode::Push => self.push(self.reg_a),
            Opcode::Pop => {
                let value = self.pop()?;
                self.reg_a = value;
                Ok(())
            },
            Opcode::Halt => {
                self.halt();
                Ok(())
            },
        }
    }

    /// One cycle of the run loop: fetches one byte and executes it. A halted
    /// processor does nothing. A fault in the fetch or in the instruction
    /// halts the processor and is handed back, marked with where it arose.
    pub fn step(&mut self) -> (result: Result<(), RunFault>)
        ensures
            final(self)@ == old(self)@.step().state,
            result == old(self)@.step().result,
    {
        if self.halted {
            return Ok(());
        }
        let outcome = match self.fetch() {
            Err(fault) => Err(RunFault::Fetch(fault)),
            Ok(instruction) => match self.execute(instruction) {
                Err(fault) => Err(RunFault::Execute(fault)),
                Ok(()) => Ok(()),
            },
        };
        if outcome.is_err() {
            self.halted = true;
        }
        outcome
    }

    /// Runs the fetch-execute loop until the processor is halted or
    /// `max_cycles` cycles have been performed, whichever comes first.
    ///
    /// `Err` hands back the fault that halted the processor, and whether it
    /// arose in fetching the opcode or in the instruction. `Ok` with
    /// `halted` set means that a HALT was executed, or that the processor was
    /// halted already; `Ok` with `halted` clear means that the cycles ran out
    /// with the program still running, and a further call carries on from
    /// there. On a halted processor nothing is fetched or executed and
    /// nothing changes.
    pub fn run(&mut self, max_cycles: u64) -> (result: Result<(), RunFault>)
        ensures
            final(self)@ == old(self)@.run(max_cycles as nat).state,
            result == old(self)@.run(max_cycles as nat).result,
    {
        let mut remaining = max_cycles;
        while remaining > 0 && !self.halted
            invariant
                self@.run(remaining as nat) == old(self)@.run(max_cycles as nat),
            decreases remaining,
        {
            let stepped = self.step();
            if stepped.is_err() {
                return stepped;
            }
            remaining -= 1;
        }
        Ok(())
    }
}

} // verus!
