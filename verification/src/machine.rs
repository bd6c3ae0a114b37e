//! The mathematical model of the processor: its state as a record of
//! registers over a sequence of bytes, and the meaning of every instruction
//! as a function from state to state.
//!
//! Nothing here is executable. The processor's contracts say that the
//! executable code computes exactly these functions.

use crate::fault::{Fault, RunFault};
use crate::memory::{byte_in_bounds, low_byte, store_word, word_in_bounds, word_of};
use crate::opcode::{Opcode, Operand};
use vstd::prelude::*;

verus! {

/// The whole state of the machine.
pub struct MachineState {
    /// Address of the next program byte.
    pub pc: u16,
    /// The accumulator.
    pub acc: u8,
    /// General register A.
    pub reg_a: u8,
    /// General register B.
    pub reg_b: u8,
    /// The stack pointer. The stack grows towards address zero.
    pub sp: u16,
    /// Once set, the run loop executes nothing more.
    pub halted: bool,
    /// The interrupt enable flag.
    pub interrupts_enabled: bool,
    /// The contents of memory.
    pub memory: Seq<u8>,
}

/// What an operation leaves behind: the state after it, and either the value
/// it produced or the fault it ended with. A fault does not undo what the
/// operation had already changed; `state` says exactly what that was.
pub struct Effect<T> {
    pub state: MachineState,
    pub result: Result<T, Fault>,
}

/// What the run loop leaves behind: the state after it, and the fault that
/// halted it, if one did.
pub struct Outcome {
    pub state: MachineState,
    pub result: Result<(), RunFault>,
}

/// An operation that ended well in `state`, producing `value`.
pub open spec fn done<T>(state: MachineState, value: T) -> Effect<T> {
    Effect { state, result: Ok(value) }
}

/// An operation that ended in `state` with `fault`.
pub open spec fn failed<T>(state: MachineState, fault: Fault) -> Effect<T> {
    Effect { state, result: Err(fault) }
}

/// `value` reduced modulo 256.
pub open spec fn wrap_byte(value: int) -> u8 {
    (value % 256) as u8
}

/// Reducing a sum or a difference of two bytes modulo 256 moves it by at most
/// one multiple of 256.
pub proof fn lemma_wrap_byte(value: int)
    requires
        -256 <= value < 512,
    ensures
        wrap_byte(value) == (if value < 0 {
            value + 256
        } else if value > 255 {
            value - 256
        } else {
            value
        }),
{
}

/// `value` reduced modulo 65536.
pub open spec fn wrap_word(value: int) -> u16 {
    (value % 65536) as u16
}

/// The `OutOfBounds` fault for a 16-bit machine address.
pub open spec fn out_of_bounds(address: u16) -> Fault {
    Fault::OutOfBounds { address: address as usize }
}

impl MachineState {
    // ------------------------------------------------------------------
    // Fetching from the program
    // ------------------------------------------------------------------
    /// Reads the byte at `pc` and advances `pc` by one, wrapping from
    /// `0xFFFF` to zero. Outside memory, nothing changes.
    pub open spec fn fetch(self) -> Effect<u8> {
        if byte_in_bounds(self.memory, self.pc as int) {
            done(MachineState { pc: wrap_word(self.pc + 1), ..self }, self.memory[self.pc as int])
        } else {
            failed(self, out_of_bounds(self.pc))
        }
    }

    /// Fetches two bytes, low byte first. When the second fetch fails, the
    /// first has already advanced `pc`.
    pub open spec fn fetch_address(self) -> Effect<u16> {
        let low = self.fetch();
        match low.result {
            Err(fault) => failed(low.state, fault),
            Ok(low_byte) => {
                let high = low.state.fetch();
                match high.result {
                    Err(fault) => failed(high.state, fault),
                    Ok(high_byte) => done(high.state, word_of(low_byte, high_byte)),
                }
            },
        }
    }

    // ------------------------------------------------------------------
    // Instructions that read or write memory at an address operand
    // ------------------------------------------------------------------
    /// `acc := memory[address]`.
    pub open spec fn load(self, address: u16) -> Effect<()> {
        if byte_in_bounds(self.memory, address as int) {
            done(MachineState { acc: self.memory[address as int], ..self }, ())
        } else {
            failed(self, out_of_bounds(address))
        }
    }

    /// `memory[address] := acc`.
    pub open spec fn store(self, address: u16) -> Effect<()> {
        if byte_in_bounds(self.memory, address as int) {
            done(
                MachineState { memory: self.memory.update(address as int, self.acc), ..self },
                (),
            )
        } else {
            failed(self, out_of_bounds(address))
        }
    }

    /// `acc := (acc + memory[address]) mod 256`.
    pub open spec fn add_from(self, address: u16) -> Effect<()> {
        if byte_in_bounds(self.memory, address as int) {
            done(
                MachineState { acc: wrap_byte(self.acc + self.memory[address as int]), ..self },
                (),
            )
        } else {
            failed(self, out_of_bounds(address))
        }
    }

    /// `acc := (acc - memory[address]) mod 256`.
    pub open spec fn sub_from(self, address: u16) -> Effect<()> {
        if byte_in_bounds(self.memory, address as int) {
            done(
                MachineState { acc: wrap_byte(self.acc - self.memory[address as int]), ..self },
                (),
            )
        } else {
            failed(self, out_of_bounds(address))
        }
    }

    /// `acc := acc & memory[address]`.
    pub open spec fn and_from(self, address: u16) -> Effect<()> {
        if byte_in_bounds(self.memory, address as int) {
            done(MachineState { acc: self.acc & self.memory[address as int], ..self }, ())
        } else {
            failed(self, out_of_bounds(address))
        }
    }

    /// `acc := acc | memory[address]`.
    pub open spec fn or_from(self, address: u16) -> Effect<()> {
        if byte_in_bounds(self.memory, address as int) {
            done(MachineState { acc: self.acc | self.memory[address as int], ..self }, ())
        } else {
            failed(self, out_of_bounds(address))
        }
    }

    /// `acc := acc ^ memory[address]`.
    pub open spec fn xor_from(self, address: u16) -> Effect<()> {
        if byte_in_bounds(self.memory, address as int) {
            done(MachineState { acc: self.acc ^ self.memory[address as int], ..self }, ())
        } else {
            failed(self, out_of_bounds(address))
        }
    }

    // ------------------------------------------------------------------
    // Jumps
    // ------------------------------------------------------------------
    /// `pc := address`.
    pub open spec fn jump(self, address: u16) -> MachineState {
        MachineState { pc: address, ..self }
    }

    /// `pc := address` when `taken`, else nothing.
    pub open spec fn jump_if(self, taken: bool, address: u16) -> MachineState {
        if taken {
            self.jump(address)
        } else {
            self
        }
    }

    // ------------------------------------------------------------------
    // Register instructions
    // ------------------------------------------------------------------
    /// `acc := (acc + 1) mod 256`.
    pub open spec fn increment(self) -> MachineState {
        MachineState { acc: wrap_byte(self.acc + 1), ..self }
    }

    /// `acc := (acc - 1) mod 256`.
    pub open spec fn decrement(self) -> MachineState {
        MachineState { acc: wrap_byte(self.acc - 1), ..self }
    }

    /// `acc := value`.
    pub open spec fn load_immediate(self, value: u8) -> MachineState {
        MachineState { acc: value, ..self }
    }

    /// `reg_b := reg_a`.
    pub open spec fn move_a_to_b(self) -> MachineState {
        MachineState { reg_b: self.reg_a, ..self }
    }

    /// `acc := (reg_a * reg_b) mod 256`.
    pub open spec fn multiply(self) -> MachineState {
        MachineState { acc: wrap_byte(self.reg_a * self.reg_b), ..self }
    }

    /// `acc := reg_a / reg_b`, or `DivisionByZero` with nothing changed.
    pub open spec fn divide(self) -> Effect<()> {
        if self.reg_b == 0 {
            failed(self, Fault::DivisionByZero)
        } else {
            done(MachineState { acc: self.reg_a / self.reg_b, ..self }, ())
        }
    }

    /// Sets the interrupt enable flag to `enabled`.
    pub open spec fn set_interrupts(self, enabled: bool) -> MachineState {
        MachineState { interrupts_enabled: enabled, ..self }
    }

    /// Sets the halt flag.
    pub open spec fn halt(self) -> MachineState {
        MachineState { halted: true, ..self }
    }

    // ------------------------------------------------------------------
    // Stack instructions
    // ------------------------------------------------------------------
    /// Lowers `sp` by one and writes `value` there. With `sp` at zero it
    /// fails with `StackUnderflow` and changes nothing; when the new `sp`
    /// lies outside memory it fails with `OutOfBounds` and `sp` stays lowered.
    pub open spec fn push(self, value: u8) -> Effect<()> {
        if self.sp == 0 {
            failed(self, Fault::StackUnderflow)
        } else {
            let sp = (self.sp - 1) as u16;
            let lowered = MachineState { sp, ..self };
            if byte_in_bounds(self.memory, sp as int) {
                done(MachineState { memory: self.memory.update(sp as int, value), ..lowered }, ())
            } else {
                failed(lowered, out_of_bounds(sp))
            }
        }
    }

    /// Reads the byte at `sp` and raises `sp` by one, wrapping from `0xFFFF`
    /// to zero. Outside memory, nothing changes.
    pub open spec fn pop(self) -> Effect<u8> {
        if byte_in_bounds(self.memory, self.sp as int) {
            done(MachineState { sp: wrap_word(self.sp + 1), ..self }, self.memory[self.sp as int])
        } else {
            failed(self, out_of_bounds(self.sp))
        }
    }

    /// Pops into register A.
    pub open spec fn pop_into_a(self) -> Effect<()> {
        let popped = self.pop();
        match popped.result {
            Err(fault) => failed(popped.state, fault),
            Ok(value) => done(MachineState { reg_a: value, ..popped.state }, ()),
        }
    }

    /// Needs `sp >= 2`, else `StackOverflow` with nothing changed. Lowers
    /// `sp` by two, writes `pc` there as a little-endian word, and jumps to
    /// `address`. When the word does not fit in memory it fails with
    /// `OutOfBounds`; `sp` stays lowered and there is no jump.
    pub open spec fn call(self, address: u16) -> Effect<()> {
        if self.sp < 2 {
            failed(self, Fault::StackOverflow)
        } else {
            let sp = (self.sp - 2) as u16;
            let lowered = MachineState { sp, ..self };
            if word_in_bounds(self.memory, sp as int) {
                done(
                    MachineState {
                        memory: store_word(self.memory, sp as int, self.pc),
                        pc: address,
                        ..lowered
                    },
                    (),
                )
            } else {
                failed(lowered, out_of_bounds(sp))
            }
        }
    }

    /// Raises `sp` by two and writes `pc` there as a little-endian word; `pc`
    /// itself does not change. With `sp` above `0xFFFD` it fails with
    /// `StackOverflow` and changes nothing; when the word does not fit in
    /// memory it fails with `OutOfBounds` and `sp` stays raised.
    pub open spec fn ret(self) -> Effect<()> {
        if self.sp > 0xFFFD {
            failed(self, Fault::StackOverflow)
        } else {
            let sp = (self.sp + 2) as u16;
            let raised = MachineState { sp, ..self };
            if word_in_bounds(self.memory, sp as int) {
                done(
                    MachineState { memory: store_word(self.memory, sp as int, self.pc), ..raised },
                    (),
                )
            } else {
                failed(raised, out_of_bounds(sp))
            }
        }
    }

    /// Writes `pc` as a little-endian word at `sp`, then lowers `sp` by two
    /// and jumps to `vector`. When the word does not fit in memory it fails
    /// with `OutOfBounds` and changes nothing; with `sp` below two it fails
    /// with `StackUnderflow` after the word has been written.
    pub open spec fn interrupt(self, vector: u16) -> Effect<()> {
        if !word_in_bounds(self.memory, self.sp as int) {
            failed(self, out_of_bounds(self.sp))
        } else {
            let written = MachineState {
                memory: store_word(self.memory, self.sp as int, self.pc),
                ..self
            };
            if self.sp < 2 {
                failed(written, Fault::StackUnderflow)
            } else {
                done(MachineState { sp: (self.sp - 2) as u16, pc: vector, ..written }, ())
            }
        }
    }

    // ------------------------------------------------------------------
    // Decode, execute, run
    // ------------------------------------------------------------------
    /// What `opcode` does once its operand has been fetched. `operand` is the
    /// address or the immediate byte; instructions without one ignore it.
    pub open spec fn apply(self, opcode: Opcode, operand: u16) -> Effect<()> {
        match opcode {
            Opcode::Load => self.load(operand),
            Opcode::Store => self.store(operand),
            Opcode::Add => self.add_from(operand),
            Opcode::Sub => self.sub_from(operand),
            Opcode::Inc => done(self.increment(), ()),
            Opcode::Dec => done(self.decrement(), ()),
            Opcode::And => self.and_from(operand),
            Opcode::Or => self.or_from(operand),
            Opcode::Xor => self.xor_from(operand),
            Opcode::Jmp => done(self.jump(operand), ()),
            Opcode::Jz => done(self.jump_if(self.acc == 0, operand), ()),
            Opcode::Jnz => done(self.jump_if(self.acc != 0, operand), ()),
            Opcode::Lda => done(self.load_immediate(low_byte(operand)), ()),
            Opcode::Mov => done(self.move_a_to_b(), ()),
            Opcode::Mul => done(self.multiply(), ()),
            Opcode::Div => self.divide(),
            Opcode::Cmp => done(self, ()),
            Opcode::Call => self.call(operand),
            Opcode::Ret => self.ret(),
            Opcode::Jp => done(self.jump(operand), ()),
            Opcode::Jn => done(self.jump(operand), ()),
            Opcode::Int => self.interrupt(operand),
            Opcode::Cli => done(self.set_interrupts(false), ()),
            Opcode::Sei => done(self.set_interrupts(true), ()),
            Opcode::Push => self.push(self.reg_a),
            Opcode::Pop => self.pop_into_a(),
            Opcode::Halt => done(self.halt(), ()),
        }
    }

    /// Fetches from the program what the operand table says follows the
    /// opcode: nothing (the value is then zero), one byte, or a little-endian
    /// address.
    pub open spec fn fetch_operand(self, kind: Operand) -> Effect<u16> {
        match kind {
            Operand::Implied => done(self, 0),
            Operand::Immediate => {
                let fetched = self.fetch();
                match fetched.result {
                    Err(fault) => failed(fetched.state, fault),
                    Ok(value) => done(fetched.state, value as u16),
                }
            },
            Operand::Address => self.fetch_address(),
        }
    }

    /// Fetches the operand of `opcode`, then applies the instruction. A
    /// failed fetch ends the instruction.
    pub open spec fn perform(self, opcode: Opcode) -> Effect<()> {
        let fetched = self.fetch_operand(opcode.operand());
        match fetched.result {
            Err(fault) => failed(fetched.state, fault),
            Ok(operand) => fetched.state.apply(opcode, operand),
        }
    }

    /// Decodes `instruction` and performs it. A byte that the opcode table
    /// does not hold fails with `UnknownInstruction` and changes nothing.
    pub open spec fn execute(self, instruction: u8) -> Effect<()> {
        match Opcode::decode(instruction) {
            None => failed(self, Fault::UnknownInstruction { opcode: instruction, pc: self.pc }),
            Some(opcode) => self.perform(opcode),
        }
    }

    /// One cycle of the run loop. A halted machine does nothing. Otherwise
    /// one byte is fetched and executed; a fault in either sets the halt flag
    /// on top of whatever the failed operation had changed.
    pub open spec fn step(self) -> Outcome {
        if self.halted {
            Outcome { state: self, result: Ok(()) }
        } else {
            let fetched = self.fetch();
            match fetched.result {
                Err(fault) => Outcome {
                    state: fetched.state.halt(),
                    result: Err(RunFault::Fetch(fault)),
                },
                Ok(instruction) => {
                    let executed = fetched.state.execute(instruction);
                    match executed.result {
                        Err(fault) => Outcome {
                            state: executed.state.halt(),
                            result: Err(RunFault::Execute(fault)),
                        },
                        Ok(_) => Outcome { state: executed.state, result: Ok(()) },
                    }
                },
            }
        }
    }

    /// At most `cycles` cycles of the run loop: it stops early as soon as
    /// the machine is halted, and hands on the fault that halted it.
    pub open spec fn run(self, cycles: nat) -> Outcome
        decreases cycles,
    {
        if cycles == 0 || self.halted {
            Outcome { state: self, result: Ok(()) }
        } else {
            let stepped = self.step();
            if stepped.result is Err {
                stepped
            } else {
                stepped.state.run((cycles - 1) as nat)
            }
        }
    }

    /// How many of the `cycles` it is given `run` performs: it counts the
    /// cycles up to and including the one that halts the machine.
    pub open spec fn cycles_used(self, cycles: nat) -> nat
        decreases cycles,
    {
        if cycles == 0 || self.halted {
            0
        } else if self.step().result is Err {
            1
        } else {
            1 + self.step().state.cycles_used((cycles - 1) as nat)
        }
    }
}

} // verus!
