//! What holds of the machine model for every state: facts that follow from
//! the meaning of the instructions and that callers may rely on.

use crate::fault::{Fault, RunFault};
use crate::machine::{done, failed, lemma_wrap_byte, wrap_word, MachineState, Outcome};
use crate::memory::byte_in_bounds;
use crate::opcode::Opcode;
use vstd::prelude::*;

verus! {

/// A fetch inside memory advances the program counter by one and changes
/// nothing else; from `0xFFFF` the program counter goes to zero.
pub proof fn lemma_fetch_advances(s: MachineState)
    requires
        byte_in_bounds(s.memory, s.pc as int),
    ensures
        s.fetch().result == Ok::<u8, Fault>(s.memory[s.pc as int]),
        s.fetch().state == (MachineState { pc: s.fetch().state.pc, ..s }),
        s.pc < 0xFFFF ==> s.fetch().state.pc == s.pc + 1,
        s.pc == 0xFFFF ==> s.fetch().state.pc == 0,
{
}

/// INC and DEC never fail, change only the accumulator, and wrap: INC takes
/// `0xFF` to `0x00` and DEC takes `0x00` to `0xFF`.
pub proof fn lemma_inc_dec_wrap(s: MachineState)
    ensures
        s.execute(0x07).result is Ok,
        s.execute(0x07).state == (MachineState { acc: s.execute(0x07).state.acc, ..s }),
        s.acc == 0xFF ==> s.execute(0x07).state.acc == 0x00,
        s.acc < 0xFF ==> s.execute(0x07).state.acc == s.acc + 1,
        s.execute(0x08).result is Ok,
        s.execute(0x08).state == (MachineState { acc: s.execute(0x08).state.acc, ..s }),
        s.acc == 0x00 ==> s.execute(0x08).state.acc == 0xFF,
        s.acc > 0x00 ==> s.execute(0x08).state.acc == s.acc - 1,
{
    lemma_wrap_byte(s.acc + 1);
    lemma_wrap_byte(s.acc - 1);
}

/// ADD and SUB, given an operand `address` inside memory, leave in the
/// accumulator the sum or the difference reduced modulo 256.
pub proof fn lemma_add_sub_wrap(s: MachineState, address: u16)
    requires
        s.fetch_address().result == Ok::<u16, Fault>(address),
        byte_in_bounds(s.memory, address as int),
    ensures
        s.execute(0x03).result is Ok,
        s.execute(0x03).state.acc == (s.acc + s.memory[address as int]) % 256,
        s.execute(0x04).result is Ok,
        s.execute(0x04).state.acc == (s.acc - s.memory[address as int]) % 256,
{
}

/// MUL never fails, changes only the accumulator, and leaves there the
/// product of the two registers reduced modulo 256.
pub proof fn lemma_mul_wrap(s: MachineState)
    ensures
        s.execute(0x15).result is Ok,
        s.execute(0x15).state == (MachineState { acc: s.execute(0x15).state.acc, ..s }),
        s.execute(0x15).state.acc == (s.reg_a * s.reg_b) % 256,
{
}

/// Executing a byte that the opcode table does not hold fails with
/// `UnknownInstruction`, carrying the byte and the program counter, and
/// changes nothing.
pub proof fn lemma_unknown_instruction_changes_nothing(s: MachineState, byte: u8)
    requires
        Opcode::decode(byte) is None,
    ensures
        s.execute(byte) == failed::<()>(s, (Fault::UnknownInstruction { opcode: byte, pc: s.pc })),
{
}

/// When the byte at the program counter is outside the opcode table, one
/// cycle of the run loop ends with `UnknownInstruction` and changes nothing
/// but the program counter, which has passed the byte, and the halt flag,
/// which is set. The run loop stops there, however many cycles it was given.
pub proof fn lemma_unknown_instruction_halts(s: MachineState, cycles: nat)
    requires
        !s.halted,
        byte_in_bounds(s.memory, s.pc as int),
        Opcode::decode(s.memory[s.pc as int]) is None,
        cycles > 0,
    ensures
        s.step() == (Outcome {
            state: MachineState { pc: wrap_word(s.pc + 1), halted: true, ..s },
            result: Err(
                RunFault::Execute(
                    Fault::UnknownInstruction {
                        opcode: s.memory[s.pc as int],
                        pc: wrap_word(s.pc + 1),
                    },
                ),
            ),
        }),
        s.run(cycles) == s.step(),
{
}

/// With the stack pointer above zero and the byte below it inside memory, a
/// PUSH followed by a POP succeeds, brings the stack pointer back to where
/// it was, and leaves in register A the value that was pushed, whatever
/// register A held in between.
pub proof fn lemma_push_then_pop(s: MachineState, between: u8)
    requires
        s.sp >= 1,
        byte_in_bounds(s.memory, s.sp - 1),
    ensures
        s.execute(0x1F).result is Ok,
        (MachineState { reg_a: between, ..s.execute(0x1F).state }).execute(0x20).result is Ok,
        (MachineState { reg_a: between, ..s.execute(0x1F).state }).execute(0x20).state.reg_a
            == s.reg_a,
        (MachineState { reg_a: between, ..s.execute(0x1F).state }).execute(0x20).state.sp == s.sp,
{
}

/// The reserved instructions do what their placeholders say: CMP changes
/// nothing and never fails, and JP and JN are JMP under other names.
pub proof fn lemma_reserved_instructions(s: MachineState)
    ensures
        s.execute(0x17) == done(s, ()),
        s.execute(0x1A) == s.execute(0x10),
        s.execute(0x1B) == s.execute(0x10),
{
}

/// No instruction changes the size of memory, whether it ends well or in a
/// fault.
pub proof fn lemma_execute_keeps_memory_size(s: MachineState, instruction: u8)
    ensures
        s.execute(instruction).state.memory.len() == s.memory.len(),
{
}

/// No run changes the size of memory, however it ends.
pub proof fn lemma_run_keeps_memory_size(s: MachineState, cycles: nat)
    ensures
        s.step().state.memory.len() == s.memory.len(),
        s.run(cycles).state.memory.len() == s.memory.len(),
    decreases cycles,
{
    if !s.halted && s.fetch().result is Ok {
        lemma_execute_keeps_memory_size(s.fetch().state, s.fetch().result->Ok_0);
    }
    if cycles > 0 && !s.halted && s.step().result is Ok {
        lemma_run_keeps_memory_size(s.step().state, (cycles - 1) as nat);
    }
}

/// Once the halt flag is set, a cycle of the run loop and the run loop itself
/// do nothing: no fetch, no fault, and the state is the one they were given.
pub proof fn lemma_halted_stays(s: MachineState, cycles: nat)
    requires
        s.halted,
    ensures
        s.step() == (Outcome { state: s, result: Ok(()) }),
        s.run(cycles) == (Outcome { state: s, result: Ok(()) }),
        s.cycles_used(cycles) == 0,
{
}

/// A fault always leaves the processor halted, and a run that ends without
/// a fault and not halted has used up all its cycles.
pub proof fn lemma_run_ends_halted_or_spent(s: MachineState, cycles: nat)
    ensures
        s.run(cycles).result is Err ==> s.run(cycles).state.halted,
        s.run(cycles).result is Ok && !s.run(cycles).state.halted ==> s.cycles_used(cycles)
            == cycles,
    decreases cycles,
{
    if cycles > 0 && !s.halted && s.step().result is Ok {
        lemma_run_ends_halted_or_spent(s.step().state, (cycles - 1) as nat);
    }
}

/// Running in two instalments is running once: unless the first instalment
/// ends in a fault, running on from where it stopped gives what a single run
/// with the cycles of both would have given.
pub proof fn lemma_run_resumes(s: MachineState, first: nat, second: nat)
    ensures
        s.run(first + second) == (if s.run(first).result is Err {
            s.run(first)
        } else {
            s.run(first).state.run(second)
        }),
    decreases first,
{
    if first > 0 && !s.halted {
        if s.step().result is Ok {
            lemma_run_resumes(s.step().state, (first - 1) as nat, second);
        }
    } else if s.halted {
        lemma_halted_stays(s, second);
        lemma_halted_stays(s, first + second);
    }
}

} // verus!
