//! A hexadecimal rendering of a stretch of memory, for people to read.

use crate::cpu::CPU;
use crate::fault::Fault;
use vstd::prelude::*;
use vstd::string::*;

verus! {

/// The sixteen hexadecimal digits, upper case.
pub open spec fn hex_digits() -> Seq<char> {
    seq!['0', '1', '2', '3', '4', '5', '6', '7', '8', '9', 'A', 'B', 'C', 'D', 'E', 'F']
}

/// A byte as two hexadecimal digits and a space.
pub open spec fn byte_text(byte: u8) -> Seq<char> {
    seq![hex_digits()[byte as int / 16], hex_digits()[byte as int % 16], ' ']
}

/// The first `count` bytes from `start` on, each as two hexadecimal digits
/// and a space, with a line feed after every sixteenth byte.
pub open spec fn dump_text(mem: Seq<u8>, start: int, count: nat) -> Seq<char>
    decreases count,
{
    if count == 0 {
        Seq::empty()
    } else {
        let before = dump_text(mem, start, (count - 1) as nat);
        let line_end: Seq<char> = if count % 16 == 0 {
            seq!['\n']
        } else {
            Seq::empty()
        };
        before + byte_text(mem[start + count - 1]) + line_end
    }
}

/// How many of the `count` bytes from `start` on lie inside `mem`.
pub open spec fn readable(mem: Seq<u8>, start: int, count: nat) -> nat {
    if start >= mem.len() {
        0
    } else if start + count <= mem.len() {
        count
    } else {
        (mem.len() - start) as nat
    }
}

/// The first address from `start` on that lies outside `mem`.
pub open spec fn first_unreadable(mem: Seq<u8>, start: usize) -> usize {
    if start >= mem.len() {
        start
    } else {
        mem.len() as usize
    }
}

/// The text of one hexadecimal digit.
fn hex_digit(nibble: u8) -> (text: &'static str)
    requires
        nibble < 16,
    ensures
        text@ == seq![hex_digits()[nibble as int]],
{
    proof {
        reveal_strlit("0");
        reveal_strlit("1");
        reveal_strlit("2");
        reveal_strlit("3");
        reveal_strlit("4");
        reveal_strlit("5");
        reveal_strlit("6");
        reveal_strlit("7");
        reveal_strlit("8");
        reveal_strlit("9");
        reveal_strlit("A");
        reveal_strlit("B");
        reveal_strlit("C");
        reveal_strlit("D");
        reveal_strlit("E");
        reveal_strlit("F");
    }
    match nibble {
        0 => "0",
        1 => "1",
        2 => "2",
        3 => "3",
        4 => "4",
        5 => "5",
        6 => "6",
        7 => "7",
        8 => "8",
        9 => "9",
        10 => "A",
        11 => "B",
        12 => "C",
        13 => "D",
        14 => "E",
        _ => "F",
    }
}

impl CPU {
    /// Renders the `count` bytes of memory from `start` on as hexadecimal,
    /// sixteen to a line. The rendering stops at the end of memory: the text
    /// then covers the bytes that could be read, and the fault names the
    /// first address that could not.
    pub fn dump_memory(&self, start: usize, count: usize) -> (dump: (String, Option<Fault>))
        ensures
            dump.0@ == dump_text(
                self@.memory,
                start as int,
                readable(self@.memory, start as int, count as nat),
            ),
            dump.1 == (if readable(self@.memory, start as int, count as nat) < count {
                Some(Fault::OutOfBounds { address: first_unreadable(self@.memory, start) })
            } else {
                None
            }),
    {
        proof {
            reveal_strlit(" ");
            reveal_strlit("\n");
        }
        let size = self.memory.size();
        let mut text = String::new();
        let mut done: usize = 0;
        while done < count
            invariant
                size == self@.memory.len(),
                done <= count,
                done == readable(self@.memory, start as int, done as nat),
                text@ == dump_text(self@.memory, start as int, done as nat),
                " "@ == seq![' '],
                "\n"@ == seq!['\n'],
            decreases count - done,
        {
            match self.memory.read(start + done) {
                Err(fault) => {
                    return (text, Some(fault));
                },
                Ok(byte) => {
                    text.append(hex_digit(byte / 16));
                    text.append(hex_digit(byte % 16));
                    text.append(" ");
                    if (done + 1) % 16 == 0 {
                        text.append("\n");
                    }
                },
            }
            done += 1;
        }
        (text, None)
    }
}

} // verus!
