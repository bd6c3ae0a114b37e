//! A fixed-size, zero-initialised byte memory with bounds-checked byte and
//! little-endian 16-bit access.

use crate::fault::Fault;
use vstd::prelude::*;

verus! {

/// The 16-bit word whose low byte is `low` and whose high byte is `high`.
pub open spec fn word_of(low: u8, high: u8) -> u16 {
    (low + 256 * high) as u16
}

/// The low byte of `word`.
pub open spec fn low_byte(word: u16) -> u8 {
    (word % 256) as u8
}

/// The high byte of `word`.
pub open spec fn high_byte(word: u16) -> u8 {
    (word / 256) as u8
}

/// Whether a single byte at `address` lies inside `mem`.
pub open spec fn byte_in_bounds(mem: Seq<u8>, address: int) -> bool {
    0 <= address < mem.len()
}

/// Whether the two bytes of a word at `address` lie inside `mem`.
pub open spec fn word_in_bounds(mem: Seq<u8>, address: int) -> bool {
    0 <= address && address + 1 < mem.len()
}

/// The little-endian word stored at `address` and `address + 1`.
pub open spec fn word_at(mem: Seq<u8>, address: int) -> u16
    recommends
        word_in_bounds(mem, address),
{
    word_of(mem[address], mem[address + 1])
}

/// `mem` with `word` stored little-endian at `address` and `address + 1`.
pub open spec fn store_word(mem: Seq<u8>, address: int, word: u16) -> Seq<u8>
    recommends
        word_in_bounds(mem, address),
{
    mem.update(address, low_byte(word)).update(address + 1, high_byte(word))
}

/// A word is the sum of its low byte and 256 times its high byte, and the two
/// bytes of a word built from `low` and `high` are `low` and `high`.
pub proof fn lemma_word_bytes(word: u16, low: u8, high: u8)
    ensures
        word_of(low_byte(word), high_byte(word)) == word,
        low_byte(word_of(low, high)) == low,
        high_byte(word_of(low, high)) == high,
{
}

/// Reading a word back from where it was written yields that word, for every
/// address at which a word fits and for every 16-bit value.
pub proof fn lemma_write_then_read_word(mem: Seq<u8>, address: int, word: u16)
    requires
        word_in_bounds(mem, address),
    ensures
        word_at(store_word(mem, address, word), address) == word,
        store_word(mem, address, word).len() == mem.len(),
{
    lemma_word_bytes(word, 0, 0);
}

/// Storing a word changes the two bytes it covers and no other.
pub proof fn lemma_store_word_frame(mem: Seq<u8>, address: int, word: u16, other: int)
    requires
        word_in_bounds(mem, address),
        byte_in_bounds(mem, other),
        other != address,
        other != address + 1,
    ensures
        store_word(mem, address, word)[other] == mem[other],
{
}

/// A flat byte memory. Its size is fixed when it is made.
pub struct Memory {
    pub(crate) data: Vec<u8>,
}

impl View for Memory {
    type V = Seq<u8>;

    closed spec fn view(&self) -> Seq<u8> {
        self.data@
    }
}

impl Memory {
    /// A memory of `size` bytes, all zero.
    pub fn new(size: usize) -> (memory: Memory)
        ensures
            memory@.len() == size,
            forall|i: int| 0 <= i < size ==> memory@[i] == 0,
    {
        Memory { data: vec![0u8; size] }
    }

    /// The number of addressable bytes.
    pub fn size(&self) -> (size: usize)
        ensures
            size == self@.len(),
    {
        self.data.len()
    }

    /// The byte at `address`, or `OutOfBounds` when `address` is not below the
    /// size.
    pub fn read(&self, address: usize) -> (result: Result<u8, Fault>)
        ensures
            result == (if byte_in_bounds(self@, address as int) {
                Ok(self@[address as int])
            } else {
                Err(Fault::OutOfBounds { address })
            }),
    {
        if address >= self.data.len() {
            Err(Fault::OutOfBounds { address })
        } else {
            Ok(self.data[address])
        }
    }

    /// Replaces the byte at `address` by `value`, or fails with `OutOfBounds`
    /// and changes nothing when `address` is not below the size.
    pub fn write(&mut self, address: usize, value: u8) -> (result: Result<(), Fault>)
        ensures
            result == (if byte_in_bounds(old(self)@, address as int) {
                Ok(())
            } else {
                Err(Fault::OutOfBounds { address })
            }),
            final(self)@ == (if byte_in_bounds(old(self)@, address as int) {
                old(self)@.update(address as int, value)
            } else {
                old(self)@
            }),
    {
        if address >= self.data.len() {
            Err(Fault::OutOfBounds { address })
        } else {
            self.data[address] = value;
            Ok(())
        }
    }

    /// The little-endian word at `address`, or `OutOfBounds` when its high
    /// byte would lie outside the memory.
    pub fn read_u16(&self, address: usize) -> (result: Result<u16, Fault>)
        ensures
            result == (if word_in_bounds(self@, address as int) {
                Ok(word_at(self@, address as int))
            } else {
                Err(Fault::OutOfBounds { address })
            }),
    {
        let size = self.data.len();
        if address >= size || size - address < 2 {
            Err(Fault::OutOfBounds { address })
        } else {
            let low = self.data[address] as u16;
            let high = self.data[address + 1] as u16;
            assert((high << 8) | low == low + 256 * high) by (bit_vector)
                requires
                    low < 256,
                    high < 256,
            ;
            Ok((high << 8) | low)
        }
    }

    /// Stores `value` little-endian at `address`, or fails with `OutOfBounds`
    /// and changes nothing when its high byte would lie outside the memory.
    pub fn write_u16(&mut self, address: usize, value: u16) -> (result: Result<(), Fault>)
        ensures
            result == (if word_in_bounds(old(self)@, address as int) {
                Ok(())
            } else {
                Err(Fault::OutOfBounds { address })
            }),
            final(self)@ == (if word_in_bounds(old(self)@, address as int) {
                store_word(old(self)@, address as int, value)
            } else {
                old(self)@
            }),
    {
        let size = self.data.len();
        if address >= size || size - address < 2 {
            Err(Fault::OutOfBounds { address })
        } else {
            let low = (value & 0x00FF) as u8;
            let high = ((value >> 8) & 0x00FF) as u8;
            assert(value & 0x00FF == value % 256) by (bit_vector);
            assert((value >> 8) & 0x00FF == value / 256) by (bit_vector);
            self.data[address] = low;
            self.data[address + 1] = high;
            Ok(())
        }
    }
}

} // verus!
