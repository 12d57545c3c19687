//! A flat byte-addressable store of fixed capacity, with bounds-checked
//! byte writes and little-endian 32-bit reads.

use crate::EmuError;
use vstd::prelude::*;

verus! {

/// A zero-initialized byte store; addresses run from 0 to the capacity
/// chosen at construction.
#[derive(Debug)]
pub struct Memory {
    mem: Vec<u8>,
}

impl View for Memory {
    type V = Seq<u8>;

    closed spec fn view(&self) -> Seq<u8> {
        self.mem@
    }
}

/// Four bytes read little-endian as one unsigned 32-bit value.
pub open spec fn le_word(b0: u8, b1: u8, b2: u8, b3: u8) -> u32 {
    (b0 as u32) | ((b1 as u32) << 8) | ((b2 as u32) << 16) | ((b3 as u32) << 24)
}

/// The 32-bit value stored little-endian at address `a` of `m`.
pub open spec fn word_at(m: Seq<u8>, a: int) -> u32
    recommends
        0 <= a,
        a + 4 <= m.len(),
{
    le_word(m[a], m[a + 1], m[a + 2], m[a + 3])
}

/// Byte `k` (0 is least significant) of a word stored little-endian.
pub open spec fn word_byte(w: u32, k: int) -> u8
    recommends
        0 <= k < 4,
{
    if k == 0 {
        (w & 0xff) as u8
    } else if k == 1 {
        ((w >> 8) & 0xff) as u8
    } else if k == 2 {
        ((w >> 16) & 0xff) as u8
    } else {
        ((w >> 24) & 0xff) as u8
    }
}

/// A word split into its four little-endian bytes and reassembled is
/// itself.
pub proof fn lemma_le_word_of_bytes(w: u32)
    by (bit_vector)
    ensures
        le_word((w & 0xff) as u8, ((w >> 8) & 0xff) as u8, ((w >> 16) & 0xff) as u8, ((w >> 24)
            & 0xff) as u8) == w,
{
}

/// Law: four consecutive bytes that hold the little-endian image of `w`
/// read back as `w`.
pub proof fn lemma_word_round_trip(m: Seq<u8>, a: int, w: u32)
    requires
        0 <= a,
        a + 4 <= m.len(),
        m[a] == word_byte(w, 0),
        m[a + 1] == word_byte(w, 1),
        m[a + 2] == word_byte(w, 2),
        m[a + 3] == word_byte(w, 3),
    ensures
        word_at(m, a) == w,
{
    lemma_le_word_of_bytes(w);
}

impl Memory {
    /// Allocate a store of exactly `mem_size` zero bytes.
    pub fn new(mem_size: u32) -> (m: Memory)
        ensures
            m@.len() == mem_size as nat,
            forall|i: int| 0 <= i < mem_size as int ==> m@[i] == 0u8,
    {
        let mut mem: Vec<u8> = Vec::new();
        while mem.len() < mem_size as usize
            invariant
                mem@.len() <= mem_size as nat,
                forall|i: int| 0 <= i < mem@.len() ==> mem@[i] == 0u8,
            decreases mem_size as int - mem@.len(),
        {
            mem.push(0u8);
        }
        Memory { mem }
    }

    /// The capacity in bytes.
    pub fn len(&self) -> (r: usize)
        ensures
            r == self@.len(),
    {
        self.mem.len()
    }

    /// Read the 32-bit value stored little-endian at `addr`. Reports a
    /// fault, and reads nothing, when the four bytes would not all fall
    /// below the capacity.
    pub fn read(&self, addr: u32) -> (r: Result<u32, EmuError>)
        ensures
            addr as int + 4 <= self@.len() ==> r == Ok::<u32, EmuError>(
                word_at(self@, addr as int),
            ),
            addr as int + 4 > self@.len() ==> r == Err::<u32, EmuError>(EmuError::MemoryFault),
    {
        if self.mem.len() < 4 || addr as usize > self.mem.len() - 4 {
            return Err(EmuError::MemoryFault);
        }
        let a = self.mem[addr as usize];
        let b = self.mem[addr as usize + 1];
        let c = self.mem[addr as usize + 2];
        let d = self.mem[addr as usize + 3];
        Ok((a as u32) | ((b as u32) << 8) | ((c as u32) << 16) | ((d as u32) << 24))
    }

    /// Store one byte at `addr`. Reports a fault, and changes nothing,
    /// when `addr` is at or above the capacity.
    pub fn write(&mut self, addr: u32, content: u8) -> (r: Result<(), EmuError>)
        ensures
            final(self)@.len() == old(self)@.len(),
            (addr as int) < old(self)@.len() ==> final(self)@ == old(self)@.update(
                addr as int,
                content,
            ) && r == Ok::<(), EmuError>(()),
            (addr as int) >= old(self)@.len() ==> final(self)@ == old(self)@ && r == Err::<
                (),
                EmuError,
            >(EmuError::MemoryFault),
    {
        if (addr as usize) < self.mem.len() {
            self.mem[addr as usize] = content;
            Ok(())
        } else {
            Err(EmuError::MemoryFault)
        }
    }
}

} // verus!
