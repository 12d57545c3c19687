//! Core of a RISC-V-compatible CPU emulator: typed views of 32-bit
//! instruction words, an opcode classifier, a byte-addressable memory,
//! and a fetch-decode-execute loop over a register file.

pub mod cpu;
pub mod memory;
pub mod types;

use vstd::prelude::*;

verus! {

/// The recoverable failure conditions of the emulator core.
#[derive(Clone, Copy, Debug, PartialEq, Eq, Structural)]
pub enum EmuError {
    /// A word's low 7 bits match no supported instruction format.
    UnrecognizedOpcode,
    /// The format is recognized but its operation has no semantics yet.
    UnimplementedInstruction,
    /// An address range falls outside the memory's capacity.
    MemoryFault,
    /// A register index at or above 32 was given.
    InvalidRegister,
}

} // verus!
