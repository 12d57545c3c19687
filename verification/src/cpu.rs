//! The execution core: a register file of 32 unsigned 32-bit values, a
//! dedicated program counter, an owned [`Memory`], and the
//! fetch-decode-execute loop over them.

use crate::memory::{word_at, word_byte, Memory};
use crate::types::{
    encode, recognized_opcode, spec_funct3, spec_opcode, spec_rd, spec_rs1, spec_rs2,
    AnyInstruction,
};
use crate::EmuError;
use vstd::prelude::*;

verus! {

/// Addition modulo 2^32, the wraparound semantics of register addition.
pub open spec fn wrap_add32(a: u32, b: u32) -> u32 {
    ((a + b) % 0x1_0000_0000) as u32
}

/// A single-threaded CPU: it exclusively owns its register file and its
/// memory, and a `step` mutates them in place.
#[derive(Debug)]
pub struct CPU {
    registers: Vec<u32>,
    memory: Memory,
    mem_size: u32,
    starting_pc: u32,
    pc: u32,
}

impl CPU {
    /// The register file has exactly 32 slots and the memory exactly the
    /// configured capacity.
    pub closed spec fn wf(&self) -> bool {
        &&& self.registers@.len() == 32
        &&& self.memory@.len() == self.mem_size as nat
    }

    /// The register file, as a sequence of 32 values.
    pub closed spec fn regs(&self) -> Seq<u32> {
        self.registers@
    }

    /// The memory contents, as a byte sequence.
    pub closed spec fn mem(&self) -> Seq<u8> {
        self.memory@
    }

    /// The program counter.
    pub closed spec fn spec_pc(&self) -> u32 {
        self.pc
    }

    /// The configured reset address that `init` loads into the program
    /// counter.
    pub closed spec fn start_pc(&self) -> u32 {
        self.starting_pc
    }

    /// A CPU with the default capacity of 512 bytes of memory and the
    /// default start address 12. Registers, memory and program counter
    /// all start at zero.
    pub fn new() -> (cpu: CPU)
        ensures
            cpu.wf(),
            cpu.regs().len() == 32,
            forall|i: int| 0 <= i < 32 ==> cpu.regs()[i] == 0u32,
            cpu.mem().len() == 512,
            forall|i: int| 0 <= i < 512 ==> cpu.mem()[i] == 0u8,
            cpu.start_pc() == 12u32,
            cpu.spec_pc() == 0u32,
    {
        Self::with_config(512, 12)
    }

    /// A CPU with an explicit memory capacity and start address.
    pub fn with_config(mem_size: u32, starting_pc: u32) -> (cpu: CPU)
        ensures
            cpu.wf(),
            cpu.regs().len() == 32,
            forall|i: int| 0 <= i < 32 ==> cpu.regs()[i] == 0u32,
            cpu.mem().len() == mem_size as nat,
            forall|i: int| 0 <= i < mem_size as int ==> cpu.mem()[i] == 0u8,
            cpu.start_pc() == starting_pc,
            cpu.spec_pc() == 0u32,
    {
        let mut registers: Vec<u32> = Vec::new();
        while registers.len() < 32
            invariant
                registers@.len() <= 32,
                forall|i: int| 0 <= i < registers@.len() ==> registers@[i] == 0u32,
            decreases 32 - registers@.len(),
        {
            registers.push(0u32);
        }
        CPU { registers, memory: Memory::new(mem_size), mem_size, starting_pc, pc: 0 }
    }

    /// Read a register. Indices at or above 32 yield nothing rather than
    /// an undefined value.
    pub fn get_register(&self, reg_n: u8) -> (r: Option<u32>)
        requires
            self.wf(),
        ensures
            reg_n < 32 ==> r == Some::<u32>(self.regs()[reg_n as int]),
            reg_n >= 32 ==> r is None,
    {
        if reg_n >= 32 {
            None
        } else {
            Some(self.registers[reg_n as usize])
        }
    }

    /// The current program counter.
    pub fn get_pc(&self) -> (r: u32)
        ensures
            r == self.spec_pc(),
    {
        self.pc
    }

    /// Write a register. Indices at or above 32 are reported as invalid
    /// and change nothing. Register 0 is an ordinary slot here: a write
    /// to it is stored faithfully, not discarded.
    pub fn write_reg(&mut self, reg: usize, value: u32) -> (r: Result<(), EmuError>)
        requires
            old(self).wf(),
        ensures
            final(self).wf(),
            final(self).mem() == old(self).mem(),
            final(self).spec_pc() == old(self).spec_pc(),
            final(self).start_pc() == old(self).start_pc(),
            reg < 32 ==> final(self).regs() == old(self).regs().update(reg as int, value) && r
                == Ok::<(), EmuError>(()),
            reg >= 32 ==> final(self).regs() == old(self).regs() && r == Err::<(), EmuError>(
                EmuError::InvalidRegister,
            ),
    {
        if reg < 32 {
            self.registers[reg] = value;
            Ok(())
        } else {
            Err(EmuError::InvalidRegister)
        }
    }

    /// Copy a byte image into memory starting at `start`. The bounds are
    /// checked before anything is written: either the whole image lands,
    /// or a fault is reported and memory is unchanged.
    pub fn write_memory_map(&mut self, memmap: Vec<u8>, start: u32) -> (r: Result<(), EmuError>)
        requires
            old(self).wf(),
        ensures
            final(self).wf(),
            final(self).regs() == old(self).regs(),
            final(self).spec_pc() == old(self).spec_pc(),
            final(self).start_pc() == old(self).start_pc(),
            final(self).mem().len() == old(self).mem().len(),
            start as int + memmap@.len() <= old(self).mem().len() ==> r == Ok::<(), EmuError>(())
                && (forall|i: int|
                0 <= i < memmap@.len() ==> final(self).mem()[start as int + i] == memmap@[i]) && (
            forall|a: int|
                0 <= a < old(self).mem().len() && !(start as int <= a < start as int
                    + memmap@.len()) ==> final(self).mem()[a] == old(self).mem()[a]),
            start as int + memmap@.len() > old(self).mem().len() ==> r == Err::<(), EmuError>(
                EmuError::MemoryFault,
            ) && final(self).mem() == old(self).mem(),
    {
        if memmap.len() > self.memory.len() || start as usize > self.memory.len() - memmap.len() {
            return Err(EmuError::MemoryFault);
        }
        let mut idx: usize = 0;
        while idx < memmap.len()
            invariant
                self.wf(),
                self.registers@ == old(self).registers@,
                self.pc == old(self).pc,
                self.starting_pc == old(self).starting_pc,
                self.mem_size == old(self).mem_size,
                self.memory@.len() == old(self).memory@.len(),
                idx <= memmap@.len(),
                start as int + memmap@.len() <= self.memory@.len(),
                forall|i: int|
                    0 <= i < idx ==> self.memory@[start as int + i] == memmap@[i],
                forall|a: int|
                    0 <= a < self.memory@.len() && !(start as int <= a < start as int + idx)
                        ==> self.memory@[a] == old(self).memory@[a],
            decreases memmap@.len() - idx,
        {
            let _ = self.memory.write(start + idx as u32, memmap[idx]);
            idx += 1;
        }
        Ok(())
    }

    /// Copy a sequence of 32-bit words into memory, little-endian, at a
    /// 4-byte stride from `start`. The bounds are checked before anything
    /// is written: either every word lands, or a fault is reported and
    /// memory is unchanged.
    pub fn write_memory_map_u32(&mut self, memmap: Vec<u32>, start: usize) -> (r: Result<
        (),
        EmuError,
    >)
        requires
            old(self).wf(),
        ensures
            final(self).wf(),
            final(self).regs() == old(self).regs(),
            final(self).spec_pc() == old(self).spec_pc(),
            final(self).start_pc() == old(self).start_pc(),
            final(self).mem().len() == old(self).mem().len(),
            start as int + 4 * memmap@.len() <= old(self).mem().len() ==> r == Ok::<(), EmuError>(
                (),
            ) && (forall|i: int|
                0 <= i < memmap@.len() ==> {
                    let w = #[trigger] memmap@[i];
                    &&& final(self).mem()[start as int + 4 * i] == word_byte(w, 0)
                    &&& final(self).mem()[start as int + 4 * i + 1] == word_byte(w, 1)
                    &&& final(self).mem()[start as int + 4 * i + 2] == word_byte(w, 2)
                    &&& final(self).mem()[start as int + 4 * i + 3] == word_byte(w, 3)
                }) && (forall|a: int|
                0 <= a < old(self).mem().len() && !(start as int <= a < start as int + 4
                    * memmap@.len()) ==> final(self).mem()[a] == old(self).mem()[a]),
            start as int + 4 * memmap@.len() > old(self).mem().len() ==> r == Err::<(), EmuError>(
                EmuError::MemoryFault,
            ) && final(self).mem() == old(self).mem(),
    {
        let cap = self.memory.len();
        if start > cap || memmap.len() > (cap - start) / 4 {
            return Err(EmuError::MemoryFault);
        }
        let mut idx: usize = 0;
        while idx < memmap.len()
            invariant
                self.wf(),
                self.registers@ == old(self).registers@,
                self.pc == old(self).pc,
                self.starting_pc == old(self).starting_pc,
                self.mem_size == old(self).mem_size,
                self.memory@.len() == old(self).memory@.len(),
                idx <= memmap@.len(),
                start as int + 4 * memmap@.len() <= self.memory@.len(),
                forall|i: int|
                    0 <= i < idx ==> {
                        let w = #[trigger] memmap@[i];
                        &&& self.memory@[start as int + 4 * i] == word_byte(w, 0)
                        &&& self.memory@[start as int + 4 * i + 1] == word_byte(w, 1)
                        &&& self.memory@[start as int + 4 * i + 2] == word_byte(w, 2)
                        &&& self.memory@[start as int + 4 * i + 3] == word_byte(w, 3)
                    },
                forall|a: int|
                    0 <= a < self.memory@.len() && !(start as int <= a < start as int + 4 * idx)
                        ==> self.memory@[a] == old(self).memory@[a],
            decreases memmap@.len() - idx,
        {
            let w = memmap[idx];
            let base: u32 = (start + 4 * idx) as u32;
            let _ = self.memory.write(base, (w & 0xff) as u8);
            let _ = self.memory.write(base + 1, ((w >> 8) & 0xff) as u8);
            let _ = self.memory.write(base + 2, ((w >> 16) & 0xff) as u8);
            let _ = self.memory.write(base + 3, ((w >> 24) & 0xff) as u8);
            idx += 1;
        }
        Ok(())
    }

    /// Read the 32-bit word stored little-endian at `addr` of the owned
    /// memory; a fault when the four bytes would not all fall below the
    /// capacity.
    pub fn read_mem(&self, addr: u32) -> (r: Result<u32, EmuError>)
        ensures
            addr as int + 4 <= self.mem().len() ==> r == Ok::<u32, EmuError>(
                word_at(self.mem(), addr as int),
            ),
            addr as int + 4 > self.mem().len() ==> r == Err::<u32, EmuError>(EmuError::MemoryFault),
    {
        self.memory.read(addr)
    }

    /// Seed the program counter from the configured start address.
    /// Idempotent: a second call changes nothing further.
    pub fn init(&mut self)
        requires
            old(self).wf(),
        ensures
            final(self).wf(),
            final(self).regs() == old(self).regs(),
            final(self).mem() == old(self).mem(),
            final(self).start_pc() == old(self).start_pc(),
            final(self).spec_pc() == old(self).start_pc(),
    {
        self.pc = self.starting_pc;
    }

    /// Execute one decoded instruction against the register file. The
    /// implemented subset is R-format addition (`funct3 == 0`): the
    /// destination register receives the wraparound sum of the two source
    /// registers. Every other word is reported, never silently skipped:
    /// a recognized format without semantics yields
    /// `UnimplementedInstruction`, an unknown opcode `UnrecognizedOpcode`.
    pub fn exec(&mut self, instr: AnyInstruction) -> (r: Result<(), EmuError>)
        requires
            old(self).wf(),
        ensures
            final(self).wf(),
            final(self).mem() == old(self).mem(),
            final(self).spec_pc() == old(self).spec_pc(),
            final(self).start_pc() == old(self).start_pc(),
            instr matches AnyInstruction::R(i) ==> (spec_funct3(i@) == 0 ==> r == Ok::<
                (),
                EmuError,
            >(()) && final(self).regs() == old(self).regs().update(
                spec_rd(i@) as int,
                wrap_add32(
                    old(self).regs()[spec_rs1(i@) as int],
                    old(self).regs()[spec_rs2(i@) as int],
                ),
            )) && (spec_funct3(i@) != 0 ==> r == Err::<(), EmuError>(
                EmuError::UnimplementedInstruction,
            ) && final(self).regs() == old(self).regs()),
            (instr matches AnyInstruction::I(_) || instr matches AnyInstruction::S(_)
                || instr matches AnyInstruction::B(_) || instr matches AnyInstruction::U(_)
                || instr matches AnyInstruction::J(_) || instr == AnyInstruction::Syscall) ==> r
                == Err::<(), EmuError>(EmuError::UnimplementedInstruction) && final(self).regs()
                == old(self).regs(),
            instr == AnyInstruction::Unrecognized ==> r == Err::<(), EmuError>(
                EmuError::UnrecognizedOpcode,
            ) && final(self).regs() == old(self).regs(),
    {
        match instr {
            AnyInstruction::R(instr) => {
                if instr.funct3() == 0 {
                    let rd = instr.rd();
                    let rs1 = self.registers[instr.rs1() as usize];
                    let rs2 = self.registers[instr.rs2() as usize];
                    let sum: u64 = rs1 as u64 + rs2 as u64;
                    self.registers[rd as usize] = (sum % 0x1_0000_0000) as u32;
                    Ok(())
                } else {
                    Err(EmuError::UnimplementedInstruction)
                }
            },
            AnyInstruction::Unrecognized => Err(EmuError::UnrecognizedOpcode),
            _ => Err(EmuError::UnimplementedInstruction),
        }
    }

    /// One fetch-decode-execute cycle: read the word at the program
    /// counter, classify it, execute it, and advance the program counter
    /// by 4. When the fetch itself faults, nothing changes; once a word
    /// is fetched the program counter advances whether or not its
    /// execution succeeded.
    pub fn step(&mut self) -> (r: Result<(), EmuError>)
        requires
            old(self).wf(),
        ensures
            final(self).wf(),
            final(self).mem() == old(self).mem(),
            final(self).start_pc() == old(self).start_pc(),
            old(self).spec_pc() as int + 4 > old(self).mem().len() ==> r == Err::<(), EmuError>(
                EmuError::MemoryFault,
            ) && final(self).spec_pc() == old(self).spec_pc() && final(self).regs() == old(
                self,
            ).regs(),
            old(self).spec_pc() as int + 4 <= old(self).mem().len() ==> final(self).spec_pc()
                as int == old(self).spec_pc() as int + 4,
            old(self).spec_pc() as int + 4 <= old(self).mem().len() ==> ({
                let w = word_at(old(self).mem(), old(self).spec_pc() as int);
                &&& (spec_opcode(w) == 0b0110011 && spec_funct3(w) == 0) ==> r == Ok::<
                    (),
                    EmuError,
                >(()) && final(self).regs() == old(self).regs().update(
                    spec_rd(w) as int,
                    wrap_add32(
                        old(self).regs()[spec_rs1(w) as int],
                        old(self).regs()[spec_rs2(w) as int],
                    ),
                )
                &&& (spec_opcode(w) == 0b0110011 && spec_funct3(w) != 0) ==> r == Err::<
                    (),
                    EmuError,
                >(EmuError::UnimplementedInstruction) && final(self).regs() == old(self).regs()
                &&& (recognized_opcode(spec_opcode(w)) && spec_opcode(w) != 0b0110011
                    && spec_opcode(w) != 0b1110011) ==> r == Err::<(), EmuError>(
                    EmuError::UnimplementedInstruction,
                ) && final(self).regs() == old(self).regs()
                &&& spec_opcode(w) == 0b1110011 ==> r == Err::<(), EmuError>(
                    EmuError::UnimplementedInstruction,
                ) && final(self).regs() == old(self).regs()
                &&& !recognized_opcode(spec_opcode(w)) ==> r == Err::<(), EmuError>(
                    EmuError::UnrecognizedOpcode,
                ) && final(self).regs() == old(self).regs()
            }),
    {
        let pc = self.pc;
        let machine_code = match self.memory.read(pc) {
            Ok(w) => w,
            Err(e) => {
                return Err(e);
            },
        };
        let instr = encode(machine_code);
        let res = self.exec(instr);
        self.pc = pc + 4;
        res
    }
}

} // verus!
