use riscv_core::cpu::CPU;
use riscv_core::memory::Memory;
use riscv_core::types::encode;
use riscv_core::EmuError;

fn add_word(rd: u32, rs1: u32, rs2: u32) -> u32 {
    0b0110011 | (rd << 7) | (rs1 << 15) | (rs2 << 20)
}

#[test]
fn memory_starts_zeroed() {
    let mem = Memory::new(16);
    assert_eq!(mem.len(), 16);
    for addr in 0..13 {
        assert_eq!(mem.read(addr), Ok(0));
    }
}

#[test]
fn memory_reads_little_endian() {
    let mut mem = Memory::new(8);
    assert_eq!(mem.write(4, 0x78), Ok(()));
    assert_eq!(mem.write(5, 0x56), Ok(()));
    assert_eq!(mem.write(6, 0x34), Ok(()));
    assert_eq!(mem.write(7, 0x12), Ok(()));
    assert_eq!(mem.read(4), Ok(0x12345678));
}

#[test]
fn memory_bounds_are_enforced() {
    let mut mem = Memory::new(8);
    assert_eq!(mem.write(8, 0xAB), Err(EmuError::MemoryFault));
    assert_eq!(mem.read(5), Err(EmuError::MemoryFault));
    assert_eq!(mem.read(0xFFFFFFFF), Err(EmuError::MemoryFault));
    // the failed write changed nothing
    assert_eq!(mem.read(4), Ok(0));

    let tiny = Memory::new(3);
    assert_eq!(tiny.read(0), Err(EmuError::MemoryFault));
}

#[test]
fn cpu_defaults() {
    let cpu = CPU::new();
    assert_eq!(cpu.get_pc(), 0);
    for reg in 0..32 {
        assert_eq!(cpu.get_register(reg), Some(0));
    }
    assert_eq!(cpu.read_mem(508), Ok(0));
    assert_eq!(cpu.read_mem(509), Err(EmuError::MemoryFault));
}

#[test]
fn register_index_bounds() {
    let mut cpu = CPU::new();
    assert_eq!(cpu.get_register(32), None);
    assert_eq!(cpu.get_register(255), None);
    assert_eq!(cpu.write_reg(32, 1), Err(EmuError::InvalidRegister));
    assert_eq!(cpu.write_reg(31, 7), Ok(()));
    assert_eq!(cpu.get_register(31), Some(7));
}

#[test]
fn byte_map_round_trip() {
    let mut cpu = CPU::with_config(16, 0);
    let image = vec![0xDD, 0xCC, 0xBB, 0xAA, 0x04, 0x03, 0x02, 0x01];
    assert_eq!(cpu.write_memory_map(image, 4), Ok(()));
    assert_eq!(cpu.read_mem(4), Ok(0xAABBCCDD));
    assert_eq!(cpu.read_mem(8), Ok(0x01020304));
    // untouched bytes stayed zero
    assert_eq!(cpu.read_mem(0), Ok(0));
    assert_eq!(cpu.read_mem(12), Ok(0));
}

#[test]
fn word_map_round_trip() {
    let mut cpu = CPU::with_config(32, 0);
    let words = vec![0xAABBCCDD, 0x11223344, 0xDEADBEEF];
    assert_eq!(cpu.write_memory_map_u32(words, 8), Ok(()));
    assert_eq!(cpu.read_mem(8), Ok(0xAABBCCDD));
    assert_eq!(cpu.read_mem(12), Ok(0x11223344));
    assert_eq!(cpu.read_mem(16), Ok(0xDEADBEEF));
    assert_eq!(cpu.read_mem(4), Ok(0));
    assert_eq!(cpu.read_mem(20), Ok(0));
}

#[test]
fn bulk_load_bounds_are_enforced() {
    let mut cpu = CPU::with_config(16, 0);
    let too_long = vec![1u8; 17];
    assert_eq!(cpu.write_memory_map(too_long, 0), Err(EmuError::MemoryFault));
    let past_end = vec![1u8, 2, 3, 4];
    assert_eq!(cpu.write_memory_map(past_end, 13), Err(EmuError::MemoryFault));
    assert_eq!(cpu.write_memory_map_u32(vec![5u32], 13), Err(EmuError::MemoryFault));
    assert_eq!(cpu.write_memory_map_u32(vec![5u32, 6], 9), Err(EmuError::MemoryFault));
    // nothing was written by any failed load
    for addr in 0..13 {
        assert_eq!(cpu.read_mem(addr), Ok(0));
    }
}

#[test]
fn init_seeds_pc_from_start_address() {
    let mut cpu = CPU::new();
    assert_eq!(cpu.get_pc(), 0);
    cpu.init();
    assert_eq!(cpu.get_pc(), 12);
    // idempotent
    cpu.init();
    assert_eq!(cpu.get_pc(), 12);

    let mut other = CPU::with_config(64, 40);
    other.init();
    assert_eq!(other.get_pc(), 40);
}

#[test]
fn step_executes_add() {
    let mut cpu = CPU::with_config(64, 12);
    // registers 7 and 5 hold 3 and 4; the sum lands in register 10
    assert_eq!(cpu.write_reg(7, 3), Ok(()));
    assert_eq!(cpu.write_reg(5, 4), Ok(()));
    assert_eq!(cpu.write_memory_map_u32(vec![add_word(10, 7, 5)], 12), Ok(()));
    cpu.init();
    assert_eq!(cpu.step(), Ok(()));
    assert_eq!(cpu.get_register(10), Some(7));
    assert_eq!(cpu.get_pc(), 16);
}

#[test]
fn add_wraps_modulo_two_to_the_32() {
    let mut cpu = CPU::with_config(64, 0);
    assert_eq!(cpu.write_reg(1, 0xFFFFFFFF), Ok(()));
    assert_eq!(cpu.write_reg(2, 1), Ok(()));
    assert_eq!(cpu.write_memory_map_u32(vec![add_word(3, 1, 2)], 0), Ok(()));
    cpu.init();
    assert_eq!(cpu.step(), Ok(()));
    assert_eq!(cpu.get_register(3), Some(0));
}

#[test]
fn exec_runs_a_decoded_add() {
    let mut cpu = CPU::new();
    assert_eq!(cpu.write_reg(18, 1), Ok(()));
    assert_eq!(cpu.write_reg(19, 41), Ok(()));
    assert_eq!(cpu.exec(encode(add_word(9, 18, 19))), Ok(()));
    assert_eq!(cpu.get_register(9), Some(42));
}

#[test]
fn unimplemented_instruction_is_reported() {
    let mut cpu = CPU::with_config(64, 0);
    // R-format with funct3 == 1 has no semantics yet
    let word = add_word(3, 1, 2) | (1 << 12);
    assert_eq!(cpu.write_memory_map_u32(vec![word], 0), Ok(()));
    cpu.init();
    assert_eq!(cpu.step(), Err(EmuError::UnimplementedInstruction));
    // the program counter advanced all the same
    assert_eq!(cpu.get_pc(), 4);
    assert_eq!(cpu.get_register(3), Some(0));
    // so do recognized formats without semantics, such as a system call
    let mut sys = CPU::with_config(64, 0);
    assert_eq!(sys.write_memory_map_u32(vec![0x00000073], 0), Ok(()));
    sys.init();
    assert_eq!(sys.step(), Err(EmuError::UnimplementedInstruction));
    assert_eq!(sys.get_pc(), 4);
}

#[test]
fn unrecognized_opcode_is_reported() {
    let mut cpu = CPU::with_config(64, 0);
    // the word 0 carries opcode 0, which no format claims
    cpu.init();
    assert_eq!(cpu.step(), Err(EmuError::UnrecognizedOpcode));
    assert_eq!(cpu.get_pc(), 4);
    for reg in 0..32 {
        assert_eq!(cpu.get_register(reg), Some(0));
    }
}

#[test]
fn fetch_out_of_bounds_is_reported() {
    let mut cpu = CPU::with_config(8, 8);
    cpu.init();
    assert_eq!(cpu.get_pc(), 8);
    assert_eq!(cpu.step(), Err(EmuError::MemoryFault));
    // a failed fetch does not advance the program counter
    assert_eq!(cpu.get_pc(), 8);
}
