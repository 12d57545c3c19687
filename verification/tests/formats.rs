use riscv_core::types::{encode, AnyInstruction, Instruction, B, I, J, R, S, U};

#[test]
fn rtype_instructions() {
    // add s2, s3, s4 -- s2 = s3 + s4
    // in machine code
    // 00110011 10100 10011 000 10010 0110011
    let add: Instruction<R> = Instruction::new(0x01498933);

    assert_eq!(add.opcode(), 0b0110011);
    assert_eq!(add.rd(), 0b10010);
    assert_eq!(add.funct3(), 0x0);
    assert_eq!(add.rs1(), 0b10011);
    assert_eq!(add.rs2(), 0b10100);
    assert_eq!(add.funct7(), 0x0)
}

#[test]
fn itype_instructions() {
    // add s4, s5, 0x25
    // 20, 21
    // MC: 000000110101 10101 000 10100 0010011
    // MC: 0000 0011 0101 1010 1000 1010 0001 0011
    // 025A8A13
    let addi: Instruction<I> = Instruction::new(0x025a8a13);
    assert_eq!(addi.opcode(), 0b0010011);
    assert_eq!(addi.rd(), 0b10100);
    assert_eq!(addi.funct3(), 0b000);
    assert_eq!(addi.rs1(), 0b10101);
    assert_eq!(addi.imm(), 0x25);
}

#[test]
fn stype_instructions() {
    // sw s3, 5(s2)
    // 19, 18
    // MC: 0000000 10011 10010 000 00101 0100011
    // MC: 00000001 0011 1001 0000 0010 1010 0011
    let sb: Instruction<S> = Instruction::new(0x013902A3);
    assert_eq!(sb.opcode(), 0b0100011);
    assert_eq!(sb.imm(), 0x05);
    assert_eq!(sb.funct3(), 0);
    assert_eq!(sb.rs1(), 18);
    assert_eq!(sb.rs2(), 19);
}

#[test]
fn btype_instructions() {
    // beq x5, x6, 16 <-- arb. offset, ignore
    // RS1 = 00101
    // RS2 = 00110
    // IMM: 1 0000
    //
    let beq: Instruction<B> = Instruction::new(0x02628063);

    assert_eq!(beq.opcode(), 0b1100011);
    assert_eq!(beq.funct3(), 0);
    assert_eq!(beq.rs1(), 5);
    assert_eq!(beq.rs2(), 6);
    // bit 25 of the word carries offset bit 5
    assert_eq!(beq.imm(), 32);
}

#[test]
fn btype_negative_immediate() {
    // scatter the 13-bit offset -8 (0x1FF8) into a branch word
    let imm13: u32 = 0x1FF8;
    let word: u32 = 0b1100011
        | (((imm13 >> 11) & 1) << 7)
        | (((imm13 >> 1) & 0xf) << 8)
        | (((imm13 >> 5) & 0x3f) << 25)
        | (((imm13 >> 12) & 1) << 31);
    let beq: Instruction<B> = Instruction::new(word);
    assert_eq!(beq.imm(), -8);
    assert_eq!(beq.imm() % 2, 0);
}

#[test]
fn utype_instructions() {
    // the 20-bit field sits in the upper 20 bits of the result
    let lui: Instruction<U> = Instruction::new(0x12345037);

    assert_eq!(lui.imm(), 0x12345000)
}

#[test]
fn jtype_instructions() {
    let jal_p: Instruction<J> = Instruction::new(0x00C000EF);
    assert_eq!(jal_p.imm(), 12);

    let jal_n: Instruction<J> = Instruction::new(0xFF9FF0EF);
    assert_eq!(jal_n.imm(), -8);
}

#[test]
fn itype_negative_immediate() {
    // imm field 0xFFF sign-extends to -1; 0x800 to -2048.
    let word: u32 = (0xFFF << 20) | (0b0010011);
    let addi: Instruction<I> = Instruction::new(word);
    assert_eq!(addi.imm(), -1);

    let word_min: u32 = (0x800 << 20) | (0b0010011);
    let addi_min: Instruction<I> = Instruction::new(word_min);
    assert_eq!(addi_min.imm(), -2048);
}

#[test]
fn stype_negative_immediate() {
    // imm 0xFFE split as high 0x7F over low 0x1E sign-extends to -2.
    let word: u32 = (0x7F << 25) | (0x1E << 7) | 0b0100011;
    let st: Instruction<S> = Instruction::new(word);
    assert_eq!(st.imm(), -2);
}

#[test]
fn utype_rd_and_jtype_rd() {
    let lui: Instruction<U> = Instruction::new(0x12345037);
    assert_eq!(lui.rd(), 0);

    let jal: Instruction<J> = Instruction::new(0x00C000EF);
    assert_eq!(jal.rd(), 1);
}

#[test]
fn classifier_covers_every_format() {
    assert!(matches!(encode(0x01498933), AnyInstruction::R(_)));
    assert!(matches!(encode(0x025a8a13), AnyInstruction::I(_)));
    // loads are I-format too
    assert!(matches!(encode(0b0000011), AnyInstruction::I(_)));
    assert!(matches!(encode(0x013902A3), AnyInstruction::S(_)));
    assert!(matches!(encode(0x02628063), AnyInstruction::B(_)));
    assert!(matches!(encode(0x12345037), AnyInstruction::U(_)));
    assert!(matches!(encode(0b0010111), AnyInstruction::U(_)));
    assert!(matches!(encode(0x00C000EF), AnyInstruction::J(_)));
    assert!(matches!(encode(0x00000073), AnyInstruction::Syscall));
    assert!(matches!(encode(0), AnyInstruction::Unrecognized));
    assert!(matches!(encode(0xFFFFFFFF), AnyInstruction::Unrecognized));
    // no format claims opcode 0b1100111
    assert!(matches!(encode(0b1100111), AnyInstruction::Unrecognized));
}

#[test]
fn classified_word_keeps_its_opcode() {
    match encode(0x01498933) {
        AnyInstruction::R(i) => assert_eq!(i.opcode(), 0b0110011),
        _ => panic!("expected an R-format word"),
    }
}

#[test]
fn rtype_field_encoding_example() {
    // The fields of the R-format reference word reassemble to it.
    let rd: u32 = 0b10010;
    let rs1: u32 = 0b10011;
    let rs2: u32 = 0b10100;
    let word: u32 = 0b0110011 | (rd << 7) | (rs1 << 15) | (rs2 << 20);
    assert_eq!(word, 0x01498933);
}
