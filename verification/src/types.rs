//! Instruction format model: the six RISC-V base format tags and, per tag,
//! the bit-field accessors of a 32-bit instruction word, together with the
//! opcode classifier that turns a raw word into a tagged instruction.

use core::marker::PhantomData;
use vstd::prelude::*;

verus! {

/// Register-register format tag.
#[derive(Debug)]
pub struct R;

/// Register-immediate format tag (also loads).
#[derive(Debug)]
pub struct I;

/// Store format tag.
#[derive(Debug)]
pub struct S;

/// Branch format tag.
#[derive(Debug)]
pub struct B;

/// Upper-immediate format tag.
#[derive(Debug)]
pub struct U;

/// Jump format tag.
#[derive(Debug)]
pub struct J;

/// An instruction word together with the format tag the classifier chose
/// for it. Only the accessors of that format are available on the value.
#[derive(Debug)]
pub struct Instruction<T> {
    instruction: u32,
    instruction_type: PhantomData<T>,
}

impl<T> View for Instruction<T> {
    type V = u32;

    closed spec fn view(&self) -> u32 {
        self.instruction
    }
}

/// A classified instruction word: one case per format, a sentinel for
/// system-call words, and a sentinel for words whose opcode is unknown.
pub enum AnyInstruction {
    R(Instruction<R>),
    I(Instruction<I>),
    S(Instruction<S>),
    B(Instruction<B>),
    U(Instruction<U>),
    J(Instruction<J>),
    Syscall,
    Unrecognized,
}

/// Low 7 bits of a word: the opcode field.
pub open spec fn spec_opcode(w: u32) -> u32 {
    w & 0x7f
}

/// Bits 11:7 of a word: the destination register index.
pub open spec fn spec_rd(w: u32) -> u32 {
    (w >> 7) & 0x1f
}

/// Bits 14:12 of a word: the minor operation selector.
pub open spec fn spec_funct3(w: u32) -> u32 {
    (w >> 12) & 0x7
}

/// Bits 19:15 of a word: the first source register index.
pub open spec fn spec_rs1(w: u32) -> u32 {
    (w >> 15) & 0x1f
}

/// Bits 24:20 of a word: the second source register index.
pub open spec fn spec_rs2(w: u32) -> u32 {
    (w >> 20) & 0x1f
}

/// Bits 31:25 of a word: the major operation selector of the R format.
pub open spec fn spec_funct7(w: u32) -> u32 {
    w >> 25
}

/// A 12-bit field read as a two's-complement value.
pub open spec fn sign_extend_12(v: u32) -> int
    recommends
        v < 0x1000,
{
    if v >= 0x800 {
        v - 0x1000
    } else {
        v as int
    }
}

/// A 21-bit field read as a two's-complement value.
pub open spec fn sign_extend_21(v: u32) -> int
    recommends
        v < 0x20_0000,
{
    if v >= 0x10_0000 {
        v - 0x20_0000
    } else {
        v as int
    }
}

/// I-format immediate: bits 31:20, sign-extended from 12 bits.
pub open spec fn spec_i_imm(w: u32) -> int {
    sign_extend_12(w >> 20)
}

/// S-format immediate: bits 31:25 over bits 11:7, sign-extended from
/// 12 bits.
pub open spec fn spec_s_imm(w: u32) -> int {
    sign_extend_12(((w >> 25) << 5) | ((w >> 7) & 0x1f))
}

/// A 13-bit field read as a two's-complement value.
pub open spec fn sign_extend_13(v: u32) -> int
    recommends
        v < 0x2000,
{
    if v >= 0x1000 {
        v - 0x2000
    } else {
        v as int
    }
}

/// The 13-bit B-format immediate before sign extension: bit 31 at
/// position 12, bit 7 at position 11, bits 30:25 at positions 10:5, and
/// bits 11:8 at positions 4:1. Bit 0 is always zero.
pub open spec fn spec_b_assembled(w: u32) -> u32 {
    (((w >> 31) & 1) << 12) | (((w >> 7) & 1) << 11) | (((w >> 25) & 0x3f) << 5) | (((w >> 8)
        & 0xf) << 1)
}

/// B-format immediate: the assembled 13-bit branch offset, always even,
/// sign-extended.
pub open spec fn spec_b_imm(w: u32) -> int {
    sign_extend_13(spec_b_assembled(w))
}

/// U-format immediate: bits 31:12 kept in place, the upper 20 bits of the
/// result; the low 12 bits are zero.
pub open spec fn spec_u_imm(w: u32) -> u32 {
    w & 0xFFFF_F000
}

/// The 21-bit J-format immediate before sign extension: bit 31 at
/// position 20, bits 19:12 kept in place, bit 20 at position 11, and
/// bits 30:21 at positions 10:1. Bit 0 is always zero.
pub open spec fn spec_j_assembled(w: u32) -> u32 {
    (((w >> 31) & 1) << 20) | (((w >> 12) & 0xff) << 12) | (((w >> 20) & 1) << 11) | (((w >> 21)
        & 0x3ff) << 1)
}

/// J-format immediate: the assembled 21-bit value, sign-extended.
pub open spec fn spec_j_imm(w: u32) -> int {
    sign_extend_21(spec_j_assembled(w))
}

/// The 7-bit opcodes the classifier knows.
pub open spec fn recognized_opcode(op: u32) -> bool {
    ||| op == 0b0110011
    ||| op == 0b0010011
    ||| op == 0b0000011
    ||| op == 0b0100011
    ||| op == 0b1100011
    ||| op == 0b0110111
    ||| op == 0b0010111
    ||| op == 0b1101111
    ||| op == 0b1110011
}

/// Ranges of the bit fields of a word, and the identities that relate the
/// shift-and-mask steps of the accessors to the field definitions.
pub proof fn lemma_field_bounds(w: u32)
    by (bit_vector)
    ensures
        w & 0x7f < 0x80,
        (w >> 7) & 0x1f < 0x20,
        (w >> 12) & 0x7 < 0x8,
        (w >> 15) & 0x1f < 0x20,
        (w >> 20) & 0x1f < 0x20,
        w >> 25 < 0x80,
        w >> 20 < 0x1000,
        ((w >> 25) << 5) | ((w >> 7) & 0x1f) < 0x1000,
        spec_b_assembled(w) < 0x2000,
        spec_b_assembled(w) % 2 == 0,
        spec_u_imm(w) % 0x1000 == 0,
        spec_j_assembled(w) < 0x20_0000,
{
}

/// A word built from in-range R-format fields.
pub open spec fn assemble_r(
    opcode: u32,
    rd: u32,
    funct3: u32,
    rs1: u32,
    rs2: u32,
    funct7: u32,
) -> u32 {
    opcode | (rd << 7) | (funct3 << 12) | (rs1 << 15) | (rs2 << 20) | (funct7 << 25)
}

/// A word built from in-range I-format fields; `imm12` is the raw 12-bit
/// immediate field.
pub open spec fn assemble_i(opcode: u32, rd: u32, funct3: u32, rs1: u32, imm12: u32) -> u32 {
    opcode | (rd << 7) | (funct3 << 12) | (rs1 << 15) | (imm12 << 20)
}

/// A word built from in-range S-format fields; `imm12` is the raw 12-bit
/// immediate, split over bits 31:25 and 11:7.
pub open spec fn assemble_s(opcode: u32, funct3: u32, rs1: u32, rs2: u32, imm12: u32) -> u32 {
    opcode | ((imm12 & 0x1f) << 7) | (funct3 << 12) | (rs1 << 15) | (rs2 << 20) | ((imm12 >> 5)
        << 25)
}

/// A word built from in-range B-format fields; `imm13` is the 13-bit
/// branch offset before sign extension, scattered into the encoding.
pub open spec fn assemble_b(opcode: u32, funct3: u32, rs1: u32, rs2: u32, imm13: u32) -> u32 {
    opcode | (((imm13 >> 11) & 1) << 7) | (((imm13 >> 1) & 0xf) << 8) | (funct3 << 12) | (rs1
        << 15) | (rs2 << 20) | (((imm13 >> 5) & 0x3f) << 25) | (((imm13 >> 12) & 1) << 31)
}

/// A word built from in-range U-format fields; `imm20` is the raw 20-bit
/// upper immediate.
pub open spec fn assemble_u(opcode: u32, rd: u32, imm20: u32) -> u32 {
    opcode | (rd << 7) | (imm20 << 12)
}

/// A word built from in-range J-format fields; `imm21` is the 21-bit
/// immediate value before sign extension, scattered into the encoding.
pub open spec fn assemble_j(opcode: u32, rd: u32, imm21: u32) -> u32 {
    opcode | (rd << 7) | (((imm21 >> 12) & 0xff) << 12) | (((imm21 >> 11) & 1) << 20) | (((imm21
        >> 1) & 0x3ff) << 21) | (((imm21 >> 20) & 1) << 31)
}

/// Law: a word assembled from in-range R-format fields decodes back to
/// exactly those fields.
pub proof fn lemma_r_round_trip(opcode: u32, rd: u32, funct3: u32, rs1: u32, rs2: u32, funct7: u32)
    requires
        opcode < 0x80,
        rd < 0x20,
        funct3 < 0x8,
        rs1 < 0x20,
        rs2 < 0x20,
        funct7 < 0x80,
    ensures
        spec_opcode(assemble_r(opcode, rd, funct3, rs1, rs2, funct7)) == opcode,
        spec_rd(assemble_r(opcode, rd, funct3, rs1, rs2, funct7)) == rd,
        spec_funct3(assemble_r(opcode, rd, funct3, rs1, rs2, funct7)) == funct3,
        spec_rs1(assemble_r(opcode, rd, funct3, rs1, rs2, funct7)) == rs1,
        spec_rs2(assemble_r(opcode, rd, funct3, rs1, rs2, funct7)) == rs2,
        spec_funct7(assemble_r(opcode, rd, funct3, rs1, rs2, funct7)) == funct7,
{
    assert(spec_opcode(assemble_r(opcode, rd, funct3, rs1, rs2, funct7)) == opcode && spec_rd(
        assemble_r(opcode, rd, funct3, rs1, rs2, funct7),
    ) == rd && spec_funct3(assemble_r(opcode, rd, funct3, rs1, rs2, funct7)) == funct3 && spec_rs1(
        assemble_r(opcode, rd, funct3, rs1, rs2, funct7),
    ) == rs1 && spec_rs2(assemble_r(opcode, rd, funct3, rs1, rs2, funct7)) == rs2 && spec_funct7(
        assemble_r(opcode, rd, funct3, rs1, rs2, funct7),
    ) == funct7) by (bit_vector)
        requires
            opcode < 0x80,
            rd < 0x20,
            funct3 < 0x8,
            rs1 < 0x20,
            rs2 < 0x20,
            funct7 < 0x80,
    ;
}

/// Law: a word assembled from in-range I-format fields decodes back to
/// exactly those fields, the raw immediate read as its sign-extended
/// value.
pub proof fn lemma_i_round_trip(opcode: u32, rd: u32, funct3: u32, rs1: u32, imm12: u32)
    requires
        opcode < 0x80,
        rd < 0x20,
        funct3 < 0x8,
        rs1 < 0x20,
        imm12 < 0x1000,
    ensures
        spec_opcode(assemble_i(opcode, rd, funct3, rs1, imm12)) == opcode,
        spec_rd(assemble_i(opcode, rd, funct3, rs1, imm12)) == rd,
        spec_funct3(assemble_i(opcode, rd, funct3, rs1, imm12)) == funct3,
        spec_rs1(assemble_i(opcode, rd, funct3, rs1, imm12)) == rs1,
        spec_i_imm(assemble_i(opcode, rd, funct3, rs1, imm12)) == sign_extend_12(imm12),
{
    assert(spec_opcode(assemble_i(opcode, rd, funct3, rs1, imm12)) == opcode && spec_rd(
        assemble_i(opcode, rd, funct3, rs1, imm12),
    ) == rd && spec_funct3(assemble_i(opcode, rd, funct3, rs1, imm12)) == funct3 && spec_rs1(
        assemble_i(opcode, rd, funct3, rs1, imm12),
    ) == rs1 && (assemble_i(opcode, rd, funct3, rs1, imm12) >> 20) == imm12) by (bit_vector)
        requires
            opcode < 0x80,
            rd < 0x20,
            funct3 < 0x8,
            rs1 < 0x20,
            imm12 < 0x1000,
    ;
}

/// Law: a word assembled from in-range S-format fields decodes back to
/// exactly those fields, the raw immediate read as its sign-extended
/// value.
pub proof fn lemma_s_round_trip(opcode: u32, funct3: u32, rs1: u32, rs2: u32, imm12: u32)
    requires
        opcode < 0x80,
        funct3 < 0x8,
        rs1 < 0x20,
        rs2 < 0x20,
        imm12 < 0x1000,
    ensures
        spec_opcode(assemble_s(opcode, funct3, rs1, rs2, imm12)) == opcode,
        spec_funct3(assemble_s(opcode, funct3, rs1, rs2, imm12)) == funct3,
        spec_rs1(assemble_s(opcode, funct3, rs1, rs2, imm12)) == rs1,
        spec_rs2(assemble_s(opcode, funct3, rs1, rs2, imm12)) == rs2,
        spec_s_imm(assemble_s(opcode, funct3, rs1, rs2, imm12)) == sign_extend_12(imm12),
{
    assert(spec_opcode(assemble_s(opcode, funct3, rs1, rs2, imm12)) == opcode && spec_funct3(
        assemble_s(opcode, funct3, rs1, rs2, imm12),
    ) == funct3 && spec_rs1(assemble_s(opcode, funct3, rs1, rs2, imm12)) == rs1 && spec_rs2(
        assemble_s(opcode, funct3, rs1, rs2, imm12),
    ) == rs2 && ((assemble_s(opcode, funct3, rs1, rs2, imm12) >> 25) << 5) | ((assemble_s(
        opcode,
        funct3,
        rs1,
        rs2,
        imm12,
    ) >> 7) & 0x1f) == imm12) by (bit_vector)
        requires
            opcode < 0x80,
            funct3 < 0x8,
            rs1 < 0x20,
            rs2 < 0x20,
            imm12 < 0x1000,
    ;
}

/// Law: a word assembled from in-range B-format fields decodes back to
/// exactly those fields; the immediate, which is always even, comes back
/// as its sign-extended value.
pub proof fn lemma_b_round_trip(opcode: u32, funct3: u32, rs1: u32, rs2: u32, imm13: u32)
    requires
        opcode < 0x80,
        funct3 < 0x8,
        rs1 < 0x20,
        rs2 < 0x20,
        imm13 < 0x2000,
        imm13 & 1 == 0,
    ensures
        spec_opcode(assemble_b(opcode, funct3, rs1, rs2, imm13)) == opcode,
        spec_funct3(assemble_b(opcode, funct3, rs1, rs2, imm13)) == funct3,
        spec_rs1(assemble_b(opcode, funct3, rs1, rs2, imm13)) == rs1,
        spec_rs2(assemble_b(opcode, funct3, rs1, rs2, imm13)) == rs2,
        spec_b_imm(assemble_b(opcode, funct3, rs1, rs2, imm13)) == sign_extend_13(imm13),
{
    assert(spec_opcode(assemble_b(opcode, funct3, rs1, rs2, imm13)) == opcode && spec_funct3(
        assemble_b(opcode, funct3, rs1, rs2, imm13),
    ) == funct3 && spec_rs1(assemble_b(opcode, funct3, rs1, rs2, imm13)) == rs1 && spec_rs2(
        assemble_b(opcode, funct3, rs1, rs2, imm13),
    ) == rs2 && spec_b_assembled(assemble_b(opcode, funct3, rs1, rs2, imm13)) == imm13) by (bit_vector)
        requires
            opcode < 0x80,
            funct3 < 0x8,
            rs1 < 0x20,
            rs2 < 0x20,
            imm13 < 0x2000,
            imm13 & 1 == 0,
    ;
}

/// Law: a word assembled from in-range U-format fields decodes back to
/// exactly those fields; the raw 20-bit immediate comes back placed in
/// the upper 20 bits.
pub proof fn lemma_u_round_trip(opcode: u32, rd: u32, imm20: u32)
    requires
        opcode < 0x80,
        rd < 0x20,
        imm20 < 0x10_0000,
    ensures
        spec_opcode(assemble_u(opcode, rd, imm20)) == opcode,
        spec_rd(assemble_u(opcode, rd, imm20)) == rd,
        spec_u_imm(assemble_u(opcode, rd, imm20)) == imm20 << 12,
{
    assert(spec_opcode(assemble_u(opcode, rd, imm20)) == opcode && spec_rd(
        assemble_u(opcode, rd, imm20),
    ) == rd && spec_u_imm(assemble_u(opcode, rd, imm20)) == imm20 << 12) by (bit_vector)
        requires
            opcode < 0x80,
            rd < 0x20,
            imm20 < 0x10_0000,
    ;
}

/// Law: a word assembled from in-range J-format fields decodes back to
/// exactly those fields; the immediate, which is always even, comes back
/// as its sign-extended value.
pub proof fn lemma_j_round_trip(opcode: u32, rd: u32, imm21: u32)
    requires
        opcode < 0x80,
        rd < 0x20,
        imm21 < 0x20_0000,
        imm21 & 1 == 0,
    ensures
        spec_opcode(assemble_j(opcode, rd, imm21)) == opcode,
        spec_rd(assemble_j(opcode, rd, imm21)) == rd,
        spec_j_imm(assemble_j(opcode, rd, imm21)) == sign_extend_21(imm21),
{
    assert(spec_opcode(assemble_j(opcode, rd, imm21)) == opcode && spec_rd(
        assemble_j(opcode, rd, imm21),
    ) == rd && spec_j_assembled(assemble_j(opcode, rd, imm21)) == imm21) by (bit_vector)
        requires
            opcode < 0x80,
            rd < 0x20,
            imm21 < 0x20_0000,
            imm21 & 1 == 0,
    ;
}

/// Classify a raw word by its low 7 bits. Total: every word maps to
/// exactly one format tag, the system-call sentinel, or the unrecognized
/// sentinel.
pub fn encode(code: u32) -> (r: AnyInstruction)
    ensures
        spec_opcode(code) == 0b0110011 ==> (r matches AnyInstruction::R(i) && i@ == code),
        (spec_opcode(code) == 0b0010011 || spec_opcode(code) == 0b0000011) ==> (
        r matches AnyInstruction::I(i) && i@ == code),
        spec_opcode(code) == 0b0100011 ==> (r matches AnyInstruction::S(i) && i@ == code),
        spec_opcode(code) == 0b1100011 ==> (r matches AnyInstruction::B(i) && i@ == code),
        (spec_opcode(code) == 0b0110111 || spec_opcode(code) == 0b0010111) ==> (
        r matches AnyInstruction::U(i) && i@ == code),
        spec_opcode(code) == 0b1101111 ==> (r matches AnyInstruction::J(i) && i@ == code),
        spec_opcode(code) == 0b1110011 ==> r == AnyInstruction::Syscall,
        !recognized_opcode(spec_opcode(code)) ==> r == AnyInstruction::Unrecognized,
{
    let opcode = code & 0b1111111;

    match opcode {
        0b0110011 => AnyInstruction::R(Instruction::new(code)),
        0b0010011 => AnyInstruction::I(Instruction::new(code)),
        0b0000011 => AnyInstruction::I(Instruction::new(code)),
        0b0100011 => AnyInstruction::S(Instruction::new(code)),
        0b1100011 => AnyInstruction::B(Instruction::new(code)),
        0b0110111 => AnyInstruction::U(Instruction::new(code)),
        0b0010111 => AnyInstruction::U(Instruction::new(code)),
        0b1101111 => AnyInstruction::J(Instruction::new(code)),
        0b1110011 => AnyInstruction::Syscall,
        _ => AnyInstruction::Unrecognized,
    }
}

impl<T> Instruction<T> {
    /// The opcode field, meaningful for every format.
    pub fn opcode(&self) -> (r: u8)
        ensures
            r as u32 == spec_opcode(self@),
            r < 0x80,
    {
        proof {
            lemma_field_bounds(self.instruction);
        }
        (self.instruction & 0b1111111) as u8
    }

    /// Wrap a raw word under the format tag `T`.
    pub fn new(code: u32) -> (r: Self)
        ensures
            r@ == code,
    {
        Self { instruction: code, instruction_type: PhantomData }
    }
}

impl Instruction<R> {
    /// Destination register index, 0 to 31.
    pub fn rd(&self) -> (r: u8)
        ensures
            r as u32 == spec_rd(self@),
            r < 32,
    {
        proof {
            lemma_field_bounds(self.instruction);
        }
        (self.instruction >> 7 & 0b11111) as u8
    }

    /// Minor operation selector, 0 to 7.
    pub fn funct3(&self) -> (r: u8)
        ensures
            r as u32 == spec_funct3(self@),
            r < 8,
    {
        proof {
            lemma_field_bounds(self.instruction);
        }
        (self.instruction >> 12 & 0b111) as u8
    }

    /// First source register index, 0 to 31.
    pub fn rs1(&self) -> (r: u8)
        ensures
            r as u32 == spec_rs1(self@),
            r < 32,
    {
        proof {
            lemma_field_bounds(self.instruction);
        }
        (self.instruction >> 15 & 0b11111) as u8
    }

    /// Second source register index, 0 to 31.
    pub fn rs2(&self) -> (r: u8)
        ensures
            r as u32 == spec_rs2(self@),
            r < 32,
    {
        proof {
            lemma_field_bounds(self.instruction);
        }
        (self.instruction >> 20 & 0b11111) as u8
    }

    /// Major operation selector, 0 to 127.
    pub fn funct7(&self) -> (r: u8)
        ensures
            r as u32 == spec_funct7(self@),
            r < 0x80,
    {
        proof {
            lemma_field_bounds(self.instruction);
        }
        (self.instruction >> 25) as u8
    }
}

impl Instruction<I> {
    /// Destination register index, 0 to 31.
    pub fn rd(&self) -> (r: u8)
        ensures
            r as u32 == spec_rd(self@),
            r < 32,
    {
        proof {
            lemma_field_bounds(self.instruction);
        }
        (self.instruction >> 7 & 0b11111) as u8
    }

    /// Minor operation selector, 0 to 7.
    pub fn funct3(&self) -> (r: u8)
        ensures
            r as u32 == spec_funct3(self@),
            r < 8,
    {
        proof {
            lemma_field_bounds(self.instruction);
        }
        (self.instruction >> 12 & 0b111) as u8
    }

    /// First source register index, 0 to 31.
    pub fn rs1(&self) -> (r: u8)
        ensures
            r as u32 == spec_rs1(self@),
            r < 32,
    {
        proof {
            lemma_field_bounds(self.instruction);
        }
        (self.instruction >> 15 & 0b11111) as u8
    }

    /// Sign-extended 12-bit immediate, -2048 to 2047.
    pub fn imm(&self) -> (r: i16)
        ensures
            r as int == spec_i_imm(self@),
            -0x800 <= r < 0x800,
    {
        proof {
            lemma_field_bounds(self.instruction);
        }
        let v: u32 = self.instruction >> 20;
        if v >= 0x800 {
            (v as i16) - 0x1000
        } else {
            v as i16
        }
    }
}

impl Instruction<S> {
    /// Minor operation selector, 0 to 7.
    pub fn funct3(&self) -> (r: u8)
        ensures
            r as u32 == spec_funct3(self@),
            r < 8,
    {
        proof {
            lemma_field_bounds(self.instruction);
        }
        (self.instruction >> 12 & 0b111) as u8
    }

    /// First source register index, 0 to 31.
    pub fn rs1(&self) -> (r: u8)
        ensures
            r as u32 == spec_rs1(self@),
            r < 32,
    {
        proof {
            lemma_field_bounds(self.instruction);
        }
        (self.instruction >> 15 & 0b11111) as u8
    }

    /// Second source register index, 0 to 31.
    pub fn rs2(&self) -> (r: u8)
        ensures
            r as u32 == spec_rs2(self@),
            r < 32,
    {
        proof {
            lemma_field_bounds(self.instruction);
        }
        (self.instruction >> 20 & 0b11111) as u8
    }

    /// Sign-extended 12-bit immediate, split over bits 31:25 and 11:7.
    pub fn imm(&self) -> (r: i16)
        ensures
            r as int == spec_s_imm(self@),
            -0x800 <= r < 0x800,
    {
        proof {
            lemma_field_bounds(self.instruction);
        }
        let low: u32 = self.instruction >> 7 & 0b11111;
        let high: u32 = self.instruction >> 25;
        let v: u32 = (high << 5) | low;
        if v >= 0x800 {
            (v as i16) - 0x1000
        } else {
            v as i16
        }
    }
}

impl Instruction<B> {
    /// Minor operation selector, 0 to 7.
    pub fn funct3(&self) -> (r: u8)
        ensures
            r as u32 == spec_funct3(self@),
            r < 8,
    {
        proof {
            lemma_field_bounds(self.instruction);
        }
        (self.instruction >> 12 & 0b111) as u8
    }

    /// First source register index, 0 to 31.
    pub fn rs1(&self) -> (r: u8)
        ensures
            r as u32 == spec_rs1(self@),
            r < 32,
    {
        proof {
            lemma_field_bounds(self.instruction);
        }
        (self.instruction >> 15 & 0b11111) as u8
    }

    /// Second source register index, 0 to 31.
    pub fn rs2(&self) -> (r: u8)
        ensures
            r as u32 == spec_rs2(self@),
            r < 32,
    {
        proof {
            lemma_field_bounds(self.instruction);
        }
        (self.instruction >> 20 & 0b11111) as u8
    }

    /// Sign-extended 13-bit branch offset; always even.
    pub fn imm(&self) -> (r: i16)
        ensures
            r as int == spec_b_imm(self@),
            -0x1000 <= r < 0x1000,
            r % 2 == 0,
    {
        proof {
            lemma_field_bounds(self.instruction);
        }
        let w: u32 = self.instruction;
        let imm12: u32 = ((w >> 31) & 0x1) << 12;
        let imm11: u32 = ((w >> 7) & 0x1) << 11;
        let imm10_5: u32 = ((w >> 25) & 0x3f) << 5;
        let imm4_1: u32 = ((w >> 8) & 0xf) << 1;
        let v: u32 = imm12 | imm11 | imm10_5 | imm4_1;
        if v >= 0x1000 {
            (v as i16) - 0x2000
        } else {
            v as i16
        }
    }
}

impl Instruction<U> {
    /// Destination register index, 0 to 31.
    pub fn rd(&self) -> (r: u8)
        ensures
            r as u32 == spec_rd(self@),
            r < 32,
    {
        proof {
            lemma_field_bounds(self.instruction);
        }
        (self.instruction >> 7 & 0b11111) as u8
    }

    /// Unsigned 20-bit upper immediate, bits 31:12 of the word kept in
    /// place; the low 12 bits of the result are zero.
    pub fn imm(&self) -> (r: u32)
        ensures
            r == spec_u_imm(self@),
            r % 0x1000 == 0,
    {
        proof {
            lemma_field_bounds(self.instruction);
        }
        self.instruction & 0xFFFF_F000
    }
}

impl Instruction<J> {
    /// Destination register index, 0 to 31.
    pub fn rd(&self) -> (r: u8)
        ensures
            r as u32 == spec_rd(self@),
            r < 32,
    {
        proof {
            lemma_field_bounds(self.instruction);
        }
        (self.instruction >> 7 & 0b11111) as u8
    }

    /// Sign-extended 21-bit jump immediate; always even.
    pub fn imm(&self) -> (r: i32)
        ensures
            r as int == spec_j_imm(self@),
            -0x10_0000 <= r < 0x10_0000,
    {
        proof {
            lemma_field_bounds(self.instruction);
        }
        let w: u32 = self.instruction;
        let imm20: u32 = ((w >> 31) & 0x1) << 20;
        let imm19_12: u32 = ((w >> 12) & 0xff) << 12;
        let imm11: u32 = ((w >> 20) & 0x1) << 11;
        let imm10_1: u32 = ((w >> 21) & 0x3ff) << 1;
        let v: u32 = imm20 | imm19_12 | imm11 | imm10_1;
        if v >= 0x10_0000 {
            (v as i32) - 0x20_0000
        } else {
            v as i32
        }
    }
}

} // verus!
