//! The instruction codec: a bit-exact mapping between 16-bit machine words
//! and typed instruction values.
//!
//! Every operand field lives at a fixed bit position inside the word. A field
//! narrower than 16 bits that holds a two's-complement quantity is
//! sign-extended on decode, so decoded immediates and offsets are full 16-bit
//! words ready for wrapping address arithmetic.
use vstd::prelude::*;

use crate::{CondFlag, InstructionSize, RegisterIndex};

verus! {

/// Why a word failed to decode.
#[derive(Debug, Copy, Clone, PartialEq, Eq, Structural)]
pub enum DecodeError {
    /// The four opcode bits named one of the two unassigned families.
    UnrecognizedOpcode,
    /// A trap word carried a vector byte outside the six known services.
    UnrecognizedTrapCode,
}

/// The instruction family selected by bits 12 to 15 of a word.
#[derive(Debug, Copy, Clone, PartialEq, Eq, Structural)]
pub enum OpCode {
    Branch,
    Add,
    Load,
    Store,
    JumpSubRoutine,
    And,
    LoadBaseOffset,
    StoreBaseOffset,
    Unused,
    Not,
    LoadIndirect,
    StoreIndirect,
    Jump,
    Reserved,
    LoadEffectiveAddress,
    Trap,
}

impl OpCode {
    /// The four-bit number that names this family in an encoded word.
    pub open spec fn spec_code(self) -> u16 {
        match self {
            OpCode::Branch => 0,
            OpCode::Add => 1,
            OpCode::Load => 2,
            OpCode::Store => 3,
            OpCode::JumpSubRoutine => 4,
            OpCode::And => 5,
            OpCode::LoadBaseOffset => 6,
            OpCode::StoreBaseOffset => 7,
            OpCode::Unused => 8,
            OpCode::Not => 9,
            OpCode::LoadIndirect => 10,
            OpCode::StoreIndirect => 11,
            OpCode::Jump => 12,
            OpCode::Reserved => 13,
            OpCode::LoadEffectiveAddress => 14,
            OpCode::Trap => 15,
        }
    }

    fn code(&self) -> (r: u16)
        ensures
            r == self.spec_code(),
    {
        match self {
            OpCode::Branch => 0,
            OpCode::Add => 1,
            OpCode::Load => 2,
            OpCode::Store => 3,
            OpCode::JumpSubRoutine => 4,
            OpCode::And => 5,
            OpCode::LoadBaseOffset => 6,
            OpCode::StoreBaseOffset => 7,
            OpCode::Unused => 8,
            OpCode::Not => 9,
            OpCode::LoadIndirect => 10,
            OpCode::StoreIndirect => 11,
            OpCode::Jump => 12,
            OpCode::Reserved => 13,
            OpCode::LoadEffectiveAddress => 14,
            OpCode::Trap => 15,
        }
    }

    /// Shifts the opcode number up to bits 12 to 15, where it sits in a word.
    pub fn align_instruction(&self) -> (r: InstructionSize)
        ensures
            r == self.spec_code() << 12u16,
    {
        self.code() << 12
    }

    /// Reads the opcode family out of a word. The two unassigned families
    /// have no `OpCode` to give back, so their words are left out.
    pub fn from_instruction(instruction: InstructionSize) -> (r: Self)
        requires
            instruction >> 12u16 != 8,
            instruction >> 12u16 != 13,
        ensures
            r.spec_code() == instruction >> 12u16,
    {
        let opcode: u16 = get_opcode(instruction);
        proof {
            lemma_opcode_bound(instruction);
        }
        match opcode {
            0 => OpCode::Branch,
            1 => OpCode::Add,
            2 => OpCode::Load,
            3 => OpCode::Store,
            4 => OpCode::JumpSubRoutine,
            5 => OpCode::And,
            6 => OpCode::LoadBaseOffset,
            7 => OpCode::StoreBaseOffset,
            9 => OpCode::Not,
            10 => OpCode::LoadIndirect,
            11 => OpCode::StoreIndirect,
            12 => OpCode::Jump,
            14 => OpCode::LoadEffectiveAddress,
            15 => OpCode::Trap,
            _ => {
                proof {
                    assert(false);
                }
                OpCode::Branch
            },
        }
    }
}

/// Widens a two's-complement value of `len` bits to the full word: when the
/// field's top bit is set, every higher bit of the result is set too.
pub open spec fn spec_sign_extend(val: u16, len: u16) -> u16
    recommends
        1 <= len <= 15,
{
    if val >> ((len - 1) as u16) == 1 {
        (0xFFFFu16 << len) | val
    } else {
        val
    }
}

/// A 16-bit value that a 5-bit immediate field can carry and give back.
pub open spec fn imm5_fits(v: u16) -> bool {
    v == spec_sign_extend(v & 0x1F, 5)
}

/// A 16-bit value that a 6-bit offset field can carry and give back.
pub open spec fn off6_fits(v: u16) -> bool {
    v == spec_sign_extend(v & 0x3F, 6)
}

/// A 16-bit value that a 9-bit offset field can carry and give back.
pub open spec fn off9_fits(v: u16) -> bool {
    v == spec_sign_extend(v & 0x1FF, 9)
}

/// A 16-bit value that an 11-bit offset field can carry and give back.
pub open spec fn off11_fits(v: u16) -> bool {
    v == spec_sign_extend(v & 0x7FF, 11)
}

fn sign_extend_u16(val: u16, original_length: u16) -> (r: u16)
    requires
        1 <= original_length <= 15,
    ensures
        r == spec_sign_extend(val, original_length),
{
    if val >> (original_length - 1) == 1 {
        (0xFFFF << original_length) | val
    } else {
        val
    }
}

proof fn lemma_opcode_bound(w: u16)
    by (bit_vector)
    ensures
        w >> 12u16 < 16,
{
}

proof fn lemma_or_zero(x: u16)
    by (bit_vector)
    ensures
        0u16 | x == x,
{
}

proof fn lemma_reg_field(w: u16)
    by (bit_vector)
    ensures
        ((w >> 9u16) & 7) < 8,
        ((w >> 6u16) & 7) < 8,
        (w & 7) < 8,
{
}

proof fn lemma_sext5_fits(w: u16)
    by (bit_vector)
    ensures
        imm5_fits(spec_sign_extend(w & 0x1F, 5)),
{
}

proof fn lemma_sext6_fits(w: u16)
    by (bit_vector)
    ensures
        off6_fits(spec_sign_extend(w & 0x3F, 6)),
{
}

proof fn lemma_sext9_fits(w: u16)
    by (bit_vector)
    ensures
        off9_fits(spec_sign_extend(w & 0x1FF, 9)),
{
}

proof fn lemma_sext11_fits(w: u16)
    by (bit_vector)
    ensures
        off11_fits(spec_sign_extend(w & 0x7FF, 11)),
{
}

proof fn lemma_low_byte(w: u16)
    by (bit_vector)
    ensures
        w & 0xFF < 0x100,
{
}

fn get_opcode(instr: InstructionSize) -> (r: u16)
    ensures
        r == instr >> 12u16,
{
    instr >> 12
}

fn set_opcode(instr: InstructionSize, op: OpCode) -> (r: InstructionSize)
    ensures
        r == instr | (op.spec_code() << 12u16),
{
    instr | op.align_instruction()
}

fn get_dr(instr: InstructionSize) -> (r: RegisterIndex)
    ensures
        r == ((instr >> 9u16) & 7) as u8,
{
    ((instr >> 9) & 7) as u8
}

fn set_dr(instr: InstructionSize, register: RegisterIndex) -> (r: InstructionSize)
    ensures
        r == instr | ((register as u16) << 9u16),
{
    instr | ((register as u16) << 9)
}

fn get_sr1(instr: InstructionSize) -> (r: RegisterIndex)
    ensures
        r == ((instr >> 6u16) & 7) as u8,
{
    ((instr >> 6) & 7) as u8
}

fn set_sr1(instr: InstructionSize, register: RegisterIndex) -> (r: InstructionSize)
    ensures
        r == instr | ((register as u16) << 6u16),
{
    instr | ((register as u16) << 6)
}

fn get_imm5(instr: InstructionSize) -> (r: u16)
    ensures
        r == spec_sign_extend(instr & 0x1F, 5),
{
    sign_extend_u16(instr & 0x1F, 5)
}

fn set_imm5(instr: InstructionSize, imm5: u16) -> (r: InstructionSize)
    ensures
        r == instr | (imm5 & 0x1F) | 0x20,
{
    instr | (imm5 & 0x1F) | 0x20
}

fn get_immediate_mode(instr: InstructionSize) -> (r: u16)
    ensures
        r == (instr >> 5u16) & 1,
{
    (instr >> 5) & 1
}

fn get_sr2(instr: InstructionSize) -> (r: RegisterIndex)
    ensures
        r == (instr & 7) as u8,
{
    (instr & 7) as u8
}

fn set_sr2(instr: InstructionSize, register: RegisterIndex) -> (r: InstructionSize)
    ensures
        r == instr | (register as u16),
{
    instr | (register as u16)
}

fn get_nzp(instr: InstructionSize) -> (r: CondFlag)
    ensures
        r == (CondFlag { bits: ((instr >> 9u16) & 7) as u8 }),
{
    CondFlag { bits: ((instr >> 9) & 7) as u8 }
}

fn set_nzp(instr: InstructionSize, cond: CondFlag) -> (r: InstructionSize)
    ensures
        r == instr | ((cond.bits as u16) << 9u16),
{
    instr | ((cond.bits() as u16) << 9)
}

fn get_base_r(instr: InstructionSize) -> (r: RegisterIndex)
    ensures
        r == ((instr >> 6u16) & 7) as u8,
{
    ((instr >> 6) & 7) as u8
}

fn set_base_r(instr: InstructionSize, base_r: RegisterIndex) -> (r: InstructionSize)
    ensures
        r == instr | ((base_r as u16) << 6u16),
{
    instr | ((base_r as u16) << 6)
}

fn get_pc_offset_mode(instr: InstructionSize) -> (r: u16)
    ensures
        r == (instr >> 11u16) & 1,
{
    (instr >> 11) & 1
}

fn set_pc_offset_mode(instr: InstructionSize) -> (r: u16)
    ensures
        r == instr | (1u16 << 11u16),
{
    instr | (1u16 << 11)
}

fn get_pc_offset6(instr: InstructionSize) -> (r: u16)
    ensures
        r == spec_sign_extend(instr & 0x3F, 6),
{
    sign_extend_u16(instr & 0x3F, 6)
}

fn set_pc_offset6(instr: InstructionSize, offset: u16) -> (r: InstructionSize)
    ensures
        r == instr | (offset & 0x3F),
{
    instr | (offset & 0x3F)
}

fn get_pc_offset9(instr: InstructionSize) -> (r: u16)
    ensures
        r == spec_sign_extend(instr & 0x1FF, 9),
{
    sign_extend_u16(instr & 0x1FF, 9)
}

fn set_pc_offset9(instr: InstructionSize, offset: u16) -> (r: InstructionSize)
    ensures
        r == instr | (offset & 0x1FF),
{
    instr | (offset & 0x1FF)
}

fn get_pc_offset11(instr: InstructionSize) -> (r: u16)
    ensures
        r == spec_sign_extend(instr & 0x7FF, 11),
{
    sign_extend_u16(instr & 0x7FF, 11)
}

fn set_pc_offset11(instr: InstructionSize, offset: u16) -> (r: InstructionSize)
    ensures
        r == instr | (offset & 0x7FF),
{
    instr | (offset & 0x7FF)
}

fn get_sr(instr: InstructionSize) -> (r: RegisterIndex)
    ensures
        r == ((instr >> 9u16) & 7) as u8,
{
    ((instr >> 9) & 7) as u8
}

fn set_sr(instr: InstructionSize, sr: RegisterIndex) -> (r: InstructionSize)
    ensures
        r == instr | ((sr as u16) << 9u16),
{
    instr | ((sr as u16) << 9)
}

/// An add of a register and a sign-extended 5-bit constant.
#[derive(Debug, Copy, Clone, PartialEq, Eq, Structural)]
pub struct AddImmediate {
    pub dr: RegisterIndex,
    pub sr1: RegisterIndex,
    pub imm5: u16,
}

impl AddImmediate {
    /// The operand fields fit their encoded widths.
    pub open spec fn wf(self) -> bool {
        self.dr < 8 && self.sr1 < 8 && imm5_fits(self.imm5)
    }

    pub open spec fn spec_encode(self) -> u16 {
        (OpCode::Add.spec_code() << 12u16) | ((self.dr as u16) << 9u16) | ((self.sr1 as u16)
            << 6u16) | (self.imm5 & 0x1F) | 0x20
    }

    pub open spec fn spec_decode(instr: u16) -> AddImmediate {
        AddImmediate {
            dr: ((instr >> 9u16) & 7) as u8,
            sr1: ((instr >> 6u16) & 7) as u8,
            imm5: spec_sign_extend(instr & 0x1F, 5),
        }
    }

    pub fn encode(&self) -> (r: u16)
        ensures
            r == self.spec_encode(),
    {
        let instr: u16 = 0;
        let instr: u16 = set_opcode(instr, OpCode::Add);
        let instr: u16 = set_dr(instr, self.dr);
        let instr: u16 = set_sr1(instr, self.sr1);
        let instr: u16 = set_imm5(instr, self.imm5);
        proof {
            lemma_or_zero(OpCode::Add.spec_code() << 12u16);
        }
        instr
    }

    pub fn decode(instr: u16) -> (r: Self)
        ensures
            r == Self::spec_decode(instr),
            r.wf(),
    {
        let dr: u8 = get_dr(instr);
        let sr1: u8 = get_sr1(instr);
        let imm5: u16 = get_imm5(instr);
        proof {
            lemma_reg_field(instr);
            lemma_sext5_fits(instr);
        }
        AddImmediate { dr, sr1, imm5 }
    }
}

/// An add of two registers.
#[derive(Debug, Copy, Clone, PartialEq, Eq, Structural)]
pub struct AddRegister {
    pub dr: RegisterIndex,
    pub sr1: RegisterIndex,
    pub sr2: RegisterIndex,
}

impl AddRegister {
    /// The operand fields fit their encoded widths.
    pub open spec fn wf(self) -> bool {
        self.dr < 8 && self.sr1 < 8 && self.sr2 < 8
    }

    pub open spec fn spec_encode(self) -> u16 {
        (OpCode::Add.spec_code() << 12u16) | ((self.dr as u16) << 9u16) | ((self.sr1 as u16)
            << 6u16) | (self.sr2 as u16)
    }

    pub open spec fn spec_decode(instr: u16) -> AddRegister {
        AddRegister {
            dr: ((instr >> 9u16) & 7) as u8,
            sr1: ((instr >> 6u16) & 7) as u8,
            sr2: (instr & 7) as u8,
        }
    }

    pub fn encode(&self) -> (r: u16)
        ensures
            r == self.spec_encode(),
    {
        let instr: u16 = 0;
        let instr: u16 = set_opcode(instr, OpCode::Add);
        let instr: u16 = set_dr(instr, self.dr);
        let instr: u16 = set_sr1(instr, self.sr1);
        let instr: u16 = set_sr2(instr, self.sr2);
        proof {
            lemma_or_zero(OpCode::Add.spec_code() << 12u16);
        }
        instr
    }

    pub fn decode(instr: u16) -> (r: Self)
        ensures
            r == Self::spec_decode(instr),
            r.wf(),
    {
        let dr: u8 = get_dr(instr);
        let sr1: u8 = get_sr1(instr);
        let sr2: u8 = get_sr2(instr);
        proof {
            lemma_reg_field(instr);
        }
        AddRegister { dr, sr1, sr2 }
    }
}

/// A bitwise AND of a register and a sign-extended 5-bit constant.
#[derive(Debug, Copy, Clone, PartialEq, Eq, Structural)]
pub struct AndImmediate {
    pub dr: RegisterIndex,
    pub sr1: RegisterIndex,
    pub imm5: u16,
}

impl AndImmediate {
    /// The operand fields fit their encoded widths.
    pub open spec fn wf(self) -> bool {
        self.dr < 8 && self.sr1 < 8 && imm5_fits(self.imm5)
    }

    pub open spec fn spec_encode(self) -> u16 {
        (OpCode::And.spec_code() << 12u16) | ((self.dr as u16) << 9u16) | ((self.sr1 as u16)
            << 6u16) | (self.imm5 & 0x1F) | 0x20
    }

    pub open spec fn spec_decode(instr: u16) -> AndImmediate {
        AndImmediate {
            dr: ((instr >> 9u16) & 7) as u8,
            sr1: ((instr >> 6u16) & 7) as u8,
            imm5: spec_sign_extend(instr & 0x1F, 5),
        }
    }

    pub fn encode(&self) -> (r: InstructionSize)
        ensures
            r == self.spec_encode(),
    {
        let instr: u16 = 0;
        let instr: u16 = set_opcode(instr, OpCode::And);
        let instr: u16 = set_dr(instr, self.dr);
        let instr: u16 = set_sr1(instr, self.sr1);
        let instr: u16 = set_imm5(instr, self.imm5);
        proof {
            lemma_or_zero(OpCode::And.spec_code() << 12u16);
        }
        instr
    }

    pub fn decode(instr: InstructionSize) -> (r: Self)
        ensures
            r == Self::spec_decode(instr),
            r.wf(),
    {
        let dr: u8 = get_dr(instr);
        let sr1: u8 = get_sr1(instr);
        let imm5: u16 = get_imm5(instr);
        proof {
            lemma_reg_field(instr);
            lemma_sext5_fits(instr);
        }
        AndImmediate { dr, sr1, imm5 }
    }
}

/// A bitwise AND of two registers.
#[derive(Debug, Copy, Clone, PartialEq, Eq, Structural)]
pub struct AndRegister {
    pub dr: RegisterIndex,
    pub sr1: RegisterIndex,
    pub sr2: RegisterIndex,
}

impl AndRegister {
    /// The operand fields fit their encoded widths.
    pub open spec fn wf(self) -> bool {
        self.dr < 8 && self.sr1 < 8 && self.sr2 < 8
    }

    pub open spec fn spec_encode(self) -> u16 {
        (OpCode::And.spec_code() << 12u16) | ((self.dr as u16) << 9u16) | ((self.sr1 as u16)
            << 6u16) | (self.sr2 as u16)
    }

    pub open spec fn spec_decode(instr: u16) -> AndRegister {
        AndRegister {
            dr: ((instr >> 9u16) & 7) as u8,
            sr1: ((instr >> 6u16) & 7) as u8,
            sr2: (instr & 7) as u8,
        }
    }

    pub fn encode(&self) -> (r: InstructionSize)
        ensures
            r == self.spec_encode(),
    {
        let instr: u16 = 0;
        let instr: u16 = set_opcode(instr, OpCode::And);
        let instr: u16 = set_dr(instr, self.dr);
        let instr: u16 = set_sr1(instr, self.sr1);
        let instr: u16 = set_sr2(instr, self.sr2);
        proof {
            lemma_or_zero(OpCode::And.spec_code() << 12u16);
        }
        instr
    }

    pub fn decode(instr: InstructionSize) -> (r: Self)
        ensures
            r == Self::spec_decode(instr),
            r.wf(),
    {
        let dr: u8 = get_dr(instr);
        let sr1: u8 = get_sr1(instr);
        let sr2: u8 = get_sr2(instr);
        proof {
            lemma_reg_field(instr);
        }
        AndRegister { dr, sr1, sr2 }
    }
}

/// A conditional branch: taken when the stored flag meets the mask.
#[derive(Debug, Copy, Clone, PartialEq, Eq, Structural)]
pub struct Branch {
    pub nzp: CondFlag,
    pub pc_offset9: u16,
}

impl Branch {
    /// The operand fields fit their encoded widths.
    pub open spec fn wf(self) -> bool {
        self.nzp.bits < 8 && off9_fits(self.pc_offset9)
    }

    pub open spec fn spec_encode(self) -> u16 {
        (OpCode::Branch.spec_code() << 12u16) | ((self.nzp.bits as u16) << 9u16) | (self.pc_offset9
            & 0x1FF)
    }

    pub open spec fn spec_decode(instr: u16) -> Branch {
        Branch {
            nzp: CondFlag { bits: ((instr >> 9u16) & 7) as u8 },
            pc_offset9: spec_sign_extend(instr & 0x1FF, 9),
        }
    }

    pub fn encode(&self) -> (r: InstructionSize)
        ensures
            r == self.spec_encode(),
    {
        let instr: u16 = 0;
        let instr: u16 = set_opcode(instr, OpCode::Branch);
        let instr: u16 = set_nzp(instr, self.nzp);
        let instr: u16 = set_pc_offset9(instr, self.pc_offset9);
        proof {
            lemma_or_zero(OpCode::Branch.spec_code() << 12u16);
        }
        instr
    }

    pub fn decode(instr: InstructionSize) -> (r: Self)
        ensures
            r == Self::spec_decode(instr),
            r.wf(),
    {
        let nzp: CondFlag = get_nzp(instr);
        let pc_offset9: u16 = get_pc_offset9(instr);
        proof {
            lemma_reg_field(instr);
            lemma_sext9_fits(instr);
        }
        Branch { nzp, pc_offset9 }
    }
}

/// An unconditional jump to the address held in a base register.
#[derive(Debug, Copy, Clone, PartialEq, Eq, Structural)]
pub struct Jump {
    pub base_r: u8,
}

impl Jump {
    /// The operand fields fit their encoded widths.
    pub open spec fn wf(self) -> bool {
        self.base_r < 8
    }

    pub open spec fn spec_encode(self) -> u16 {
        (OpCode::Jump.spec_code() << 12u16) | ((self.base_r as u16) << 6u16)
    }

    pub open spec fn spec_decode(instr: u16) -> Jump {
        Jump { base_r: ((instr >> 6u16) & 7) as u8 }
    }

    pub fn encode(&self) -> (r: InstructionSize)
        ensures
            r == self.spec_encode(),
    {
        let instr: u16 = 0;
        let instr: u16 = set_opcode(instr, OpCode::Jump);
        let instr: u16 = set_base_r(instr, self.base_r);
        proof {
            lemma_or_zero(OpCode::Jump.spec_code() << 12u16);
        }
        instr
    }

    pub fn decode(instr: InstructionSize) -> (r: Self)
        ensures
            r == Self::spec_decode(instr),
            r.wf(),
    {
        let base_r: u8 = get_base_r(instr);
        proof {
            lemma_reg_field(instr);
        }
        Jump { base_r }
    }
}

/// A subroutine call to a PC-relative target; the return address goes to R7.
#[derive(Debug, Copy, Clone, PartialEq, Eq, Structural)]
pub struct JumpSubRoutineOffset {
    pub pc_offset11: u16,
}

impl JumpSubRoutineOffset {
    /// The operand fields fit their encoded widths.
    pub open spec fn wf(self) -> bool {
        off11_fits(self.pc_offset11)
    }

    pub open spec fn spec_encode(self) -> u16 {
        (OpCode::JumpSubRoutine.spec_code() << 12u16) | (self.pc_offset11 & 0x7FF) | (1u16
            << 11u16)
    }

    pub open spec fn spec_decode(instr: u16) -> JumpSubRoutineOffset {
        JumpSubRoutineOffset { pc_offset11: spec_sign_extend(instr & 0x7FF, 11) }
    }

    pub fn encode(&self) -> (r: InstructionSize)
        ensures
            r == self.spec_encode(),
    {
        let instr: u16 = 0;
        let instr: u16 = set_opcode(instr, OpCode::JumpSubRoutine);
        let instr: u16 = set_pc_offset11(instr, self.pc_offset11);
        let instr: u16 = set_pc_offset_mode(instr);
        proof {
            lemma_or_zero(OpCode::JumpSubRoutine.spec_code() << 12u16);
        }
        instr
    }

    pub fn decode(instr: InstructionSize) -> (r: Self)
        ensures
            r == Self::spec_decode(instr),
            r.wf(),
    {
        let pc_offset11: u16 = get_pc_offset11(instr);
        proof {
            lemma_sext11_fits(instr);
        }
        JumpSubRoutineOffset { pc_offset11 }
    }
}

/// A subroutine call through a base register; the return address goes to R7.
#[derive(Debug, Copy, Clone, PartialEq, Eq, Structural)]
pub struct JumpSubRoutineRegister {
    pub base_r: RegisterIndex,
}

impl JumpSubRoutineRegister {
    /// The operand fields fit their encoded widths.
    pub open spec fn wf(self) -> bool {
        self.base_r < 8
    }

    pub open spec fn spec_encode(self) -> u16 {
        (OpCode::JumpSubRoutine.spec_code() << 12u16) | ((self.base_r as u16) << 6u16)
    }

    pub open spec fn spec_decode(instr: u16) -> JumpSubRoutineRegister {
        JumpSubRoutineRegister { base_r: ((instr >> 6u16) & 7) as u8 }
    }

    pub fn encode(&self) -> (r: InstructionSize)
        ensures
            r == self.spec_encode(),
    {
        let instr: u16 = 0;
        let instr: u16 = set_opcode(instr, OpCode::JumpSubRoutine);
        let instr: u16 = set_base_r(instr, self.base_r);
        proof {
            lemma_or_zero(OpCode::JumpSubRoutine.spec_code() << 12u16);
        }
        instr
    }

    pub fn decode(instr: InstructionSize) -> (r: Self)
        ensures
            r == Self::spec_decode(instr),
            r.wf(),
    {
        let base_r: u8 = get_base_r(instr);
        proof {
            lemma_reg_field(instr);
        }
        JumpSubRoutineRegister { base_r }
    }
}

/// A load from a PC-relative address.
#[derive(Debug, Copy, Clone, PartialEq, Eq, Structural)]
pub struct Load {
    pub dr: RegisterIndex,
    pub pc_offset9: u16,
}

impl Load {
    /// The operand fields fit their encoded widths.
    pub open spec fn wf(self) -> bool {
        self.dr < 8 && off9_fits(self.pc_offset9)
    }

    pub open spec fn spec_encode(self) -> u16 {
        (OpCode::Load.spec_code() << 12u16) | ((self.dr as u16) << 9u16) | (self.pc_offset9
            & 0x1FF)
    }

    pub open spec fn spec_decode(instr: u16) -> Load {
        Load {
            dr: ((instr >> 9u16) & 7) as u8,
            pc_offset9: spec_sign_extend(instr & 0x1FF, 9),
        }
    }

    pub fn encode(&self) -> (r: InstructionSize)
        ensures
            r == self.spec_encode(),
    {
        let instr: u16 = 0;
        let instr: u16 = set_opcode(instr, OpCode::Load);
        let instr: u16 = set_dr(instr, self.dr);
        let instr: u16 = set_pc_offset9(instr, self.pc_offset9);
        proof {
            lemma_or_zero(OpCode::Load.spec_code() << 12u16);
        }
        instr
    }

    pub fn decode(instr: InstructionSize) -> (r: Self)
        ensures
            r == Self::spec_decode(instr),
            r.wf(),
    {
        let dr: u8 = get_dr(instr);
        let pc_offset9: u16 = get_pc_offset9(instr);
        proof {
            lemma_reg_field(instr);
            lemma_sext9_fits(instr);
        }
        Load { dr, pc_offset9 }
    }
}

/// A load from the address in a base register plus a 6-bit offset.
#[derive(Debug, Copy, Clone, PartialEq, Eq, Structural)]
pub struct LoadBaseOffset {
    pub dr: RegisterIndex,
    pub base_r: RegisterIndex,
    pub pc_offset6: u16,
}

impl LoadBaseOffset {
    /// The operand fields fit their encoded widths.
    pub open spec fn wf(self) -> bool {
        self.dr < 8 && self.base_r < 8 && off6_fits(self.pc_offset6)
    }

    pub open spec fn spec_encode(self) -> u16 {
        (OpCode::LoadBaseOffset.spec_code() << 12u16) | ((self.dr as u16) << 9u16) | ((self.base_r
            as u16) << 6u16) | (self.pc_offset6 & 0x3F)
    }

    pub open spec fn spec_decode(instr: u16) -> LoadBaseOffset {
        LoadBaseOffset {
            dr: ((instr >> 9u16) & 7) as u8,
            base_r: ((instr >> 6u16) & 7) as u8,
            pc_offset6: spec_sign_extend(instr & 0x3F, 6),
        }
    }

    pub fn encode(&self) -> (r: InstructionSize)
        ensures
            r == self.spec_encode(),
    {
        let instr: u16 = 0;
        let instr: u16 = set_opcode(instr, OpCode::LoadBaseOffset);
        let instr: u16 = set_dr(instr, self.dr);
        let instr: u16 = set_base_r(instr, self.base_r);
        let instr: u16 = set_pc_offset6(instr, self.pc_offset6);
        proof {
            lemma_or_zero(OpCode::LoadBaseOffset.spec_code() << 12u16);
        }
        instr
    }

    pub fn decode(instr: InstructionSize) -> (r: Self)
        ensures
            r == Self::spec_decode(instr),
            r.wf(),
    {
        let dr: u8 = get_dr(instr);
        let base_r: u8 = get_base_r(instr);
        let pc_offset6: u16 = get_pc_offset6(instr);
        proof {
            lemma_reg_field(instr);
            lemma_sext6_fits(instr);
        }
        LoadBaseOffset { base_r, dr, pc_offset6 }
    }
}

/// A load of a PC-relative address itself, not of the word stored there.
#[derive(Debug, Copy, Clone, PartialEq, Eq, Structural)]
pub struct LoadEffectiveAddress {
    pub dr: RegisterIndex,
    pub pc_offset9: u16,
}

impl LoadEffectiveAddress {
    /// The operand fields fit their encoded widths.
    pub open spec fn wf(self) -> bool {
        self.dr < 8 && off9_fits(self.pc_offset9)
    }

    pub open spec fn spec_encode(self) -> u16 {
        (OpCode::LoadEffectiveAddress.spec_code() << 12u16) | ((self.dr as u16) << 9u16) | (
        self.pc_offset9 & 0x1FF)
    }

    pub open spec fn spec_decode(instr: u16) -> LoadEffectiveAddress {
        LoadEffectiveAddress {
            dr: ((instr >> 9u16) & 7) as u8,
            pc_offset9: spec_sign_extend(instr & 0x1FF, 9),
        }
    }

    pub fn encode(&self) -> (r: InstructionSize)
        ensures
            r == self.spec_encode(),
    {
        let instr: u16 = 0;
        let instr: u16 = set_opcode(instr, OpCode::LoadEffectiveAddress);
        let instr: u16 = set_dr(instr, self.dr);
        let instr: u16 = set_pc_offset9(instr, self.pc_offset9);
        proof {
            lemma_or_zero(OpCode::LoadEffectiveAddress.spec_code() << 12u16);
        }
        instr
    }

    pub fn decode(instr: InstructionSize) -> (r: Self)
        ensures
            r == Self::spec_decode(instr),
            r.wf(),
    {
        let dr: u8 = get_dr(instr);
        let pc_offset9: u16 = get_pc_offset9(instr);
        proof {
            lemma_reg_field(instr);
            lemma_sext9_fits(instr);
        }
        LoadEffectiveAddress { dr, pc_offset9 }
    }
}

/// A load through a pointer stored at a PC-relative address.
#[derive(Debug, Copy, Clone, PartialEq, Eq, Structural)]
pub struct LoadIndirect {
    pub dr: RegisterIndex,
    pub pc_offset9: u16,
}

impl LoadIndirect {
    /// The operand fields fit their encoded widths.
    pub open spec fn wf(self) -> bool {
        self.dr < 8 && off9_fits(self.pc_offset9)
    }

    pub open spec fn spec_encode(self) -> u16 {
        (OpCode::LoadIndirect.spec_code() << 12u16) | ((self.dr as u16) << 9u16) | (self.pc_offset9
            & 0x1FF)
    }

    pub open spec fn spec_decode(instr: u16) -> LoadIndirect {
        LoadIndirect {
            dr: ((instr >> 9u16) & 7) as u8,
            pc_offset9: spec_sign_extend(instr & 0x1FF, 9),
        }
    }

    pub fn encode(&self) -> (r: InstructionSize)
        ensures
            r == self.spec_encode(),
    {
        let instr: u16 = 0;
        let instr: u16 = set_opcode(instr, OpCode::LoadIndirect);
        let instr: u16 = set_dr(instr, self.dr);
        let instr: u16 = set_pc_offset9(instr, self.pc_offset9);
        proof {
            lemma_or_zero(OpCode::LoadIndirect.spec_code() << 12u16);
        }
        instr
    }

    pub fn decode(instr: InstructionSize) -> (r: Self)
        ensures
            r == Self::spec_decode(instr),
            r.wf(),
    {
        let dr: u8 = get_dr(instr);
        let pc_offset9: u16 = get_pc_offset9(instr);
        proof {
            lemma_reg_field(instr);
            lemma_sext9_fits(instr);
        }
        LoadIndirect { dr, pc_offset9 }
    }
}

/// A bitwise complement of one register.
#[derive(Debug, Copy, Clone, PartialEq, Eq, Structural)]
pub struct Not {
    pub dr: RegisterIndex,
    pub sr1: RegisterIndex,
}

impl Not {
    /// The operand fields fit their encoded widths.
    pub open spec fn wf(self) -> bool {
        self.dr < 8 && self.sr1 < 8
    }

    pub open spec fn spec_encode(self) -> u16 {
        (OpCode::Not.spec_code() << 12u16) | ((self.dr as u16) << 9u16) | ((self.sr1 as u16)
            << 6u16) | 0x1F
    }

    pub open spec fn spec_decode(instr: u16) -> Not {
        Not { dr: ((instr >> 9u16) & 7) as u8, sr1: ((instr >> 6u16) & 7) as u8 }
    }

    pub fn encode(&self) -> (r: u16)
        ensures
            r == self.spec_encode(),
    {
        let instr: u16 = 0;
        let instr: u16 = set_opcode(instr, OpCode::Not);
        let instr: u16 = set_dr(instr, self.dr);
        let instr: u16 = set_sr1(instr, self.sr1);
        let instr: u16 = instr | 0x1F;
        proof {
            lemma_or_zero(OpCode::Not.spec_code() << 12u16);
        }
        instr
    }

    pub fn decode(instr: u16) -> (r: Self)
        ensures
            r == Self::spec_decode(instr),
            r.wf(),
    {
        let dr: u8 = get_dr(instr);
        let sr1: u8 = get_sr1(instr);
        proof {
            lemma_reg_field(instr);
        }
        Not { dr, sr1 }
    }
}

/// A store of a register to a PC-relative address.
#[derive(Debug, Copy, Clone, PartialEq, Eq, Structural)]
pub struct Store {
    pub sr: RegisterIndex,
    pub pc_offset9: u16,
}

impl Store {
    /// The operand fields fit their encoded widths.
    pub open spec fn wf(self) -> bool {
        self.sr < 8 && off9_fits(self.pc_offset9)
    }

    pub open spec fn spec_encode(self) -> u16 {
        (OpCode::Store.spec_code() << 12u16) | ((self.sr as u16) << 9u16) | (self.pc_offset9
            & 0x1FF)
    }

    pub open spec fn spec_decode(instr: u16) -> Store {
        Store {
            sr: ((instr >> 9u16) & 7) as u8,
            pc_offset9: spec_sign_extend(instr & 0x1FF, 9),
        }
    }

    pub fn encode(&self) -> (r: InstructionSize)
        ensures
            r == self.spec_encode(),
    {
        let instr: u16 = 0;
        let instr: u16 = set_opcode(instr, OpCode::Store);
        let instr: u16 = set_sr(instr, self.sr);
        let instr: u16 = set_pc_offset9(instr, self.pc_offset9);
        proof {
            lemma_or_zero(OpCode::Store.spec_code() << 12u16);
        }
        instr
    }

    pub fn decode(instr: InstructionSize) -> (r: Self)
        ensures
            r == Self::spec_decode(instr),
            r.wf(),
    {
        let sr: u8 = get_sr(instr);
        let pc_offset9: u16 = get_pc_offset9(instr);
        proof {
            lemma_reg_field(instr);
            lemma_sext9_fits(instr);
        }
        Store { sr, pc_offset9 }
    }
}

/// A store to the address in a base register plus a 6-bit offset.
#[derive(Debug, Copy, Clone, PartialEq, Eq, Structural)]
pub struct StoreBaseOffset {
    pub sr: RegisterIndex,
    pub base_r: RegisterIndex,
    pub pc_offset6: u16,
}

impl StoreBaseOffset {
    /// The operand fields fit their encoded widths.
    pub open spec fn wf(self) -> bool {
        self.sr < 8 && self.base_r < 8 && off6_fits(self.pc_offset6)
    }

    pub open spec fn spec_encode(self) -> u16 {
        (OpCode::StoreBaseOffset.spec_code() << 12u16) | ((self.sr as u16) << 9u16) | ((self.base_r
            as u16) << 6u16) | (self.pc_offset6 & 0x3F)
    }

    pub open spec fn spec_decode(instr: u16) -> StoreBaseOffset {
        StoreBaseOffset {
            sr: ((instr >> 9u16) & 7) as u8,
            base_r: ((instr >> 6u16) & 7) as u8,
            pc_offset6: spec_sign_extend(instr & 0x3F, 6),
        }
    }

    pub fn encode(&self) -> (r: InstructionSize)
        ensures
            r == self.spec_encode(),
    {
        let instr: u16 = 0;
        let instr: u16 = set_opcode(instr, OpCode::StoreBaseOffset);
        let instr: u16 = set_sr(instr, self.sr);
        let instr: u16 = set_base_r(instr, self.base_r);
        let instr: u16 = set_pc_offset6(instr, self.pc_offset6);
        proof {
            lemma_or_zero(OpCode::StoreBaseOffset.spec_code() << 12u16);
        }
        instr
    }

    pub fn decode(instr: InstructionSize) -> (r: Self)
        ensures
            r == Self::spec_decode(instr),
            r.wf(),
    {
        let sr: u8 = get_sr(instr);
        let base_r: u8 = get_base_r(instr);
        let pc_offset6: u16 = get_pc_offset6(instr);
        proof {
            lemma_reg_field(instr);
            lemma_sext6_fits(instr);
        }
        StoreBaseOffset { base_r, sr, pc_offset6 }
    }
}

/// A store through a pointer stored at a PC-relative address.
#[derive(Debug, Copy, Clone, PartialEq, Eq, Structural)]
pub struct StoreIndirect {
    pub sr: RegisterIndex,
    pub pc_offset9: u16,
}

impl StoreIndirect {
    /// The operand fields fit their encoded widths.
    pub open spec fn wf(self) -> bool {
        self.sr < 8 && off9_fits(self.pc_offset9)
    }

    pub open spec fn spec_encode(self) -> u16 {
        (OpCode::StoreIndirect.spec_code() << 12u16) | ((self.sr as u16) << 9u16) | (
        self.pc_offset9 & 0x1FF)
    }

    pub open spec fn spec_decode(instr: u16) -> StoreIndirect {
        StoreIndirect {
            sr: ((instr >> 9u16) & 7) as u8,
            pc_offset9: spec_sign_extend(instr & 0x1FF, 9),
        }
    }

    pub fn encode(&self) -> (r: InstructionSize)
        ensures
            r == self.spec_encode(),
    {
        let instr: u16 = 0;
        let instr: u16 = set_opcode(instr, OpCode::StoreIndirect);
        let instr: u16 = set_sr(instr, self.sr);
        let instr: u16 = set_pc_offset9(instr, self.pc_offset9);
        proof {
            lemma_or_zero(OpCode::StoreIndirect.spec_code() << 12u16);
        }
        instr
    }

    pub fn decode(instr: InstructionSize) -> (r: Self)
        ensures
            r == Self::spec_decode(instr),
            r.wf(),
    {
        let sr: u8 = get_sr(instr);
        let pc_offset9: u16 = get_pc_offset9(instr);
        proof {
            lemma_reg_field(instr);
            lemma_sext9_fits(instr);
        }
        StoreIndirect { sr, pc_offset9 }
    }
}

/// The six console services a trap word may name.
#[derive(Debug, Copy, Clone, PartialEq, Eq, Structural)]
pub enum TrapCode {
    GetC,
    Out,
    Puts,
    In,
    PutsP,
    Halt,
}

impl TrapCode {
    /// The vector byte that names this service in an encoded word.
    pub open spec fn spec_bits(self) -> u8 {
        match self {
            TrapCode::GetC => 0x20,
            TrapCode::Out => 0x21,
            TrapCode::Puts => 0x22,
            TrapCode::In => 0x23,
            TrapCode::PutsP => 0x24,
            TrapCode::Halt => 0x25,
        }
    }

    /// The service named by a vector byte.
    pub open spec fn spec_from_bits(bits: u8) -> TrapCode {
        if bits == 0x20 {
            TrapCode::GetC
        } else if bits == 0x21 {
            TrapCode::Out
        } else if bits == 0x22 {
            TrapCode::Puts
        } else if bits == 0x23 {
            TrapCode::In
        } else if bits == 0x24 {
            TrapCode::PutsP
        } else {
            TrapCode::Halt
        }
    }

    fn to_bits(&self) -> (r: u8)
        ensures
            r == self.spec_bits(),
    {
        match self {
            TrapCode::GetC => 0x20,
            TrapCode::Out => 0x21,
            TrapCode::Puts => 0x22,
            TrapCode::In => 0x23,
            TrapCode::PutsP => 0x24,
            TrapCode::Halt => 0x25,
        }
    }

    /// Reads a vector byte back as a service. Bytes outside the six known
    /// codes name no service and are left out.
    pub fn from_bits(bits: u8) -> (r: Self)
        requires
            0x20 <= bits <= 0x25,
        ensures
            r == Self::spec_from_bits(bits),
    {
        match bits {
            0x20 => TrapCode::GetC,
            0x21 => TrapCode::Out,
            0x22 => TrapCode::Puts,
            0x23 => TrapCode::In,
            0x24 => TrapCode::PutsP,
            0x25 => TrapCode::Halt,
            _ => {
                proof {
                    assert(false);
                }
                TrapCode::Halt
            },
        }
    }
}

fn get_trap_vect8(instr: InstructionSize) -> (r: TrapCode)
    requires
        0x20 <= (instr & 0xFF) <= 0x25,
    ensures
        r == TrapCode::spec_from_bits((instr & 0xFF) as u8),
{
    proof {
        lemma_low_byte(instr);
    }
    let vect8: u8 = (instr & 0xFF) as u8;
    TrapCode::from_bits(vect8)
}

fn set_trap_vect8(instr: InstructionSize, trap_code: TrapCode) -> (r: InstructionSize)
    ensures
        r == instr | (trap_code.spec_bits() as u16),
{
    instr | (trap_code.to_bits() as u16)
}

/// A call into one of the six console services.
#[derive(Debug, Copy, Clone, PartialEq, Eq, Structural)]
pub struct Trap {
    pub vect8: TrapCode,
}

impl Trap {
    /// Every trap value is well-formed: the code is one of the six services.
    pub open spec fn wf(self) -> bool {
        true
    }

    pub open spec fn spec_encode(self) -> u16 {
        (OpCode::Trap.spec_code() << 12u16) | (self.vect8.spec_bits() as u16)
    }

    pub open spec fn spec_decode(instr: u16) -> Trap {
        Trap { vect8: TrapCode::spec_from_bits((instr & 0xFF) as u8) }
    }

    pub fn encode(&self) -> (r: u16)
        ensures
            r == self.spec_encode(),
    {
        let instr: u16 = 0;
        let instr: u16 = set_opcode(instr, OpCode::Trap);
        let instr: u16 = set_trap_vect8(instr, self.vect8);
        proof {
            lemma_or_zero(OpCode::Trap.spec_code() << 12u16);
        }
        instr
    }

    pub fn decode(instr: u16) -> (r: Self)
        requires
            0x20 <= (instr & 0xFF) <= 0x25,
        ensures
            r == Self::spec_decode(instr),
            r.wf(),
    {
        let vect8: TrapCode = get_trap_vect8(instr);
        Trap { vect8 }
    }
}

/// The closed set of instructions the machine understands.
#[derive(Debug, Copy, Clone, PartialEq, Eq, Structural)]
pub enum Instruction {
    AddImmediate(AddImmediate),
    AddRegister(AddRegister),
    AndImmediate(AndImmediate),
    AndRegister(AndRegister),
    Branch(Branch),
    Jump(Jump),
    JumpSubRoutineOffset(JumpSubRoutineOffset),
    JumpSubRoutineRegister(JumpSubRoutineRegister),
    Load(Load),
    LoadBaseOffset(LoadBaseOffset),
    LoadEffectiveAddress(LoadEffectiveAddress),
    LoadIndirect(LoadIndirect),
    Not(Not),
    Store(Store),
    StoreBaseOffset(StoreBaseOffset),
    StoreIndirect(StoreIndirect),
    Trap(Trap),
}

impl Instruction {
    /// The operand fields of the carried variant fit their encoded widths.
    pub open spec fn wf(self) -> bool {
        match self {
            Instruction::AddImmediate(i) => i.wf(),
            Instruction::AddRegister(i) => i.wf(),
            Instruction::AndImmediate(i) => i.wf(),
            Instruction::AndRegister(i) => i.wf(),
            Instruction::Branch(i) => i.wf(),
            Instruction::Jump(i) => i.wf(),
            Instruction::JumpSubRoutineOffset(i) => i.wf(),
            Instruction::JumpSubRoutineRegister(i) => i.wf(),
            Instruction::Load(i) => i.wf(),
            Instruction::LoadBaseOffset(i) => i.wf(),
            Instruction::LoadEffectiveAddress(i) => i.wf(),
            Instruction::LoadIndirect(i) => i.wf(),
            Instruction::Not(i) => i.wf(),
            Instruction::Store(i) => i.wf(),
            Instruction::StoreBaseOffset(i) => i.wf(),
            Instruction::StoreIndirect(i) => i.wf(),
            Instruction::Trap(i) => i.wf(),
        }
    }

    /// The word an instruction encodes to.
    pub open spec fn spec_encode(self) -> u16 {
        match self {
            Instruction::AddImmediate(i) => i.spec_encode(),
            Instruction::AddRegister(i) => i.spec_encode(),
            Instruction::AndImmediate(i) => i.spec_encode(),
            Instruction::AndRegister(i) => i.spec_encode(),
            Instruction::Branch(i) => i.spec_encode(),
            Instruction::Jump(i) => i.spec_encode(),
            Instruction::JumpSubRoutineOffset(i) => i.spec_encode(),
            Instruction::JumpSubRoutineRegister(i) => i.spec_encode(),
            Instruction::Load(i) => i.spec_encode(),
            Instruction::LoadBaseOffset(i) => i.spec_encode(),
            Instruction::LoadEffectiveAddress(i) => i.spec_encode(),
            Instruction::LoadIndirect(i) => i.spec_encode(),
            Instruction::Not(i) => i.spec_encode(),
            Instruction::Store(i) => i.spec_encode(),
            Instruction::StoreBaseOffset(i) => i.spec_encode(),
            Instruction::StoreIndirect(i) => i.spec_encode(),
            Instruction::Trap(i) => i.spec_encode(),
        }
    }

    /// What a word decodes to: the instruction it spells, or the reason it
    /// spells none. Exactly the words whose opcode field is 8 or 13 fail with
    /// `UnrecognizedOpcode`, and exactly the trap words whose vector byte
    /// names no service fail with `UnrecognizedTrapCode`.
    pub open spec fn spec_decode(w: u16) -> Result<Instruction, DecodeError> {
        let op = w >> 12u16;
        if op == 0 {
            Result::Ok(Instruction::Branch(Branch::spec_decode(w)))
        } else if op == 1 {
            if (w >> 5u16) & 1 == 1 {
                Result::Ok(Instruction::AddImmediate(AddImmediate::spec_decode(w)))
            } else {
                Result::Ok(Instruction::AddRegister(AddRegister::spec_decode(w)))
            }
        } else if op == 2 {
            Result::Ok(Instruction::Load(Load::spec_decode(w)))
        } else if op == 3 {
            Result::Ok(Instruction::Store(Store::spec_decode(w)))
        } else if op == 4 {
            if (w >> 11u16) & 1 == 1 {
                Result::Ok(Instruction::JumpSubRoutineOffset(JumpSubRoutineOffset::spec_decode(w)))
            } else {
                Result::Ok(
                    Instruction::JumpSubRoutineRegister(JumpSubRoutineRegister::spec_decode(w)),
                )
            }
        } else if op == 5 {
            if (w >> 5u16) & 1 == 1 {
                Result::Ok(Instruction::AndImmediate(AndImmediate::spec_decode(w)))
            } else {
                Result::Ok(Instruction::AndRegister(AndRegister::spec_decode(w)))
            }
        } else if op == 6 {
            Result::Ok(Instruction::LoadBaseOffset(LoadBaseOffset::spec_decode(w)))
        } else if op == 7 {
            Result::Ok(Instruction::StoreBaseOffset(StoreBaseOffset::spec_decode(w)))
        } else if op == 9 {
            Result::Ok(Instruction::Not(Not::spec_decode(w)))
        } else if op == 10 {
            Result::Ok(Instruction::LoadIndirect(LoadIndirect::spec_decode(w)))
        } else if op == 11 {
            Result::Ok(Instruction::StoreIndirect(StoreIndirect::spec_decode(w)))
        } else if op == 12 {
            Result::Ok(Instruction::Jump(Jump::spec_decode(w)))
        } else if op == 14 {
            Result::Ok(Instruction::LoadEffectiveAddress(LoadEffectiveAddress::spec_decode(w)))
        } else if op == 15 {
            if 0x20 <= (w & 0xFF) <= 0x25 {
                Result::Ok(Instruction::Trap(Trap::spec_decode(w)))
            } else {
                Result::Err(DecodeError::UnrecognizedTrapCode)
            }
        } else {
            Result::Err(DecodeError::UnrecognizedOpcode)
        }
    }

    /// Reads a word back as an instruction, or reports why it is not one.
    pub fn decode(instr: InstructionSize) -> (r: Result<Self, DecodeError>)
        ensures
            r == Self::spec_decode(instr),
            r matches Result::Ok(i) ==> i.wf(),
    {
        let opcode: u16 = get_opcode(instr);
        if opcode == 8 || opcode == 13 {
            return Err(DecodeError::UnrecognizedOpcode);
        }
        match OpCode::from_instruction(instr) {
            OpCode::Add => {
                let mode_flag: u16 = get_immediate_mode(instr);
                if mode_flag == 1 {
                    Ok(Instruction::AddImmediate(AddImmediate::decode(instr)))
                } else {
                    Ok(Instruction::AddRegister(AddRegister::decode(instr)))
                }
            },
            OpCode::And => {
                let mode_flag: u16 = get_immediate_mode(instr);
                if mode_flag == 1 {
                    Ok(Instruction::AndImmediate(AndImmediate::decode(instr)))
                } else {
                    Ok(Instruction::AndRegister(AndRegister::decode(instr)))
                }
            },
            OpCode::Branch => Ok(Instruction::Branch(Branch::decode(instr))),
            OpCode::Jump => Ok(Instruction::Jump(Jump::decode(instr))),
            OpCode::JumpSubRoutine => {
                let offset_mode: u16 = get_pc_offset_mode(instr);
                if offset_mode == 1 {
                    Ok(Instruction::JumpSubRoutineOffset(JumpSubRoutineOffset::decode(instr)))
                } else {
                    Ok(Instruction::JumpSubRoutineRegister(JumpSubRoutineRegister::decode(instr)))
                }
            },
            OpCode::Load => Ok(Instruction::Load(Load::decode(instr))),
            OpCode::LoadBaseOffset => Ok(Instruction::LoadBaseOffset(LoadBaseOffset::decode(instr))),
            OpCode::LoadEffectiveAddress => Ok(
                Instruction::LoadEffectiveAddress(LoadEffectiveAddress::decode(instr)),
            ),
            OpCode::LoadIndirect => Ok(Instruction::LoadIndirect(LoadIndirect::decode(instr))),
            OpCode::Not => Ok(Instruction::Not(Not::decode(instr))),
            OpCode::Store => Ok(Instruction::Store(Store::decode(instr))),
            OpCode::StoreBaseOffset => Ok(
                Instruction::StoreBaseOffset(StoreBaseOffset::decode(instr)),
            ),
            OpCode::StoreIndirect => Ok(Instruction::StoreIndirect(StoreIndirect::decode(instr))),
            OpCode::Trap => {
                proof {
                    lemma_low_byte(instr);
                }
                let vect: u16 = instr & 0xFF;
                if 0x20 <= vect && vect <= 0x25 {
                    Ok(Instruction::Trap(Trap::decode(instr)))
                } else {
                    Err(DecodeError::UnrecognizedTrapCode)
                }
            },
            OpCode::Unused => {
                proof {
                    assert(false);
                }
                Err(DecodeError::UnrecognizedOpcode)
            },
            OpCode::Reserved => {
                proof {
                    assert(false);
                }
                Err(DecodeError::UnrecognizedOpcode)
            },
        }
    }

    /// Writes an instruction out as the word it stands for.
    pub fn encode(&self) -> (r: InstructionSize)
        ensures
            r == self.spec_encode(),
    {
        match self {
            Self::AddImmediate(instr) => instr.encode(),
            Self::AddRegister(instr) => instr.encode(),
            Self::AndImmediate(instr) => instr.encode(),
            Self::AndRegister(instr) => instr.encode(),
            Self::Branch(instr) => instr.encode(),
            Self::Jump(instr) => instr.encode(),
            Self::JumpSubRoutineOffset(instr) => instr.encode(),
            Self::JumpSubRoutineRegister(instr) => instr.encode(),
            Self::Load(instr) => instr.encode(),
            Self::LoadBaseOffset(instr) => instr.encode(),
            Self::LoadEffectiveAddress(instr) => instr.encode(),
            Self::LoadIndirect(instr) => instr.encode(),
            Self::Not(instr) => instr.encode(),
            Self::Store(instr) => instr.encode(),
            Self::StoreBaseOffset(instr) => instr.encode(),
            Self::StoreIndirect(instr) => instr.encode(),
            Self::Trap(instr) => instr.encode(),
        }
    }
}

proof fn lemma_rt_reg_imm(w: u16, op: u16, d: u8, s: u8, m: u16)
    by (bit_vector)
    requires
        op < 16,
        d < 8,
        s < 8,
        m == spec_sign_extend(m & 0x1F, 5),
        w == (op << 12u16) | ((d as u16) << 9u16) | ((s as u16) << 6u16) | (m & 0x1F) | 0x20,
    ensures
        w >> 12u16 == op,
        (w >> 5u16) & 1 == 1,
        ((w >> 9u16) & 7) as u8 == d,
        ((w >> 6u16) & 7) as u8 == s,
        spec_sign_extend(w & 0x1F, 5) == m,
{
}

proof fn lemma_rt_reg_reg(w: u16, op: u16, d: u8, s1: u8, s2: u8)
    by (bit_vector)
    requires
        op < 16,
        d < 8,
        s1 < 8,
        s2 < 8,
        w == (op << 12u16) | ((d as u16) << 9u16) | ((s1 as u16) << 6u16) | (s2 as u16),
    ensures
        w >> 12u16 == op,
        (w >> 5u16) & 1 == 0,
        ((w >> 9u16) & 7) as u8 == d,
        ((w >> 6u16) & 7) as u8 == s1,
        (w & 7) as u8 == s2,
{
}

proof fn lemma_rt_reg_off9(w: u16, op: u16, d: u8, off: u16)
    by (bit_vector)
    requires
        op < 16,
        d < 8,
        off == spec_sign_extend(off & 0x1FF, 9),
        w == (op << 12u16) | ((d as u16) << 9u16) | (off & 0x1FF),
    ensures
        w >> 12u16 == op,
        ((w >> 9u16) & 7) as u8 == d,
        spec_sign_extend(w & 0x1FF, 9) == off,
{
}

proof fn lemma_rt_base_off6(w: u16, op: u16, d: u8, b: u8, off: u16)
    by (bit_vector)
    requires
        op < 16,
        d < 8,
        b < 8,
        off == spec_sign_extend(off & 0x3F, 6),
        w == (op << 12u16) | ((d as u16) << 9u16) | ((b as u16) << 6u16) | (off & 0x3F),
    ensures
        w >> 12u16 == op,
        ((w >> 9u16) & 7) as u8 == d,
        ((w >> 6u16) & 7) as u8 == b,
        spec_sign_extend(w & 0x3F, 6) == off,
{
}

proof fn lemma_rt_base_only(w: u16, op: u16, b: u8)
    by (bit_vector)
    requires
        op < 16,
        b < 8,
        w == (op << 12u16) | ((b as u16) << 6u16),
    ensures
        w >> 12u16 == op,
        (w >> 11u16) & 1 == 0,
        ((w >> 6u16) & 7) as u8 == b,
{
}

proof fn lemma_rt_jsr_off(w: u16, off: u16)
    by (bit_vector)
    requires
        off == spec_sign_extend(off & 0x7FF, 11),
        w == (4u16 << 12u16) | (off & 0x7FF) | (1u16 << 11u16),
    ensures
        w >> 12u16 == 4,
        (w >> 11u16) & 1 == 1,
        spec_sign_extend(w & 0x7FF, 11) == off,
{
}

proof fn lemma_rt_not(w: u16, d: u8, s: u8)
    by (bit_vector)
    requires
        d < 8,
        s < 8,
        w == (9u16 << 12u16) | ((d as u16) << 9u16) | ((s as u16) << 6u16) | 0x1F,
    ensures
        w >> 12u16 == 9,
        ((w >> 9u16) & 7) as u8 == d,
        ((w >> 6u16) & 7) as u8 == s,
{
}

proof fn lemma_rt_trap(w: u16, b: u8)
    by (bit_vector)
    requires
        0x20 <= b <= 0x25,
        w == (15u16 << 12u16) | (b as u16),
    ensures
        w >> 12u16 == 15,
        0x20 <= (w & 0xFF) <= 0x25,
        (w & 0xFF) as u8 == b,
{
}

/// Law: decoding an encoded instruction gives the instruction back, for every
/// variant and for every combination of operand fields that fits its widths.
pub proof fn lemma_decode_encode(i: Instruction)
    requires
        i.wf(),
    ensures
        Instruction::spec_decode(i.spec_encode()) == Result::<Instruction, DecodeError>::Ok(i),
{
    match i {
        Instruction::AddImmediate(a) => {
            lemma_rt_reg_imm(i.spec_encode(), 1, a.dr, a.sr1, a.imm5);
        },
        Instruction::AddRegister(a) => {
            lemma_rt_reg_reg(i.spec_encode(), 1, a.dr, a.sr1, a.sr2);
        },
        Instruction::AndImmediate(a) => {
            lemma_rt_reg_imm(i.spec_encode(), 5, a.dr, a.sr1, a.imm5);
        },
        Instruction::AndRegister(a) => {
            lemma_rt_reg_reg(i.spec_encode(), 5, a.dr, a.sr1, a.sr2);
        },
        Instruction::Branch(b) => {
            lemma_rt_reg_off9(i.spec_encode(), 0, b.nzp.bits, b.pc_offset9);
        },
        Instruction::Jump(j) => {
            lemma_rt_base_only(i.spec_encode(), 12, j.base_r);
        },
        Instruction::JumpSubRoutineOffset(j) => {
            lemma_rt_jsr_off(i.spec_encode(), j.pc_offset11);
        },
        Instruction::JumpSubRoutineRegister(j) => {
            lemma_rt_base_only(i.spec_encode(), 4, j.base_r);
        },
        Instruction::Load(l) => {
            lemma_rt_reg_off9(i.spec_encode(), 2, l.dr, l.pc_offset9);
        },
        Instruction::LoadBaseOffset(l) => {
            lemma_rt_base_off6(i.spec_encode(), 6, l.dr, l.base_r, l.pc_offset6);
        },
        Instruction::LoadEffectiveAddress(l) => {
            lemma_rt_reg_off9(i.spec_encode(), 14, l.dr, l.pc_offset9);
        },
        Instruction::LoadIndirect(l) => {
            lemma_rt_reg_off9(i.spec_encode(), 10, l.dr, l.pc_offset9);
        },
        Instruction::Not(n) => {
            lemma_rt_not(i.spec_encode(), n.dr, n.sr1);
        },
        Instruction::Store(s) => {
            lemma_rt_reg_off9(i.spec_encode(), 3, s.sr, s.pc_offset9);
        },
        Instruction::StoreBaseOffset(s) => {
            lemma_rt_base_off6(i.spec_encode(), 7, s.sr, s.base_r, s.pc_offset6);
        },
        Instruction::StoreIndirect(s) => {
            lemma_rt_reg_off9(i.spec_encode(), 11, s.sr, s.pc_offset9);
        },
        Instruction::Trap(t) => {
            lemma_rt_trap(i.spec_encode(), t.vect8.spec_bits());
        },
    }
}

/// A word every bit of which the codec preserves: its opcode and mode bits
/// form a supported instruction, and the bits its instruction leaves unused
/// hold the values encode writes back. Other decodable words still decode,
/// but lossily: re-encoding normalizes their unused bits.
pub open spec fn canonical_word(w: u16) -> bool {
    let op = w >> 12u16;
    if op == 1 || op == 5 {
        // the register forms of add and AND leave bits 3 and 4 unused
        (w >> 5u16) & 1 == 1 || (w >> 3u16) & 3 == 0
    } else if op == 4 {
        // the register form of the subroutine call uses only the base field
        (w >> 11u16) & 1 == 1 || (w & 0x3F == 0 && (w >> 9u16) & 7 == 0)
    } else if op == 12 {
        // jump uses only the base field
        w & 0x3F == 0 && (w >> 9u16) & 7 == 0
    } else if op == 9 {
        // encode forces the unused low bits of NOT to the all-ones pattern
        w & 0x3F == 0x1F
    } else if op == 15 {
        // a trap word names a known service and keeps bits 8 to 11 clear
        (w >> 8u16) & 0xF == 0 && 0x20 <= (w & 0xFF) <= 0x25
    } else if op == 8 || op == 13 {
        false
    } else {
        true
    }
}

proof fn lemma_ed_reg_imm(w: u16, op: u16)
    by (bit_vector)
    requires
        w >> 12u16 == op,
        (w >> 5u16) & 1 == 1,
    ensures
        (op << 12u16) | (((((w >> 9u16) & 7) as u8) as u16) << 9u16) | (((((w >> 6u16) & 7) as u8)
            as u16) << 6u16) | (spec_sign_extend(w & 0x1F, 5) & 0x1F) | 0x20 == w,
{
}

proof fn lemma_ed_reg_reg(w: u16, op: u16)
    by (bit_vector)
    requires
        w >> 12u16 == op,
        (w >> 5u16) & 1 != 1,
        (w >> 3u16) & 3 == 0,
    ensures
        (op << 12u16) | (((((w >> 9u16) & 7) as u8) as u16) << 9u16) | (((((w >> 6u16) & 7) as u8)
            as u16) << 6u16) | (((w & 7) as u8) as u16) == w,
{
}

proof fn lemma_ed_reg_off9(w: u16, op: u16)
    by (bit_vector)
    requires
        w >> 12u16 == op,
    ensures
        (op << 12u16) | (((((w >> 9u16) & 7) as u8) as u16) << 9u16) | (spec_sign_extend(
            w & 0x1FF,
            9,
        ) & 0x1FF) == w,
{
}

proof fn lemma_ed_base_off6(w: u16, op: u16)
    by (bit_vector)
    requires
        w >> 12u16 == op,
    ensures
        (op << 12u16) | (((((w >> 9u16) & 7) as u8) as u16) << 9u16) | (((((w >> 6u16) & 7) as u8)
            as u16) << 6u16) | (spec_sign_extend(w & 0x3F, 6) & 0x3F) == w,
{
}

proof fn lemma_ed_jsr_off(w: u16)
    by (bit_vector)
    requires
        w >> 12u16 == 4,
        (w >> 11u16) & 1 == 1,
    ensures
        (4u16 << 12u16) | (spec_sign_extend(w & 0x7FF, 11) & 0x7FF) | (1u16 << 11u16) == w,
{
}

proof fn lemma_ed_base_only(w: u16, op: u16)
    by (bit_vector)
    requires
        w >> 12u16 == op,
        w & 0x3F == 0,
        (w >> 9u16) & 7 == 0,
    ensures
        (op << 12u16) | (((((w >> 6u16) & 7) as u8) as u16) << 6u16) == w,
{
}

proof fn lemma_ed_not(w: u16)
    by (bit_vector)
    requires
        w >> 12u16 == 9,
        w & 0x3F == 0x1F,
    ensures
        (9u16 << 12u16) | (((((w >> 9u16) & 7) as u8) as u16) << 9u16) | (((((w >> 6u16) & 7)
            as u8) as u16) << 6u16) | 0x1F == w,
{
}

proof fn lemma_ed_trap(w: u16, b: u8)
    by (bit_vector)
    requires
        w >> 12u16 == 15,
        (w >> 8u16) & 0xF == 0,
        b as u16 == w & 0xFF,
    ensures
        (15u16 << 12u16) | (b as u16) == w,
{
}

/// Law: every canonical word decodes, and encoding what it decodes to gives
/// the word back bit for bit.
pub proof fn lemma_encode_decode(w: u16)
    requires
        canonical_word(w),
    ensures
        Instruction::spec_decode(w) matches Result::Ok(i) && i.spec_encode() == w,
{
    let op = w >> 12u16;
    if op == 0 {
        lemma_ed_reg_off9(w, 0);
    } else if op == 1 {
        if (w >> 5u16) & 1 == 1 {
            lemma_ed_reg_imm(w, 1);
        } else {
            lemma_ed_reg_reg(w, 1);
        }
    } else if op == 2 {
        lemma_ed_reg_off9(w, 2);
    } else if op == 3 {
        lemma_ed_reg_off9(w, 3);
    } else if op == 4 {
        if (w >> 11u16) & 1 == 1 {
            lemma_ed_jsr_off(w);
        } else {
            lemma_ed_base_only(w, 4);
        }
    } else if op == 5 {
        if (w >> 5u16) & 1 == 1 {
            lemma_ed_reg_imm(w, 5);
        } else {
            lemma_ed_reg_reg(w, 5);
        }
    } else if op == 6 {
        lemma_ed_base_off6(w, 6);
    } else if op == 7 {
        lemma_ed_base_off6(w, 7);
    } else if op == 9 {
        lemma_ed_not(w);
    } else if op == 10 {
        lemma_ed_reg_off9(w, 10);
    } else if op == 11 {
        lemma_ed_reg_off9(w, 11);
    } else if op == 12 {
        lemma_ed_base_only(w, 12);
    } else if op == 14 {
        lemma_ed_reg_off9(w, 14);
    } else if op == 15 {
        lemma_low_byte(w);
        let b = (w & 0xFF) as u8;
        let t = TrapCode::spec_from_bits(b);
        assert(t.spec_bits() == b);
        lemma_ed_trap(w, b);
    } else {
        lemma_opcode_bound(w);
        assert(false);
    }
}

/// Law: sign extension keeps every bit of the field and copies the field's
/// top bit into every higher bit of the word. The low `len` bits of the
/// result are `val` itself; the bits above them are all ones exactly when the
/// field's top bit is one, and all zeros otherwise. In particular the
/// all-ones five-bit field widens to the all-ones word (minus one), and a
/// five-bit one widens to one.
pub proof fn lemma_sign_extension(val: u16, len: u16)
    by (bit_vector)
    requires
        1 <= len <= 15,
        val < (1u16 << len),
    ensures
        spec_sign_extend(val, len) % (1u16 << len) == val,
        (val >> ((len - 1) as u16)) & 1 == 1 ==> spec_sign_extend(val, len) >> len == 0xFFFFu16
            >> len,
        (val >> ((len - 1) as u16)) & 1 == 0 ==> spec_sign_extend(val, len) >> len == 0,
        spec_sign_extend(0x1F, 5) == 0xFFFF,
        spec_sign_extend(0x01, 5) == 1,
{
}

/// Law: a word whose opcode field names one of the two unassigned families
/// never decodes, and the failure is `UnrecognizedOpcode`.
pub proof fn lemma_unused_opcode_rejected(w: u16)
    requires
        w >> 12u16 == 8 || w >> 12u16 == 13,
    ensures
        Instruction::spec_decode(w) == Result::<Instruction, DecodeError>::Err(
            DecodeError::UnrecognizedOpcode,
        ),
{
}

} // verus!
