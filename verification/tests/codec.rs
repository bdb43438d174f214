use lilc3::instruction::{
    AddImmediate, AddRegister, AndImmediate, AndRegister, Branch, DecodeError, Instruction, Jump,
    JumpSubRoutineOffset, JumpSubRoutineRegister, Load, LoadBaseOffset, LoadEffectiveAddress,
    LoadIndirect, Not, OpCode, Store, StoreBaseOffset, StoreIndirect, Trap, TrapCode,
};
use lilc3::CondFlag;

fn round_trips(i: Instruction) {
    let word: u16 = i.encode();
    assert_eq!(Instruction::decode(word), Ok(i));
}

#[test]
fn round_trip_every_variant() {
    round_trips(Instruction::AddImmediate(AddImmediate { dr: 1, sr1: 2, imm5: 6 }));
    round_trips(Instruction::AddImmediate(AddImmediate { dr: 7, sr1: 0, imm5: 0xFFF0 }));
    round_trips(Instruction::AddRegister(AddRegister { dr: 1, sr1: 2, sr2: 3 }));
    round_trips(Instruction::AndImmediate(AndImmediate { dr: 3, sr1: 4, imm5: 0xFFFF }));
    round_trips(Instruction::AndRegister(AndRegister { dr: 5, sr1: 6, sr2: 7 }));
    round_trips(Instruction::Branch(Branch { nzp: CondFlag::positive(), pc_offset9: 10 }));
    round_trips(Instruction::Branch(Branch {
        nzp: CondFlag { bits: 0b111 },
        pc_offset9: 0xFF00,
    }));
    round_trips(Instruction::Jump(Jump { base_r: 4 }));
    round_trips(Instruction::JumpSubRoutineOffset(JumpSubRoutineOffset { pc_offset11: 10 }));
    round_trips(Instruction::JumpSubRoutineOffset(JumpSubRoutineOffset { pc_offset11: 0xFC00 }));
    round_trips(Instruction::JumpSubRoutineRegister(JumpSubRoutineRegister { base_r: 6 }));
    round_trips(Instruction::Load(Load { dr: 2, pc_offset9: 0x00FF }));
    round_trips(Instruction::Load(Load { dr: 2, pc_offset9: 0xFFFF }));
    round_trips(Instruction::LoadBaseOffset(LoadBaseOffset { dr: 1, base_r: 2, pc_offset6: 3 }));
    round_trips(Instruction::LoadBaseOffset(LoadBaseOffset {
        dr: 1,
        base_r: 2,
        pc_offset6: 0xFFE0,
    }));
    round_trips(Instruction::LoadEffectiveAddress(LoadEffectiveAddress {
        dr: 3,
        pc_offset9: 100,
    }));
    round_trips(Instruction::LoadIndirect(LoadIndirect { dr: 4, pc_offset9: 0xFFFE }));
    round_trips(Instruction::Not(Not { dr: 5, sr1: 6 }));
    round_trips(Instruction::Store(Store { sr: 1, pc_offset9: 10 }));
    round_trips(Instruction::StoreBaseOffset(StoreBaseOffset {
        sr: 2,
        base_r: 3,
        pc_offset6: 0x1F,
    }));
    round_trips(Instruction::StoreIndirect(StoreIndirect { sr: 4, pc_offset9: 0xFF80 }));
    round_trips(Instruction::Trap(Trap { vect8: TrapCode::GetC }));
    round_trips(Instruction::Trap(Trap { vect8: TrapCode::Out }));
    round_trips(Instruction::Trap(Trap { vect8: TrapCode::Puts }));
    round_trips(Instruction::Trap(Trap { vect8: TrapCode::In }));
    round_trips(Instruction::Trap(Trap { vect8: TrapCode::PutsP }));
    round_trips(Instruction::Trap(Trap { vect8: TrapCode::Halt }));
}

#[test]
fn sign_extension_five_bits() {
    // A 5-bit immediate of all ones is minus one; a 5-bit immediate of one is one.
    let all_ones: u16 = Instruction::AddImmediate(AddImmediate { dr: 0, sr1: 0, imm5: 0x1F })
        .encode();
    let one: u16 = Instruction::AddImmediate(AddImmediate { dr: 0, sr1: 0, imm5: 0x01 }).encode();
    assert_eq!(AddImmediate::decode(all_ones).imm5, 0xFFFF);
    assert_eq!(AddImmediate::decode(one).imm5, 1);
}

#[test]
fn sign_extension_offsets() {
    let b: u16 = Instruction::Branch(Branch { nzp: CondFlag::zero(), pc_offset9: 0x100 }).encode();
    assert_eq!(Branch::decode(b).pc_offset9, 0xFF00);
    let j: u16 = Instruction::JumpSubRoutineOffset(JumpSubRoutineOffset { pc_offset11: 0x400 })
        .encode();
    assert_eq!(JumpSubRoutineOffset::decode(j).pc_offset11, 0xFC00);
    let l: u16 = Instruction::LoadBaseOffset(LoadBaseOffset { dr: 0, base_r: 0, pc_offset6: 0x20 })
        .encode();
    assert_eq!(LoadBaseOffset::decode(l).pc_offset6, 0xFFE0);
}

#[test]
fn encoded_words_are_exact() {
    assert_eq!(
        Instruction::AddRegister(AddRegister { dr: 1, sr1: 2, sr2: 3 }).encode(),
        0x1283
    );
    assert_eq!(
        Instruction::AddImmediate(AddImmediate { dr: 1, sr1: 2, imm5: 6 }).encode(),
        0x12A6
    );
    assert_eq!(Instruction::Not(Not { dr: 1, sr1: 2 }).encode(), 0x929F);
    assert_eq!(Instruction::Trap(Trap { vect8: TrapCode::Halt }).encode(), 0xF025);
    assert_eq!(
        Instruction::JumpSubRoutineOffset(JumpSubRoutineOffset { pc_offset11: 10 }).encode(),
        0x480A
    );
    assert_eq!(
        Instruction::JumpSubRoutineRegister(JumpSubRoutineRegister { base_r: 1 }).encode(),
        0x4040
    );
}

#[test]
fn canonical_words_encode_back() {
    for &word in &[
        0x1283u16, // add, register form
        0x12A6,    // add, immediate form
        0x0E0A,    // branch on any flag
        0x480A,    // subroutine call by offset
        0x4040,    // subroutine call through a register
        0xC0C0,    // jump
        0x929F,    // NOT with its unused bits in encoded form
        0x3E10,    // store
        0x6642,    // load base plus offset
        0xF025,    // halt trap
    ] {
        let decoded = Instruction::decode(word).unwrap();
        assert_eq!(decoded.encode(), word);
    }
}

#[test]
fn unused_bits_are_normalized_on_reencode() {
    // NOT ignores its low bits on decode; encode writes the all-ones form.
    let sloppy: u16 = 0x9285;
    let decoded = Instruction::decode(sloppy).unwrap();
    assert_eq!(decoded, Instruction::Not(Not { dr: 1, sr1: 2 }));
    assert_eq!(decoded.encode(), 0x929F);
}

#[test]
fn unused_opcode_is_rejected() {
    // Opcode 8 sits at the top of the word: any such word fails to decode.
    assert_eq!(
        Instruction::decode(0x8000),
        Err(DecodeError::UnrecognizedOpcode)
    );
    assert_eq!(
        Instruction::decode(0x8123),
        Err(DecodeError::UnrecognizedOpcode)
    );
}

#[test]
fn reserved_opcode_is_rejected() {
    assert_eq!(
        Instruction::decode(0xD000),
        Err(DecodeError::UnrecognizedOpcode)
    );
    assert_eq!(
        Instruction::decode(0xDFFF),
        Err(DecodeError::UnrecognizedOpcode)
    );
}

#[test]
fn unknown_trap_vector_is_rejected() {
    assert_eq!(
        Instruction::decode(0xF000),
        Err(DecodeError::UnrecognizedTrapCode)
    );
    assert_eq!(
        Instruction::decode(0xF026),
        Err(DecodeError::UnrecognizedTrapCode)
    );
    assert_eq!(
        Instruction::decode(0xF0FF),
        Err(DecodeError::UnrecognizedTrapCode)
    );
}

#[test]
fn every_assigned_opcode_decodes() {
    for op in 0u16..16u16 {
        let word: u16 = op << 12;
        let decoded = Instruction::decode(word);
        if op == 8 || op == 13 {
            assert_eq!(decoded, Err(DecodeError::UnrecognizedOpcode));
        } else if op == 15 {
            // A zero vector byte names no trap service.
            assert_eq!(decoded, Err(DecodeError::UnrecognizedTrapCode));
        } else {
            assert!(decoded.is_ok());
        }
    }
}

#[test]
fn opcode_alignment() {
    assert_eq!(OpCode::Add.align_instruction(), 0x1000);
    assert_eq!(OpCode::Trap.align_instruction(), 0xF000);
    assert_eq!(OpCode::Branch.align_instruction(), 0x0000);
}

#[test]
fn opcode_from_instruction() {
    assert_eq!(OpCode::from_instruction(0x1283), OpCode::Add);
    assert_eq!(OpCode::from_instruction(0xF025), OpCode::Trap);
    assert_eq!(OpCode::from_instruction(0x0000), OpCode::Branch);
}

#[test]
fn trap_code_from_bits() {
    assert_eq!(TrapCode::from_bits(0x20), TrapCode::GetC);
    assert_eq!(TrapCode::from_bits(0x21), TrapCode::Out);
    assert_eq!(TrapCode::from_bits(0x22), TrapCode::Puts);
    assert_eq!(TrapCode::from_bits(0x23), TrapCode::In);
    assert_eq!(TrapCode::from_bits(0x24), TrapCode::PutsP);
    assert_eq!(TrapCode::from_bits(0x25), TrapCode::Halt);
}

#[test]
fn cond_flag_masks() {
    assert_eq!(CondFlag::positive().bits(), 1);
    assert_eq!(CondFlag::negative().bits(), 2);
    assert_eq!(CondFlag::zero().bits(), 4);
    assert_eq!(CondFlag::from_bits(0b101), Some(CondFlag { bits: 0b101 }));
    assert_eq!(CondFlag::from_bits(8), None);
    assert!(CondFlag::positive().intersects(CondFlag { bits: 0b101 }));
    assert!(!CondFlag::negative().intersects(CondFlag { bits: 0b101 }));
}
