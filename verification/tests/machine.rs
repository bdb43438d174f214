use lilc3::instruction::{
    AddImmediate, AddRegister, AndImmediate, AndRegister, Branch, Instruction, Jump,
    JumpSubRoutineOffset, JumpSubRoutineRegister, Load, LoadBaseOffset, LoadEffectiveAddress,
    LoadIndirect, Not, Store, StoreBaseOffset, StoreIndirect,
};
use lilc3::{CondFlag, LC3, MAX_MEMORY_SIZE, PROGRAM_START};

#[test]
fn add_register() {
    let mut memory: Vec<u16> = vec![0; MAX_MEMORY_SIZE];
    let dr: u8 = 1;
    let sr1: u8 = 2;
    let sr2: u8 = 3;

    let instruction: u16 = Instruction::AddRegister(AddRegister { dr, sr1, sr2 }).encode();

    memory[PROGRAM_START as usize] = instruction;

    let mut machine = LC3::new(memory);
    machine.registers[sr1 as usize] = 5;
    machine.registers[sr2 as usize] = 6;
    machine.step().unwrap();

    assert_eq!(machine.registers[dr as usize], 11);
    assert_eq!(machine.cond, CondFlag::positive());
}

#[test]
fn add_immediate() {
    let mut memory: Vec<u16> = vec![0; MAX_MEMORY_SIZE];
    let dr: u8 = 1;
    let sr1: u8 = 2;
    let imm5: u16 = 6;

    let instruction: u16 = Instruction::AddImmediate(AddImmediate { dr, sr1, imm5 }).encode();

    memory[PROGRAM_START as usize] = instruction;

    let mut machine = LC3::new(memory);
    machine.registers[sr1 as usize] = 5;
    machine.step().unwrap();

    assert_eq!(machine.registers[dr as usize], 11);
    assert_eq!(machine.cond, CondFlag::positive());
}

#[test]
fn add_cond_flag_negative() {
    let mut memory: Vec<u16> = vec![0; MAX_MEMORY_SIZE];
    let dr: u8 = 1;
    let sr1: u8 = 2;
    let sr2: u8 = 3;

    let instruction: u16 = Instruction::AddRegister(AddRegister { dr, sr1, sr2 }).encode();

    memory[PROGRAM_START as usize] = instruction;

    let negative_one: u16 = 0xFFFF;
    let negative_two: u16 = 0xFFFE;

    let mut machine = LC3::new(memory);
    machine.registers[sr1 as usize] = negative_one;
    machine.registers[sr2 as usize] = negative_one;
    machine.step().unwrap();

    assert_eq!(machine.registers[dr as usize], negative_two);
    assert_eq!(machine.cond, CondFlag::negative());
}

#[test]
fn add_cond_flag_zero() {
    let mut memory: Vec<u16> = vec![0; MAX_MEMORY_SIZE];
    let dr: u8 = 1;
    let sr1: u8 = 2;
    let sr2: u8 = 3;

    let instruction: u16 = Instruction::AddRegister(AddRegister { dr, sr1, sr2 }).encode();

    memory[PROGRAM_START as usize] = instruction;

    let negative_one: u16 = 0xFFFF;

    let mut machine = LC3::new(memory);
    machine.registers[sr1 as usize] = 1;
    machine.registers[sr2 as usize] = negative_one;
    machine.step().unwrap();

    assert_eq!(machine.registers[dr as usize], 0);
    assert_eq!(machine.cond, CondFlag::zero());
}

#[test]
fn sign_extension_add_immediate() {
    let mut memory: Vec<u16> = vec![0; MAX_MEMORY_SIZE];
    let dr: u8 = 1;
    let sr1: u8 = 2;
    let imm5: u16 = 0x1F; // negative one as 5 bits

    let instruction: u16 = Instruction::AddImmediate(AddImmediate { dr, sr1, imm5 }).encode();
    memory[PROGRAM_START as usize] = instruction;

    let mut machine = LC3::new(memory);
    machine.registers[sr1 as usize] = 1;
    machine.step().unwrap();

    assert_eq!(machine.registers[dr as usize], 0);
    assert_eq!(machine.cond, CondFlag::zero());
}

#[test]
fn load_indirect() {
    let mut memory: Vec<u16> = vec![0; MAX_MEMORY_SIZE];
    let dr: u8 = 1;
    let pc_offset9: u16 = 10;

    let instruction: u16 = Instruction::LoadIndirect(LoadIndirect { dr, pc_offset9 }).encode();
    memory[PROGRAM_START as usize] = instruction;
    memory[PROGRAM_START as usize + 1 + 10] = 0xFFFE;
    memory[0xFFFE] = 17;

    let mut machine = LC3::new(memory);
    machine.step().unwrap();

    assert_eq!(machine.registers[dr as usize], 17);
    assert_eq!(machine.cond, CondFlag::positive());
}

#[test]
fn and_register() {
    let mut memory: Vec<u16> = vec![0; MAX_MEMORY_SIZE];
    let dr: u8 = 1;
    let sr1: u8 = 2;
    let sr2: u8 = 3;

    let instruction: u16 = Instruction::AndRegister(AndRegister { dr, sr1, sr2 }).encode();
    memory[PROGRAM_START as usize] = instruction;

    let mut machine = LC3::new(memory);
    machine.registers[sr1 as usize] = 0b0101;
    machine.registers[sr2 as usize] = 0b1110;
    machine.step().unwrap();

    let expected: u16 = 0b0100;
    assert_eq!(machine.registers[dr as usize], expected);
    assert_eq!(machine.cond, CondFlag::positive());
}

#[test]
fn and_immediate() {
    let mut memory: Vec<u16> = vec![0; MAX_MEMORY_SIZE];
    let dr: u8 = 1;
    let sr1: u8 = 2;
    let imm5: u16 = 0b10001;

    let instruction: u16 = Instruction::AndImmediate(AndImmediate { dr, sr1, imm5 }).encode();
    memory[PROGRAM_START as usize] = instruction;

    let mut machine = LC3::new(memory);
    machine.registers[sr1 as usize] = 0xFFF3;
    machine.step().unwrap();

    let expected: u16 = 0xFFF1;
    assert_eq!(machine.registers[dr as usize], expected);
    assert_eq!(machine.cond, CondFlag::negative());
}

#[test]
fn branch() {
    let mut memory: Vec<u16> = vec![0; MAX_MEMORY_SIZE];
    let nzp: CondFlag = CondFlag::positive();
    let pc_offset9: u16 = 10;

    let instruction: u16 = Instruction::Branch(Branch { nzp, pc_offset9 }).encode();
    memory[PROGRAM_START as usize] = instruction;

    let mut machine = LC3::new(memory);
    machine.cond = CondFlag::positive();
    machine.step().unwrap();

    assert_eq!(machine.pc, PROGRAM_START + 11);
}

#[test]
fn dont_branch() {
    let mut memory: Vec<u16> = vec![0; MAX_MEMORY_SIZE];
    let nzp: CondFlag = CondFlag::positive();
    let pc_offset9: u16 = 10;

    let instruction: u16 = Instruction::Branch(Branch { nzp, pc_offset9 }).encode();
    memory[PROGRAM_START as usize] = instruction;

    let mut machine = LC3::new(memory);
    machine.cond = CondFlag::negative();
    machine.step().unwrap();

    assert_eq!(machine.pc, PROGRAM_START + 1);
}

#[test]
fn jump() {
    let mut memory: Vec<u16> = vec![0; MAX_MEMORY_SIZE];
    let base_r: u8 = 1;

    let instruction: u16 = Instruction::Jump(Jump { base_r }).encode();
    memory[PROGRAM_START as usize] = instruction;

    let mut machine = LC3::new(memory);
    machine.registers[base_r as usize] = 0xFFFF;
    machine.step().unwrap();

    assert_eq!(machine.pc, 0xFFFF);
}

#[test]
fn jump_subroutine_offset() {
    let mut memory: Vec<u16> = vec![0; MAX_MEMORY_SIZE];
    let pc_offset11: u16 = 10;

    let instruction: u16 =
        Instruction::JumpSubRoutineOffset(JumpSubRoutineOffset { pc_offset11 }).encode();
    memory[PROGRAM_START as usize] = instruction;

    let mut machine = LC3::new(memory);
    machine.step().unwrap();

    assert_eq!(machine.pc, PROGRAM_START + 11);
    assert_eq!(machine.registers[7], PROGRAM_START + 1);
}

#[test]
fn jump_subroutine_register() {
    let mut memory: Vec<u16> = vec![0; MAX_MEMORY_SIZE];
    let base_r: u8 = 1;

    let instruction: u16 =
        Instruction::JumpSubRoutineRegister(JumpSubRoutineRegister { base_r }).encode();
    memory[PROGRAM_START as usize] = instruction;

    let jump_to: u16 = 0xFFFF;
    let mut machine = LC3::new(memory);
    machine.registers[base_r as usize] = jump_to;
    machine.step().unwrap();

    assert_eq!(machine.pc, 0xFFFF);
    assert_eq!(machine.registers[7], PROGRAM_START + 1);
}

#[test]
fn load() {
    let mut memory: Vec<u16> = vec![0; MAX_MEMORY_SIZE];
    let dr: u8 = 1;
    let pc_offset9: u16 = 10;

    let instruction: u16 = Instruction::Load(Load { dr, pc_offset9 }).encode();
    memory[PROGRAM_START as usize] = instruction;
    memory[PROGRAM_START as usize + 1 + 10] = 17;

    let mut machine = LC3::new(memory);
    machine.step().unwrap();

    assert_eq!(machine.registers[dr as usize], 17);
    assert_eq!(machine.cond, CondFlag::positive());
}

#[test]
fn load_base_offset() {
    let mut memory: Vec<u16> = vec![0; MAX_MEMORY_SIZE];
    let dr: u8 = 1;
    let base_r: u8 = 2;
    let pc_offset6: u16 = 3;

    let instruction: u16 = Instruction::LoadBaseOffset(LoadBaseOffset {
        dr,
        base_r,
        pc_offset6,
    })
    .encode();
    memory[PROGRAM_START as usize] = instruction;
    memory[10] = 17;

    let mut machine = LC3::new(memory);
    machine.registers[base_r as usize] = 7;
    machine.step().unwrap();

    assert_eq!(machine.registers[dr as usize], 17);
}

#[test]
fn load_effective_address() {
    let mut memory: Vec<u16> = vec![0; MAX_MEMORY_SIZE];
    let dr: u8 = 1;
    let pc_offset9: u16 = 10;

    let instruction: u16 =
        Instruction::LoadEffectiveAddress(LoadEffectiveAddress { dr, pc_offset9 }).encode();
    memory[PROGRAM_START as usize] = instruction;

    let mut machine = LC3::new(memory);
    machine.step().unwrap();

    assert_eq!(machine.registers[dr as usize], PROGRAM_START + 11);
}

#[test]
fn not() {
    let mut memory: Vec<u16> = vec![0; MAX_MEMORY_SIZE];
    let dr: u8 = 1;
    let sr1: u8 = 2;

    let instruction: u16 = Instruction::Not(Not { dr, sr1 }).encode();
    memory[PROGRAM_START as usize] = instruction;

    let mut machine = LC3::new(memory);
    machine.registers[sr1 as usize] = 0xF0F0;
    machine.step().unwrap();

    assert_eq!(machine.registers[dr as usize], 0x0F0F);
}

#[test]
fn store() {
    let mut memory: Vec<u16> = vec![0; MAX_MEMORY_SIZE];
    let sr: u8 = 1;
    let pc_offset9: u16 = 10;

    let instruction: u16 = Instruction::Store(Store { sr, pc_offset9 }).encode();
    memory[PROGRAM_START as usize] = instruction;

    let mut machine = LC3::new(memory);
    machine.registers[sr as usize] = 17;
    machine.step().unwrap();

    let updated_address: usize = (PROGRAM_START + pc_offset9 + 1) as usize;
    assert_eq!(machine.memory[updated_address], 17);
}

#[test]
fn store_indirect() {
    let mut memory: Vec<u16> = vec![0; MAX_MEMORY_SIZE];
    let sr: u8 = 1;
    let pc_offset9: u16 = 10;

    let direct_address: u16 = 0xFFFE;
    let indirect_address: u16 = PROGRAM_START + pc_offset9 + 1;

    let instruction: u16 = Instruction::StoreIndirect(StoreIndirect { sr, pc_offset9 }).encode();
    memory[PROGRAM_START as usize] = instruction;
    memory[indirect_address as usize] = direct_address;

    let mut machine = LC3::new(memory);
    machine.registers[sr as usize] = 17;
    machine.step().unwrap();

    assert_eq!(machine.memory[direct_address as usize], 17);
}

#[test]
fn store_base_offset() {
    let mut memory: Vec<u16> = vec![0; MAX_MEMORY_SIZE];

    let base_r: u8 = 1;
    let base_r_value: u16 = 11;

    let sr: u8 = 2;
    let sr_value: u16 = 17;

    let pc_offset6: u16 = 10;

    let instruction: u16 = Instruction::StoreBaseOffset(StoreBaseOffset {
        sr,
        pc_offset6,
        base_r,
    })
    .encode();
    memory[PROGRAM_START as usize] = instruction;

    let mut machine = LC3::new(memory);
    machine.registers[base_r as usize] = base_r_value;
    machine.registers[sr as usize] = sr_value;
    machine.step().unwrap();

    let updated_address: u16 = base_r_value + pc_offset6;
    assert_eq!(machine.memory[updated_address as usize], sr_value);
}
