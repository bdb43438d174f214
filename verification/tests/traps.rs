use lilc3::instruction::{AddImmediate, Instruction, Trap, TrapCode};
use lilc3::{CondFlag, RunExit, StepEffect, LC3, MAX_MEMORY_SIZE, PROGRAM_START};

fn machine_with(words: &[(u16, u16)]) -> LC3 {
    let mut memory: Vec<u16> = vec![0; MAX_MEMORY_SIZE];
    for &(addr, word) in words {
        memory[addr as usize] = word;
    }
    LC3::new(memory)
}

#[test]
fn getc_asks_for_input() {
    let word: u16 = Instruction::Trap(Trap { vect8: TrapCode::GetC }).encode();
    let mut machine = machine_with(&[(PROGRAM_START, word)]);
    let effect = machine.step().unwrap();
    assert_eq!(effect, StepEffect::ReadInput);

    machine.provide_input(b'a');
    assert_eq!(machine.registers[0], b'a' as u16);
}

#[test]
fn input_trap_asks_for_prompt_and_input() {
    let word: u16 = Instruction::Trap(Trap { vect8: TrapCode::In }).encode();
    let mut machine = machine_with(&[(PROGRAM_START, word)]);
    let effect = machine.step().unwrap();
    assert_eq!(effect, StepEffect::PromptInput);
}

#[test]
fn out_writes_low_byte_of_r0() {
    let word: u16 = Instruction::Trap(Trap { vect8: TrapCode::Out }).encode();
    let mut machine = machine_with(&[(PROGRAM_START, word)]);
    machine.registers[0] = 0x1241; // high byte set, low byte 'A'
    let effect = machine.step().unwrap();
    assert_eq!(effect, StepEffect::WriteOutput(vec![0x41]));
}

#[test]
fn puts_writes_one_character_per_word() {
    let word: u16 = Instruction::Trap(Trap { vect8: TrapCode::Puts }).encode();
    let string_start: u16 = 0xFF00;
    let mut memory: Vec<u16> = vec![0; MAX_MEMORY_SIZE];
    memory[PROGRAM_START as usize] = word;
    let text: &[u8; 11] = b"hello world";
    for (i, ch) in text.iter().enumerate() {
        memory[string_start as usize + i] = *ch as u16;
    }

    let mut machine = LC3::new(memory);
    machine.registers[0] = string_start;
    let effect = machine.step().unwrap();
    assert_eq!(effect, StepEffect::WriteOutput(b"hello world".to_vec()));
}

#[test]
fn puts_of_empty_string_writes_nothing() {
    let word: u16 = Instruction::Trap(Trap { vect8: TrapCode::Puts }).encode();
    let mut machine = machine_with(&[(PROGRAM_START, word)]);
    machine.registers[0] = 0xFF00; // memory there is all zero
    let effect = machine.step().unwrap();
    assert_eq!(effect, StepEffect::WriteOutput(Vec::new()));
}

#[test]
fn putsp_writes_two_characters_per_word() {
    let word: u16 = Instruction::Trap(Trap { vect8: TrapCode::PutsP }).encode();
    let string_start: u16 = 0xFF00;
    let mut memory: Vec<u16> = vec![0; MAX_MEMORY_SIZE];
    memory[PROGRAM_START as usize] = word;
    // "hi!" packed low byte first: ('h','i') then ('!', 0).
    memory[string_start as usize] = (b'i' as u16) << 8 | b'h' as u16;
    memory[string_start as usize + 1] = b'!' as u16;

    let mut machine = LC3::new(memory);
    machine.registers[0] = string_start;
    let effect = machine.step().unwrap();
    assert_eq!(effect, StepEffect::WriteOutput(b"hi!".to_vec()));
}

#[test]
fn halt_stops_the_machine() {
    let word: u16 = Instruction::Trap(Trap { vect8: TrapCode::Halt }).encode();
    let mut machine = machine_with(&[(PROGRAM_START, word)]);
    machine.running = true;
    let effect = machine.step().unwrap();
    assert_eq!(effect, StepEffect::Stopped);
    assert!(!machine.running);
}

#[test]
fn run_until_halt() {
    let add: u16 = Instruction::AddImmediate(AddImmediate { dr: 1, sr1: 1, imm5: 5 }).encode();
    let out: u16 = Instruction::Trap(Trap { vect8: TrapCode::Out }).encode();
    let halt: u16 = Instruction::Trap(Trap { vect8: TrapCode::Halt }).encode();
    let mut machine = machine_with(&[
        (PROGRAM_START, add),
        (PROGRAM_START + 1, out),
        (PROGRAM_START + 2, halt),
    ]);
    machine.registers[0] = b'x' as u16;

    let exit = machine.run(1000).unwrap();
    assert_eq!(exit, RunExit::Halted(vec![b'x']));
    assert!(!machine.running);
    assert_eq!(machine.registers[1], 5);
    assert_eq!(machine.cond, CondFlag::positive());
}

#[test]
fn run_pauses_for_input() {
    let getc: u16 = Instruction::Trap(Trap { vect8: TrapCode::GetC }).encode();
    let halt: u16 = Instruction::Trap(Trap { vect8: TrapCode::Halt }).encode();
    let mut machine = machine_with(&[(PROGRAM_START, getc), (PROGRAM_START + 1, halt)]);

    let exit = machine.run(1000).unwrap();
    assert_eq!(exit, RunExit::InputNeeded(Vec::new()));

    machine.provide_input(b'q');
    let exit = machine.run(1000).unwrap();
    assert_eq!(exit, RunExit::Halted(Vec::new()));
    assert_eq!(machine.registers[0], b'q' as u16);
}

#[test]
fn run_reports_an_exhausted_step_budget() {
    // A branch with a minus-one offset loops on itself forever.
    let loop_word: u16 = Instruction::decode(0x0FFE).unwrap().encode();
    let mut machine = machine_with(&[(PROGRAM_START, loop_word)]);
    machine.cond = CondFlag::zero();

    let exit = machine.run(10).unwrap();
    assert_eq!(exit, RunExit::StepLimit(Vec::new()));
    assert!(machine.running);
}

#[test]
fn run_propagates_decode_errors() {
    let mut machine = machine_with(&[(PROGRAM_START, 0x8000)]);
    let exit = machine.run(1000);
    assert!(exit.is_err());
}

#[test]
fn flags_follow_every_register_write() {
    let mut machine = machine_with(&[]);
    machine.set_register(3, 0);
    assert_eq!(machine.cond, CondFlag::zero());
    machine.set_register(3, 0x8000);
    assert_eq!(machine.cond, CondFlag::negative());
    machine.set_register(3, 1);
    assert_eq!(machine.cond, CondFlag::positive());
    assert_eq!(machine.registers[3], 1);
}
