//! A small LC-3 machine: a 16-bit word-addressed memory, eight general
//! registers, a program counter, a one-hot condition flag, and an execution
//! engine that interprets decoded instructions one at a time.
//!
//! Console input and output are not performed here. A trap instruction
//! produces a [`StepEffect`] value describing the bytes to write or the read
//! that is owed, and the caller carries it out before stepping on.
use vstd::prelude::*;

pub mod instruction;

use crate::instruction::{
    AddImmediate, AddRegister, AndImmediate, AndRegister, Branch, DecodeError, Instruction, Jump,
    JumpSubRoutineOffset, JumpSubRoutineRegister, Load, LoadBaseOffset, LoadEffectiveAddress,
    LoadIndirect, Not, Store, StoreBaseOffset, StoreIndirect, Trap, TrapCode,
};

verus! {

pub type BusSize = u16;

pub type InstructionSize = u16;

pub type MemoryLocationSize = u16;

pub type Memory = Vec<MemoryLocationSize>;

pub type RegisterIndex = u8;

pub type RegisterSize = u16;

/// The fixed address at which the program counter starts.
pub const PROGRAM_START: MemoryLocationSize = 0x3000;

/// Number of memory words: one for every 16-bit address.
pub const MAX_MEMORY_SIZE: usize = 0x10000;

pub const REGISTER_COUNT: usize = 8;

/// A set of the three condition flags, kept as three low bits so that a
/// branch mask can be tested against the current flag by intersection.
#[derive(Debug, Copy, Clone, PartialEq, Eq, Structural)]
pub struct CondFlag {
    pub bits: u8,
}

impl CondFlag {
    /// True when exactly one of the three flags is set.
    pub open spec fn is_single_flag(self) -> bool {
        self.bits == 1 || self.bits == 2 || self.bits == 4
    }

    pub fn positive() -> (r: CondFlag)
        ensures
            r == (CondFlag { bits: 1u8 }),
    {
        CondFlag { bits: 1 }
    }

    pub fn negative() -> (r: CondFlag)
        ensures
            r == (CondFlag { bits: 2u8 }),
    {
        CondFlag { bits: 2 }
    }

    pub fn zero() -> (r: CondFlag)
        ensures
            r == (CondFlag { bits: 4u8 }),
    {
        CondFlag { bits: 4 }
    }

    /// The raw three-bit mask.
    pub fn bits(&self) -> (r: u8)
        ensures
            r == self.bits,
    {
        self.bits
    }

    /// Accepts any mask made of the three known flag bits.
    pub fn from_bits(bits: u8) -> (r: Option<CondFlag>)
        ensures
            r == if bits < 8 {
                Option::Some(CondFlag { bits })
            } else {
                Option::None::<CondFlag>
            },
    {
        if bits < 8 {
            Some(CondFlag { bits })
        } else {
            None
        }
    }

    /// True when the two masks share at least one flag.
    pub fn intersects(&self, other: CondFlag) -> (r: bool)
        ensures
            r == ((self.bits & other.bits) != 0),
    {
        (self.bits & other.bits) != 0
    }
}

/// The condition flag demanded by a freshly written register value: zero for
/// a zero word, negative when the high bit is set, positive otherwise.
pub open spec fn flag_for(value: u16) -> CondFlag {
    if value == 0 {
        CondFlag { bits: 4 }
    } else if value >> 15u16 == 1 {
        CondFlag { bits: 2 }
    } else {
        CondFlag { bits: 1 }
    }
}

/// Law: the flag computed from a written register value is always exactly one
/// of positive, zero and negative, and identifies the sign of the value.
pub proof fn lemma_flag_exclusive(value: u16)
    ensures
        flag_for(value).is_single_flag(),
        (flag_for(value) == (CondFlag { bits: 4u8 })) <==> value == 0,
        (flag_for(value) == (CondFlag { bits: 2u8 })) <==> value >= 0x8000,
        (flag_for(value) == (CondFlag { bits: 1u8 })) <==> (0 < value < 0x8000),
{
    assert((value >> 15u16 == 1) <==> value >= 0x8000) by (bit_vector);
}

/// Law: after any register-writing instruction, exactly one condition flag is
/// set, and it is the one the written value demands: zero for a zero word,
/// negative when the high bit is set, positive otherwise.
pub proof fn lemma_flag_invariant_after_write(pre: LC3, pc1: u16, post: LC3, dr: u8, value: u16)
    requires
        reg_write_ok(pre, pc1, post, dr, value),
    ensures
        post.cond.is_single_flag(),
        value == 0 ==> post.cond == (CondFlag { bits: 4u8 }),
        value >= 0x8000 ==> post.cond == (CondFlag { bits: 2u8 }),
        0 < value < 0x8000 ==> post.cond == (CondFlag { bits: 1u8 }),
{
    lemma_flag_exclusive(value);
}

/// 16-bit addition, wrapping on overflow: all address and register arithmetic
/// is taken modulo the word size.
pub open spec fn wadd(a: u16, b: u16) -> u16 {
    if a + b > 0xFFFF {
        (a + b - 0x10000) as u16
    } else {
        (a + b) as u16
    }
}

/// Adds through a wider type so the wraparound is explicit.
fn wrapping_add_u16(a: u16, b: u16) -> (r: u16)
    ensures
        r == wadd(a, b),
{
    let sum: u32 = a as u32 + b as u32;
    if sum > 0xFFFF {
        (sum - 0x10000) as u16
    } else {
        sum as u16
    }
}

/// What one executed instruction asks of the console, beyond the state change
/// it already made.
#[derive(Debug, PartialEq, Eq)]
pub enum StepEffect {
    /// Nothing: execution simply moved on.
    Proceed,
    /// Read one byte, without echo, and hand it back through `provide_input`.
    ReadInput,
    /// Print a prompt, flush, read one byte, and hand it back through
    /// `provide_input`.
    PromptInput,
    /// Write these bytes and flush.
    WriteOutput(Vec<u8>),
    /// The machine halted: print a termination notice. The running flag is
    /// already cleared.
    Stopped,
}

/// Why `run` handed control back, with the output collected on the way.
#[derive(Debug, PartialEq, Eq)]
pub enum RunExit {
    /// The program executed a halt trap.
    Halted(Vec<u8>),
    /// A trap wants one input byte, without echo.
    InputNeeded(Vec<u8>),
    /// A trap wants a prompt printed and then one input byte.
    PromptInputNeeded(Vec<u8>),
    /// The step budget ran out before the program halted or asked for input.
    /// Calling `run` again carries straight on.
    StepLimit(Vec<u8>),
}

/// The machine as mathematics: the same five parts, with sequences for the
/// memory and the register file.
pub struct MachineView {
    pub memory: Seq<u16>,
    pub registers: Seq<u16>,
    pub pc: u16,
    pub cond: CondFlag,
    pub running: bool,
}

impl View for LC3 {
    type V = MachineView;

    open spec fn view(&self) -> MachineView {
        MachineView {
            memory: self.memory@,
            registers: self.registers@,
            pc: self.pc,
            cond: self.cond,
            running: self.running,
        }
    }
}

/// A step effect as mathematics: output as a byte sequence.
pub enum EffectView {
    Proceed,
    ReadInput,
    PromptInput,
    WriteOutput(Seq<u8>),
    Stopped,
}

impl View for StepEffect {
    type V = EffectView;

    open spec fn view(&self) -> EffectView {
        match self {
            StepEffect::Proceed => EffectView::Proceed,
            StepEffect::ReadInput => EffectView::ReadInput,
            StepEffect::PromptInput => EffectView::PromptInput,
            StepEffect::WriteOutput(v) => EffectView::WriteOutput(v@),
            StepEffect::Stopped => EffectView::Stopped,
        }
    }
}

/// How an iterated run of the machine view ends.
pub enum RunOutcome {
    Halted,
    InputNeeded,
    PromptInputNeeded,
    StepLimit,
    Failed(DecodeError),
}

/// The bytes a string-printing trap writes: one character per word, the low
/// byte of each, from `addr` up to the first zero word or the end of memory.
pub open spec fn puts_bytes(mem: Seq<u16>, addr: int) -> Seq<u8>
    decreases mem.len() - addr,
{
    if addr < 0 || addr >= mem.len() {
        Seq::empty()
    } else if mem[addr] == 0 {
        Seq::empty()
    } else {
        seq![(mem[addr] & 0xFF) as u8] + puts_bytes(mem, addr + 1)
    }
}

/// The bytes a packed-string trap writes: two characters per word, low byte
/// first, from `addr` up to the first zero word, a zero high byte, or the end
/// of memory.
pub open spec fn putsp_bytes(mem: Seq<u16>, addr: int) -> Seq<u8>
    decreases mem.len() - addr,
{
    if addr < 0 || addr >= mem.len() {
        Seq::empty()
    } else if mem[addr] == 0 {
        Seq::empty()
    } else {
        let lo = (mem[addr] & 0xFF) as u8;
        let hi = (mem[addr] >> 8u16) as u8;
        if hi == 0 {
            seq![lo]
        } else {
            seq![lo, hi] + putsp_bytes(mem, addr + 1)
        }
    }
}

/// The whole machine: memory, registers, program counter, condition flag and
/// the running flag.
pub struct LC3 {
    pub memory: Memory,
    pub registers: Vec<RegisterSize>,
    pub pc: u16,
    pub cond: CondFlag,
    pub running: bool,
}

/// The next state wrote `value` into register `dr`, recomputed the flag from
/// that same value, and moved the program counter to `pc1`; everything else
/// is untouched.
pub open spec fn reg_write_ok(pre: LC3, pc1: u16, post: LC3, dr: u8, value: u16) -> bool {
    &&& post.memory@ == pre.memory@
    &&& post.registers@ == pre.registers@.update(dr as int, value)
    &&& post.cond == flag_for(value)
    &&& post.pc == pc1
    &&& post.running == pre.running
}

/// The next state wrote `value` into memory at `addr`; registers, flag and
/// the running flag are untouched, and the program counter moved to `pc1`.
pub open spec fn mem_write_ok(pre: LC3, pc1: u16, post: LC3, addr: u16, value: u16) -> bool {
    &&& post.memory@ == pre.memory@.update(addr as int, value)
    &&& post.registers@ == pre.registers@
    &&& post.cond == pre.cond
    &&& post.pc == pc1
    &&& post.running == pre.running
}

/// The next state only moved the program counter to `pc1`.
pub open spec fn state_kept(pre: LC3, pc1: u16, post: LC3) -> bool {
    &&& post.memory@ == pre.memory@
    &&& post.registers@ == pre.registers@
    &&& post.cond == pre.cond
    &&& post.pc == pc1
    &&& post.running == pre.running
}

/// What a trap owes the console and does to the machine. `pc1` is the
/// program counter after the fetch increment.
pub open spec fn trap_rel(pre: LC3, pc1: u16, post: LC3, code: TrapCode, eff: StepEffect) -> bool {
    match code {
        TrapCode::GetC => state_kept(pre, pc1, post) && eff == StepEffect::ReadInput,
        TrapCode::In => state_kept(pre, pc1, post) && eff == StepEffect::PromptInput,
        TrapCode::Out => state_kept(pre, pc1, post) && (eff matches StepEffect::WriteOutput(v)
            && v@ == seq![(pre.registers@[0] & 0xFF) as u8]),
        TrapCode::Puts => state_kept(pre, pc1, post) && (eff matches StepEffect::WriteOutput(v)
            && v@ == puts_bytes(pre.memory@, pre.registers@[0] as int)),
        TrapCode::PutsP => state_kept(pre, pc1, post) && (eff matches StepEffect::WriteOutput(v)
            && v@ == putsp_bytes(pre.memory@, pre.registers@[0] as int)),
        TrapCode::Halt => {
            &&& post.memory@ == pre.memory@
            &&& post.registers@ == pre.registers@
            &&& post.cond == pre.cond
            &&& post.pc == pc1
            &&& post.running == false
            &&& eff == StepEffect::Stopped
        },
    }
}

/// The meaning of one instruction: how the machine after it relates to the
/// machine before it, and what it asks of the console. `pre`'s registers,
/// memory and flags are the values before the instruction; `pc1` is the
/// program counter after the fetch increment, from which every relative
/// target is measured.
pub open spec fn instr_rel(pre: LC3, pc1: u16, post: LC3, i: Instruction, eff: StepEffect) -> bool {
    match i {
        Instruction::AddImmediate(a) => reg_write_ok(
            pre,
            pc1,
            post,
            a.dr,
            wadd(pre.registers@[a.sr1 as int], a.imm5),
        ) && eff == StepEffect::Proceed,
        Instruction::AddRegister(a) => reg_write_ok(
            pre,
            pc1,
            post,
            a.dr,
            wadd(pre.registers@[a.sr1 as int], pre.registers@[a.sr2 as int]),
        ) && eff == StepEffect::Proceed,
        Instruction::AndImmediate(a) => reg_write_ok(
            pre,
            pc1,
            post,
            a.dr,
            pre.registers@[a.sr1 as int] & a.imm5,
        ) && eff == StepEffect::Proceed,
        Instruction::AndRegister(a) => reg_write_ok(
            pre,
            pc1,
            post,
            a.dr,
            pre.registers@[a.sr1 as int] & pre.registers@[a.sr2 as int],
        ) && eff == StepEffect::Proceed,
        Instruction::Branch(b) => {
            let target = if b.nzp.bits & pre.cond.bits != 0 {
                wadd(pc1, b.pc_offset9)
            } else {
                pc1
            };
            state_kept(pre, target, post) && eff == StepEffect::Proceed
        },
        Instruction::Jump(j) => state_kept(pre, pre.registers@[j.base_r as int], post)
            && eff == StepEffect::Proceed,
        Instruction::JumpSubRoutineOffset(j) => {
            &&& post.memory@ == pre.memory@
            &&& post.registers@ == pre.registers@.update(7, pc1)
            &&& post.cond == pre.cond
            &&& post.pc == wadd(pc1, j.pc_offset11)
            &&& post.running == pre.running
            &&& eff == StepEffect::Proceed
        },
        Instruction::JumpSubRoutineRegister(j) => {
            &&& post.memory@ == pre.memory@
            &&& post.registers@ == pre.registers@.update(7, pc1)
            &&& post.cond == pre.cond
            &&& post.pc == pre.registers@.update(7, pc1)[j.base_r as int]
            &&& post.running == pre.running
            &&& eff == StepEffect::Proceed
        },
        Instruction::Load(l) => reg_write_ok(
            pre,
            pc1,
            post,
            l.dr,
            pre.memory@[wadd(pc1, l.pc_offset9) as int],
        ) && eff == StepEffect::Proceed,
        Instruction::LoadBaseOffset(l) => reg_write_ok(
            pre,
            pc1,
            post,
            l.dr,
            pre.memory@[wadd(pre.registers@[l.base_r as int], l.pc_offset6) as int],
        ) && eff == StepEffect::Proceed,
        Instruction::LoadEffectiveAddress(l) => reg_write_ok(
            pre,
            pc1,
            post,
            l.dr,
            wadd(pc1, l.pc_offset9),
        ) && eff == StepEffect::Proceed,
        Instruction::LoadIndirect(l) => reg_write_ok(
            pre,
            pc1,
            post,
            l.dr,
            pre.memory@[pre.memory@[wadd(pc1, l.pc_offset9) as int] as int],
        ) && eff == StepEffect::Proceed,
        Instruction::Not(n) => reg_write_ok(pre, pc1, post, n.dr, !pre.registers@[n.sr1 as int])
            && eff == StepEffect::Proceed,
        Instruction::Store(s) => mem_write_ok(
            pre,
            pc1,
            post,
            wadd(pc1, s.pc_offset9),
            pre.registers@[s.sr as int],
        ) && eff == StepEffect::Proceed,
        Instruction::StoreBaseOffset(s) => mem_write_ok(
            pre,
            pc1,
            post,
            wadd(pre.registers@[s.base_r as int], s.pc_offset6),
            pre.registers@[s.sr as int],
        ) && eff == StepEffect::Proceed,
        Instruction::StoreIndirect(s) => mem_write_ok(
            pre,
            pc1,
            post,
            pre.memory@[wadd(pc1, s.pc_offset9) as int],
            pre.registers@[s.sr as int],
        ) && eff == StepEffect::Proceed,
        Instruction::Trap(t) => trap_rel(pre, pc1, post, t.vect8, eff),
    }
}

/// The machine view after a register write: `value` lands in register `dr`,
/// the flag is recomputed from it, and the program counter moves to `pc1`.
pub open spec fn reg_write_view(m: MachineView, pc1: u16, dr: u8, value: u16) -> MachineView {
    MachineView {
        memory: m.memory,
        registers: m.registers.update(dr as int, value),
        pc: pc1,
        cond: flag_for(value),
        running: m.running,
    }
}

/// The machine view after only the program counter moved to `pc1`.
pub open spec fn kept_view(m: MachineView, pc1: u16) -> MachineView {
    MachineView { memory: m.memory, registers: m.registers, pc: pc1, cond: m.cond, running: m.running }
}

/// Executing one decoded instruction on the machine view: the next view and
/// the effect owed to the console. `pc1` is the program counter after the
/// fetch increment. This is `instr_rel` as a function; the two agree
/// (`lemma_instr_rel_view`).
pub open spec fn view_exec(m: MachineView, pc1: u16, i: Instruction) -> (MachineView, EffectView) {
    match i {
        Instruction::AddImmediate(a) => (
            reg_write_view(m, pc1, a.dr, wadd(m.registers[a.sr1 as int], a.imm5)),
            EffectView::Proceed,
        ),
        Instruction::AddRegister(a) => (
            reg_write_view(
                m,
                pc1,
                a.dr,
                wadd(m.registers[a.sr1 as int], m.registers[a.sr2 as int]),
            ),
            EffectView::Proceed,
        ),
        Instruction::AndImmediate(a) => (
            reg_write_view(m, pc1, a.dr, m.registers[a.sr1 as int] & a.imm5),
            EffectView::Proceed,
        ),
        Instruction::AndRegister(a) => (
            reg_write_view(m, pc1, a.dr, m.registers[a.sr1 as int] & m.registers[a.sr2 as int]),
            EffectView::Proceed,
        ),
        Instruction::Branch(b) => {
            let target = if b.nzp.bits & m.cond.bits != 0 {
                wadd(pc1, b.pc_offset9)
            } else {
                pc1
            };
            (kept_view(m, target), EffectView::Proceed)
        },
        Instruction::Jump(j) => (kept_view(m, m.registers[j.base_r as int]), EffectView::Proceed),
        Instruction::JumpSubRoutineOffset(j) => (
            MachineView {
                memory: m.memory,
                registers: m.registers.update(7, pc1),
                pc: wadd(pc1, j.pc_offset11),
                cond: m.cond,
                running: m.running,
            },
            EffectView::Proceed,
        ),
        Instruction::JumpSubRoutineRegister(j) => {
            let linked = m.registers.update(7, pc1);
            (
                MachineView {
                    memory: m.memory,
                    registers: linked,
                    pc: linked[j.base_r as int],
                    cond: m.cond,
                    running: m.running,
                },
                EffectView::Proceed,
            )
        },
        Instruction::Load(l) => (
            reg_write_view(m, pc1, l.dr, m.memory[wadd(pc1, l.pc_offset9) as int]),
            EffectView::Proceed,
        ),
        Instruction::LoadBaseOffset(l) => (
            reg_write_view(
                m,
                pc1,
                l.dr,
                m.memory[wadd(m.registers[l.base_r as int], l.pc_offset6) as int],
            ),
            EffectView::Proceed,
        ),
        Instruction::LoadEffectiveAddress(l) => (
            reg_write_view(m, pc1, l.dr, wadd(pc1, l.pc_offset9)),
            EffectView::Proceed,
        ),
        Instruction::LoadIndirect(l) => (
            reg_write_view(m, pc1, l.dr, m.memory[m.memory[wadd(pc1, l.pc_offset9) as int] as int]),
            EffectView::Proceed,
        ),
        Instruction::Not(n) => (
            reg_write_view(m, pc1, n.dr, !m.registers[n.sr1 as int]),
            EffectView::Proceed,
        ),
        Instruction::Store(s) => (
            MachineView {
                memory: m.memory.update(
                    wadd(pc1, s.pc_offset9) as int,
                    m.registers[s.sr as int],
                ),
                registers: m.registers,
                pc: pc1,
                cond: m.cond,
                running: m.running,
            },
            EffectView::Proceed,
        ),
        Instruction::StoreBaseOffset(s) => (
            MachineView {
                memory: m.memory.update(
                    wadd(m.registers[s.base_r as int], s.pc_offset6) as int,
                    m.registers[s.sr as int],
                ),
                registers: m.registers,
                pc: pc1,
                cond: m.cond,
                running: m.running,
            },
            EffectView::Proceed,
        ),
        Instruction::StoreIndirect(s) => (
            MachineView {
                memory: m.memory.update(
                    m.memory[wadd(pc1, s.pc_offset9) as int] as int,
                    m.registers[s.sr as int],
                ),
                registers: m.registers,
                pc: pc1,
                cond: m.cond,
                running: m.running,
            },
            EffectView::Proceed,
        ),
        Instruction::Trap(t) => match t.vect8 {
            TrapCode::GetC => (kept_view(m, pc1), EffectView::ReadInput),
            TrapCode::In => (kept_view(m, pc1), EffectView::PromptInput),
            TrapCode::Out => (
                kept_view(m, pc1),
                EffectView::WriteOutput(seq![(m.registers[0] & 0xFF) as u8]),
            ),
            TrapCode::Puts => (
                kept_view(m, pc1),
                EffectView::WriteOutput(puts_bytes(m.memory, m.registers[0] as int)),
            ),
            TrapCode::PutsP => (
                kept_view(m, pc1),
                EffectView::WriteOutput(putsp_bytes(m.memory, m.registers[0] as int)),
            ),
            TrapCode::Halt => (
                MachineView {
                    memory: m.memory,
                    registers: m.registers,
                    pc: pc1,
                    cond: m.cond,
                    running: false,
                },
                EffectView::Stopped,
            ),
        },
    }
}

/// One whole fetch-decode-execute step on the machine view: fetch the word at
/// the program counter, advance the counter, and either execute the decoded
/// instruction or stop on its decode error.
pub open spec fn view_step(m: MachineView) -> (MachineView, Result<EffectView, DecodeError>) {
    let w = m.memory[m.pc as int];
    let pc1 = wadd(m.pc, 1);
    match Instruction::spec_decode(w) {
        Result::Ok(i) => {
            let (m1, ev) = view_exec(m, pc1, i);
            (m1, Result::Ok(ev))
        },
        Result::Err(e) => (kept_view(m, pc1), Result::Err(e)),
    }
}

/// Iterated stepping on the machine view, `run`'s meaning: from a state whose
/// running flag is up, step until the halt trap clears the flag, a trap asks
/// the console for a byte, a word fails to decode, or the fuel runs out, and
/// concatenate the bytes written along the way.
pub open spec fn view_run(m: MachineView, fuel: nat) -> (MachineView, Seq<u8>, RunOutcome)
    decreases fuel,
{
    if !m.running {
        (m, Seq::empty(), RunOutcome::Halted)
    } else if fuel == 0 {
        (m, Seq::empty(), RunOutcome::StepLimit)
    } else {
        let (m1, res) = view_step(m);
        match res {
            Result::Err(e) => (m1, Seq::empty(), RunOutcome::Failed(e)),
            Result::Ok(ev) => match ev {
                EffectView::Proceed => view_run(m1, (fuel - 1) as nat),
                EffectView::Stopped => view_run(m1, (fuel - 1) as nat),
                EffectView::WriteOutput(bytes) => {
                    let (mf, rest, outcome) = view_run(m1, (fuel - 1) as nat);
                    (mf, bytes + rest, outcome)
                },
                EffectView::ReadInput => (m1, Seq::empty(), RunOutcome::InputNeeded),
                EffectView::PromptInput => (m1, Seq::empty(), RunOutcome::PromptInputNeeded),
            },
        }
    }
}

/// The transition relation and the functional step agree: machine states
/// related by `instr_rel` are exactly the states the view function computes.
proof fn lemma_instr_rel_view(pre: LC3, pc1: u16, post: LC3, i: Instruction, eff: StepEffect)
    requires
        instr_rel(pre, pc1, post, i, eff),
    ensures
        ({
            let (m1, ev) = view_exec(pre@, pc1, i);
            post@ == m1 && eff@ == ev
        }),
{
}

impl LC3 {
    /// Every address has a word, every register exists, and exactly one
    /// condition flag is set.
    pub open spec fn wf(self) -> bool {
        &&& self.memory@.len() == MAX_MEMORY_SIZE
        &&& self.registers@.len() == REGISTER_COUNT
        &&& self.cond.is_single_flag()
    }

    /// Builds a machine around a full memory image: registers cleared, the
    /// program counter at the fixed start address, the flag at zero, and the
    /// running flag down.
    pub fn new(memory: Memory) -> (r: Self)
        requires
            memory@.len() == MAX_MEMORY_SIZE,
        ensures
            r.wf(),
            r.memory == memory,
            r.registers@.len() == REGISTER_COUNT,
            forall|i: int| 0 <= i < REGISTER_COUNT ==> r.registers@[i] == 0u16,
            r.pc == PROGRAM_START,
            r.cond == (CondFlag { bits: 4u8 }),
            r.running == false,
    {
        let mut registers: Vec<u16> = Vec::new();
        while registers.len() < REGISTER_COUNT
            invariant
                registers@.len() <= REGISTER_COUNT,
                forall|i: int| 0 <= i < registers@.len() ==> registers@[i] == 0u16,
            decreases REGISTER_COUNT - registers@.len(),
        {
            registers.push(0);
        }
        LC3 { memory, registers, pc: PROGRAM_START, cond: CondFlag::zero(), running: false }
    }

    /// Put `value` in `register` and set the condition flag from `value`.
    /// This is the one way an instruction writes a register: the flag always
    /// reflects the freshest written value.
    pub fn set_register(&mut self, register: RegisterIndex, value: RegisterSize)
        requires
            old(self).wf(),
            register < 8,
        ensures
            final(self).wf(),
            final(self).registers@ == old(self).registers@.update(register as int, value),
            final(self).cond == flag_for(value),
            final(self).memory == old(self).memory,
            final(self).pc == old(self).pc,
            final(self).running == old(self).running,
    {
        if value == 0 {
            self.cond = CondFlag::zero();
        } else if value >> 15 == 1 {
            self.cond = CondFlag::negative();
        } else {
            self.cond = CondFlag::positive();
        }
        self.registers[register as usize] = value;
    }

    pub fn add_immediate(&mut self, instr: AddImmediate)
        requires
            old(self).wf(),
            instr.dr < 8,
            instr.sr1 < 8,
        ensures
            final(self).wf(),
            instr_rel(
                *old(self),
                old(self).pc,
                *final(self),
                Instruction::AddImmediate(instr),
                StepEffect::Proceed,
            ),
    {
        let value: u16 = wrapping_add_u16(self.registers[instr.sr1 as usize], instr.imm5);
        self.set_register(instr.dr, value)
    }

    pub fn add_register(&mut self, instr: AddRegister)
        requires
            old(self).wf(),
            instr.dr < 8,
            instr.sr1 < 8,
            instr.sr2 < 8,
        ensures
            final(self).wf(),
            instr_rel(
                *old(self),
                old(self).pc,
                *final(self),
                Instruction::AddRegister(instr),
                StepEffect::Proceed,
            ),
    {
        let value: u16 = wrapping_add_u16(
            self.registers[instr.sr1 as usize],
            self.registers[instr.sr2 as usize],
        );
        self.set_register(instr.dr, value)
    }

    pub fn and_immediate(&mut self, instr: AndImmediate)
        requires
            old(self).wf(),
            instr.dr < 8,
            instr.sr1 < 8,
        ensures
            final(self).wf(),
            instr_rel(
                *old(self),
                old(self).pc,
                *final(self),
                Instruction::AndImmediate(instr),
                StepEffect::Proceed,
            ),
    {
        let value: u16 = self.registers[instr.sr1 as usize] & instr.imm5;
        self.set_register(instr.dr, value)
    }

    pub fn and_register(&mut self, instr: AndRegister)
        requires
            old(self).wf(),
            instr.dr < 8,
            instr.sr1 < 8,
            instr.sr2 < 8,
        ensures
            final(self).wf(),
            instr_rel(
                *old(self),
                old(self).pc,
                *final(self),
                Instruction::AndRegister(instr),
                StepEffect::Proceed,
            ),
    {
        let value: u16 = self.registers[instr.sr1 as usize] & self.registers[instr.sr2 as usize];
        self.set_register(instr.dr, value)
    }

    pub fn branch(&mut self, instr: Branch)
        requires
            old(self).wf(),
        ensures
            final(self).wf(),
            instr_rel(
                *old(self),
                old(self).pc,
                *final(self),
                Instruction::Branch(instr),
                StepEffect::Proceed,
            ),
    {
        if instr.nzp.intersects(self.cond) {
            self.pc = wrapping_add_u16(self.pc, instr.pc_offset9);
        }
    }

    pub fn jump(&mut self, instr: Jump)
        requires
            old(self).wf(),
            instr.base_r < 8,
        ensures
            final(self).wf(),
            instr_rel(
                *old(self),
                old(self).pc,
                *final(self),
                Instruction::Jump(instr),
                StepEffect::Proceed,
            ),
    {
        self.pc = self.registers[instr.base_r as usize];
    }

    pub fn jump_subroutine_offset(&mut self, instr: JumpSubRoutineOffset)
        requires
            old(self).wf(),
        ensures
            final(self).wf(),
            instr_rel(
                *old(self),
                old(self).pc,
                *final(self),
                Instruction::JumpSubRoutineOffset(instr),
                StepEffect::Proceed,
            ),
    {
        self.registers[7] = self.pc;
        self.pc = wrapping_add_u16(self.pc, instr.pc_offset11);
    }

    pub fn jump_subroutine_register(&mut self, instr: JumpSubRoutineRegister)
        requires
            old(self).wf(),
            instr.base_r < 8,
        ensures
            final(self).wf(),
            instr_rel(
                *old(self),
                old(self).pc,
                *final(self),
                Instruction::JumpSubRoutineRegister(instr),
                StepEffect::Proceed,
            ),
    {
        self.registers[7] = self.pc;
        self.pc = self.registers[instr.base_r as usize];
    }

    pub fn load(&mut self, instr: Load)
        requires
            old(self).wf(),
            instr.dr < 8,
        ensures
            final(self).wf(),
            instr_rel(
                *old(self),
                old(self).pc,
                *final(self),
                Instruction::Load(instr),
                StepEffect::Proceed,
            ),
    {
        let address: u16 = wrapping_add_u16(self.pc, instr.pc_offset9);
        let value: u16 = self.memory[address as usize];
        self.set_register(instr.dr, value);
    }

    pub fn load_base_offset(&mut self, instr: LoadBaseOffset)
        requires
            old(self).wf(),
            instr.dr < 8,
            instr.base_r < 8,
        ensures
            final(self).wf(),
            instr_rel(
                *old(self),
                old(self).pc,
                *final(self),
                Instruction::LoadBaseOffset(instr),
                StepEffect::Proceed,
            ),
    {
        let address: u16 = wrapping_add_u16(
            self.registers[instr.base_r as usize],
            instr.pc_offset6,
        );
        let value: u16 = self.memory[address as usize];
        self.set_register(instr.dr, value);
    }

    pub fn load_effective_address(&mut self, instr: LoadEffectiveAddress)
        requires
            old(self).wf(),
            instr.dr < 8,
        ensures
            final(self).wf(),
            instr_rel(
                *old(self),
                old(self).pc,
                *final(self),
                Instruction::LoadEffectiveAddress(instr),
                StepEffect::Proceed,
            ),
    {
        let address: u16 = wrapping_add_u16(self.pc, instr.pc_offset9);
        self.set_register(instr.dr, address)
    }

    pub fn load_indirect(&mut self, instr: LoadIndirect)
        requires
            old(self).wf(),
            instr.dr < 8,
        ensures
            final(self).wf(),
            instr_rel(
                *old(self),
                old(self).pc,
                *final(self),
                Instruction::LoadIndirect(instr),
                StepEffect::Proceed,
            ),
    {
        let pointer: u16 = wrapping_add_u16(self.pc, instr.pc_offset9);
        let address: u16 = self.memory[pointer as usize];
        let value: u16 = self.memory[address as usize];
        self.set_register(instr.dr, value);
    }

    pub fn not(&mut self, instr: Not)
        requires
            old(self).wf(),
            instr.dr < 8,
            instr.sr1 < 8,
        ensures
            final(self).wf(),
            instr_rel(
                *old(self),
                old(self).pc,
                *final(self),
                Instruction::Not(instr),
                StepEffect::Proceed,
            ),
    {
        let val: u16 = !self.registers[instr.sr1 as usize];
        self.set_register(instr.dr, val);
    }

    pub fn store(&mut self, instr: Store)
        requires
            old(self).wf(),
            instr.sr < 8,
        ensures
            final(self).wf(),
            instr_rel(
                *old(self),
                old(self).pc,
                *final(self),
                Instruction::Store(instr),
                StepEffect::Proceed,
            ),
    {
        let address: u16 = wrapping_add_u16(self.pc, instr.pc_offset9);
        self.memory[address as usize] = self.registers[instr.sr as usize];
    }

    pub fn store_base_offset(&mut self, instr: StoreBaseOffset)
        requires
            old(self).wf(),
            instr.sr < 8,
            instr.base_r < 8,
        ensures
            final(self).wf(),
            instr_rel(
                *old(self),
                old(self).pc,
                *final(self),
                Instruction::StoreBaseOffset(instr),
                StepEffect::Proceed,
            ),
    {
        let address: u16 = wrapping_add_u16(
            self.registers[instr.base_r as usize],
            instr.pc_offset6,
        );
        self.memory[address as usize] = self.registers[instr.sr as usize];
    }

    pub fn store_indirect(&mut self, instr: StoreIndirect)
        requires
            old(self).wf(),
            instr.sr < 8,
        ensures
            final(self).wf(),
            instr_rel(
                *old(self),
                old(self).pc,
                *final(self),
                Instruction::StoreIndirect(instr),
                StepEffect::Proceed,
            ),
    {
        let indirect_address: u16 = wrapping_add_u16(self.pc, instr.pc_offset9);
        let address: u16 = self.memory[indirect_address as usize];
        self.memory[address as usize] = self.registers[instr.sr as usize];
    }

    /// Gathers the bytes of the string register 0 points at, one character
    /// per word.
    fn collect_puts(&self) -> (r: Vec<u8>)
        requires
            self.wf(),
        ensures
            r@ == puts_bytes(self.memory@, self.registers@[0] as int),
    {
        let start: usize = self.registers[0] as usize;
        let mut addr: usize = start;
        let mut out: Vec<u8> = Vec::new();
        while addr < MAX_MEMORY_SIZE && self.memory[addr] != 0
            invariant
                self.wf(),
                start <= addr <= MAX_MEMORY_SIZE,
                out@ + puts_bytes(self.memory@, addr as int) == puts_bytes(
                    self.memory@,
                    start as int,
                ),
            decreases MAX_MEMORY_SIZE - addr,
        {
            let w: u16 = self.memory[addr];
            let ghost before = out@;
            out.push((w & 0xFF) as u8);
            proof {
                assert(puts_bytes(self.memory@, addr as int) == seq![(w & 0xFF) as u8]
                    + puts_bytes(self.memory@, addr as int + 1));
                assert(out@ + puts_bytes(self.memory@, addr as int + 1) =~= before + puts_bytes(
                    self.memory@,
                    addr as int,
                ));
            }
            addr = addr + 1;
        }
        proof {
            assert(puts_bytes(self.memory@, addr as int) =~= Seq::<u8>::empty());
            assert(out@ + Seq::<u8>::empty() =~= out@);
        }
        out
    }

    /// Gathers the bytes of the packed string register 0 points at, two
    /// characters per word, low byte first, stopping at a zero word or a zero
    /// high byte.
    fn collect_putsp(&self) -> (r: Vec<u8>)
        requires
            self.wf(),
        ensures
            r@ == putsp_bytes(self.memory@, self.registers@[0] as int),
    {
        let start: usize = self.registers[0] as usize;
        let mut addr: usize = start;
        let mut out: Vec<u8> = Vec::new();
        let mut done: bool = false;
        while !done && addr < MAX_MEMORY_SIZE && self.memory[addr] != 0
            invariant
                self.wf(),
                start <= addr <= MAX_MEMORY_SIZE,
                done ==> out@ == putsp_bytes(self.memory@, start as int),
                !done ==> out@ + putsp_bytes(self.memory@, addr as int) == putsp_bytes(
                    self.memory@,
                    start as int,
                ),
            decreases (if done { 0int } else { 1int }), MAX_MEMORY_SIZE - addr,
        {
            let w: u16 = self.memory[addr];
            let lo: u8 = (w & 0xFF) as u8;
            let hi: u8 = (w >> 8) as u8;
            let ghost before = out@;
            out.push(lo);
            if hi == 0 {
                proof {
                    assert(putsp_bytes(self.memory@, addr as int) == seq![lo]);
                    assert(out@ =~= before + putsp_bytes(self.memory@, addr as int));
                }
                done = true;
            } else {
                out.push(hi);
                proof {
                    assert(putsp_bytes(self.memory@, addr as int) == seq![lo, hi] + putsp_bytes(
                        self.memory@,
                        addr as int + 1,
                    ));
                    assert(out@ + putsp_bytes(self.memory@, addr as int + 1) =~= before
                        + putsp_bytes(self.memory@, addr as int));
                }
                addr = addr + 1;
            }
        }
        proof {
            if !done {
                assert(putsp_bytes(self.memory@, addr as int) =~= Seq::<u8>::empty());
                assert(out@ + Seq::<u8>::empty() =~= out@);
            }
        }
        out
    }

    /// Performs the state change of a trap and reports what it asks of the
    /// console: the bytes a printing service writes, the read an input
    /// service waits for, or the halt.
    pub fn trap(&mut self, instr: Trap) -> (r: StepEffect)
        requires
            old(self).wf(),
        ensures
            final(self).wf(),
            instr_rel(*old(self), old(self).pc, *final(self), Instruction::Trap(instr), r),
    {
        match instr.vect8 {
            TrapCode::GetC => StepEffect::ReadInput,
            TrapCode::Halt => {
                self.running = false;
                StepEffect::Stopped
            },
            TrapCode::In => StepEffect::PromptInput,
            TrapCode::Out => {
                let mut bytes: Vec<u8> = Vec::new();
                bytes.push((self.registers[0] & 0xFF) as u8);
                proof {
                    assert(bytes@ =~= seq![(old(self).registers@[0] & 0xFF) as u8]);
                }
                StepEffect::WriteOutput(bytes)
            },
            TrapCode::Puts => StepEffect::WriteOutput(self.collect_puts()),
            TrapCode::PutsP => StepEffect::WriteOutput(self.collect_putsp()),
        }
    }

    /// Hands the machine the byte an input trap asked for: it lands in
    /// register 0, and nothing else changes. The condition flag is not
    /// recomputed, as input is no register-writing instruction.
    pub fn provide_input(&mut self, byte: u8)
        requires
            old(self).wf(),
        ensures
            final(self).wf(),
            final(self).registers@ == old(self).registers@.update(0, byte as u16),
            final(self).memory == old(self).memory,
            final(self).pc == old(self).pc,
            final(self).cond == old(self).cond,
            final(self).running == old(self).running,
    {
        self.registers[0] = byte as u16;
    }

    /// Fetches the word at the program counter, advances the counter by one
    /// (wrapping), decodes, and executes. A word that decodes to no
    /// instruction aborts the step with its decode error and changes nothing
    /// but the advanced counter.
    pub fn step(&mut self) -> (r: Result<StepEffect, DecodeError>)
        requires
            old(self).wf(),
        ensures
            final(self).wf(),
            ({
                let w = old(self).memory@[old(self).pc as int];
                let pc1 = wadd(old(self).pc, 1);
                match Instruction::spec_decode(w) {
                    Result::Ok(i) => r matches Result::Ok(eff) && instr_rel(
                        *old(self),
                        pc1,
                        *final(self),
                        i,
                        eff,
                    ),
                    Result::Err(e) => r == Result::<StepEffect, DecodeError>::Err(e) && state_kept(
                        *old(self),
                        pc1,
                        *final(self),
                    ),
                }
            }),
    {
        let raw_instr: u16 = self.memory[self.pc as usize];
        self.pc = wrapping_add_u16(self.pc, 1);
        let instr: Instruction = match Instruction::decode(raw_instr) {
            Ok(instr) => instr,
            Err(e) => {
                return Err(e);
            },
        };
        match instr {
            Instruction::AddImmediate(instr) => {
                self.add_immediate(instr);
                Ok(StepEffect::Proceed)
            },
            Instruction::AddRegister(instr) => {
                self.add_register(instr);
                Ok(StepEffect::Proceed)
            },
            Instruction::AndImmediate(instr) => {
                self.and_immediate(instr);
                Ok(StepEffect::Proceed)
            },
            Instruction::AndRegister(instr) => {
                self.and_register(instr);
                Ok(StepEffect::Proceed)
            },
            Instruction::Branch(instr) => {
                self.branch(instr);
                Ok(StepEffect::Proceed)
            },
            Instruction::Jump(instr) => {
                self.jump(instr);
                Ok(StepEffect::Proceed)
            },
            Instruction::JumpSubRoutineOffset(instr) => {
                self.jump_subroutine_offset(instr);
                Ok(StepEffect::Proceed)
            },
            Instruction::JumpSubRoutineRegister(instr) => {
                self.jump_subroutine_register(instr);
                Ok(StepEffect::Proceed)
            },
            Instruction::Load(instr) => {
                self.load(instr);
                Ok(StepEffect::Proceed)
            },
            Instruction::LoadBaseOffset(instr) => {
                self.load_base_offset(instr);
                Ok(StepEffect::Proceed)
            },
            Instruction::LoadEffectiveAddress(instr) => {
                self.load_effective_address(instr);
                Ok(StepEffect::Proceed)
            },
            Instruction::LoadIndirect(instr) => {
                self.load_indirect(instr);
                Ok(StepEffect::Proceed)
            },
            Instruction::Not(instr) => {
                self.not(instr);
                Ok(StepEffect::Proceed)
            },
            Instruction::Store(instr) => {
                self.store(instr);
                Ok(StepEffect::Proceed)
            },
            Instruction::StoreBaseOffset(instr) => {
                self.store_base_offset(instr);
                Ok(StepEffect::Proceed)
            },
            Instruction::StoreIndirect(instr) => {
                self.store_indirect(instr);
                Ok(StepEffect::Proceed)
            },
            Instruction::Trap(instr) => {
                let eff = self.trap(instr);
                Ok(eff)
            },
        }
    }

    /// Raises the running flag and steps until the program halts, a trap
    /// needs the console, or `max_steps` instructions have executed. The
    /// budget exists so that every loop here provably terminates; a caller
    /// that wants the architecture's unbounded loop simply calls `run` again
    /// on a `StepLimit` exit, forever if need be.
    ///
    /// The whole call is `view_run` on the started machine: the state left
    /// behind, the bytes carried in the exit, and the exit's kind are exactly
    /// what iterated stepping computes. On a decode error the state change is
    /// still reported through `final`; the bytes written before the error
    /// have no place in the `Err` value and are dropped.
    #[verifier::loop_isolation(false)]
    pub fn run(&mut self, max_steps: usize) -> (r: Result<RunExit, DecodeError>)
        requires
            old(self).wf(),
        ensures
            final(self).wf(),
            ({
                let started = MachineView {
                    memory: old(self).memory@,
                    registers: old(self).registers@,
                    pc: old(self).pc,
                    cond: old(self).cond,
                    running: true,
                };
                let (mf, written, outcome) = view_run(started, max_steps as nat);
                &&& final(self)@ == mf
                &&& match r {
                    Result::Ok(exit) => match exit {
                        RunExit::Halted(v) => outcome == RunOutcome::Halted && v@ == written,
                        RunExit::InputNeeded(v) => outcome == RunOutcome::InputNeeded && v@
                            == written,
                        RunExit::PromptInputNeeded(v) => outcome == RunOutcome::PromptInputNeeded
                            && v@ == written,
                        RunExit::StepLimit(v) => outcome == RunOutcome::StepLimit && v@ == written,
                    },
                    Result::Err(e) => outcome == RunOutcome::Failed(e),
                }
            }),
            (r matches Result::Ok(e) && e matches RunExit::Halted(_)) ==> final(self).running
                == false,
    {
        self.running = true;
        let ghost started = self@;
        let mut out: Vec<u8> = Vec::new();
        let mut steps: usize = 0;
        proof {
            assert(started == (MachineView {
                memory: old(self).memory@,
                registers: old(self).registers@,
                pc: old(self).pc,
                cond: old(self).cond,
                running: true,
            }));
            assert(Seq::<u8>::empty() + view_run(started, max_steps as nat).1 =~= view_run(
                started,
                max_steps as nat,
            ).1);
        }
        while steps < max_steps
            invariant
                self.wf(),
                steps <= max_steps,
                ({
                    let (mf, written, outcome) = view_run(started, max_steps as nat);
                    let (mfc, rest, outc) = view_run(self@, (max_steps - steps) as nat);
                    mf == mfc && outcome == outc && written == out@ + rest
                }),
            decreases max_steps - steps,
        {
            let ghost fuel = (max_steps - steps) as nat;
            if !self.running {
                proof {
                    assert(view_run(self@, fuel) == (self@, Seq::<u8>::empty(), RunOutcome::Halted));
                    assert(out@ + Seq::<u8>::empty() =~= out@);
                }
                return Ok(RunExit::Halted(out));
            }
            let ghost pre = *self;
            let eff: StepEffect = match self.step() {
                Ok(eff) => eff,
                Err(e) => {
                    proof {
                        let pc1 = wadd(pre.pc, 1);
                        match Instruction::spec_decode(pre.memory@[pre.pc as int]) {
                            Result::Ok(_) => {
                                assert(false);
                            },
                            Result::Err(_) => {},
                        }
                        assert(self@ == kept_view(pre@, pc1));
                        assert(view_run(pre@, fuel) == (
                            self@,
                            Seq::<u8>::empty(),
                            RunOutcome::Failed(e),
                        ));
                    }
                    return Err(e);
                },
            };
            proof {
                let pc1 = wadd(pre.pc, 1);
                match Instruction::spec_decode(pre.memory@[pre.pc as int]) {
                    Result::Ok(i) => {
                        lemma_instr_rel_view(pre, pc1, *self, i, eff);
                    },
                    Result::Err(_) => {
                        assert(false);
                    },
                }
            }
            match eff {
                StepEffect::Proceed => {
                    proof {
                        assert(view_run(pre@, fuel) == view_run(self@, (fuel - 1) as nat));
                    }
                },
                StepEffect::Stopped => {
                    proof {
                        assert(view_run(pre@, fuel) == view_run(self@, (fuel - 1) as nat));
                    }
                },
                StepEffect::WriteOutput(bytes) => {
                    let ghost written_now = bytes@;
                    let ghost out_before = out@;
                    let mut tail: Vec<u8> = bytes;
                    out.append(&mut tail);
                    proof {
                        let (mfc, rest, outc) = view_run(self@, (fuel - 1) as nat);
                        assert(view_run(pre@, fuel) == (mfc, written_now + rest, outc));
                        assert(out@ + rest =~= out_before + (written_now + rest));
                    }
                },
                StepEffect::ReadInput => {
                    proof {
                        assert(view_run(pre@, fuel) == (
                            self@,
                            Seq::<u8>::empty(),
                            RunOutcome::InputNeeded,
                        ));
                        assert(out@ + Seq::<u8>::empty() =~= out@);
                    }
                    return Ok(RunExit::InputNeeded(out));
                },
                StepEffect::PromptInput => {
                    proof {
                        assert(view_run(pre@, fuel) == (
                            self@,
                            Seq::<u8>::empty(),
                            RunOutcome::PromptInputNeeded,
                        ));
                        assert(out@ + Seq::<u8>::empty() =~= out@);
                    }
                    return Ok(RunExit::PromptInputNeeded(out));
                },
            }
            steps = steps + 1;
        }
        proof {
            assert(out@ + Seq::<u8>::empty() =~= out@);
        }
        if !self.running {
            return Ok(RunExit::Halted(out));
        }
        Ok(RunExit::StepLimit(out))
    }
}

} // verus!
