//! One host call as a session: the driver decides, its caller moves the
//! words.
//!
//! A session never touches the hardware. Each step names one bus action; the
//! caller performs it and, where it was a read, hands the value to the next
//! step. A busy-poll is the same read asked for again, for as long as the
//! hardware says "busy": a session has no timeout of its own.

use vstd::prelude::*;
use crate::clock::{bring_up_instr, bring_up_script, BRING_UP_LEN};
use crate::flash::{
    erase_instr, erase_script, le_words, program_instr, program_script, program_word_instr,
    reset_instr, reset_script, unlock_instr, unlock_script,
};
use crate::registers::{any_set, field_is, modified, spec_any_set, spec_field_is, spec_modified};
use crate::script::{script_wf, Action, Instr};

verus! {

/// The four operations a host can ask for.
pub enum Operation<'a> {
    /// Clock bring-up, then unlock.
    Init,
    /// Reset of the flash controller; the clocks stay as they are.
    UnInit,
    /// Erase of the sector that holds `adr`.
    EraseSector { adr: u32 },
    /// Programming of the first `sz` bytes of `buf` to `adr`.
    ProgramPage { adr: u32, sz: u32, buf: &'a [u8] },
}

/// The instructions of `Init`: the clock bring-up, then the unlock.
pub open spec fn init_script() -> Seq<Instr> {
    bring_up_script() + unlock_script()
}

impl<'a> Operation<'a> {
    /// The instructions the operation is made of.
    pub open spec fn script(&self) -> Seq<Instr> {
        match *self {
            Operation::Init => init_script(),
            Operation::UnInit => reset_script(),
            Operation::EraseSector { adr } => erase_script(adr),
            Operation::ProgramPage { adr, sz, buf } => program_script(
                adr,
                le_words(buf@, sz as nat),
            ),
        }
    }

    /// A programming operation stays inside its buffer and inside the
    /// address space.
    pub open spec fn wf(&self) -> bool {
        match *self {
            Operation::ProgramPage { adr, sz, buf } => sz <= buf@.len() && adr + sz
                <= 0x1_0000_0000,
            _ => true,
        }
    }

    /// The instruction at position `pc`, if there is one.
    pub fn instr(&self, pc: usize) -> (r: Option<Instr>)
        requires
            self.wf(),
        ensures
            self.script().len() <= usize::MAX,
            r == if pc < self.script().len() {
                Some(self.script()[pc as int])
            } else {
                None
            },
    {
        match self {
            Operation::Init => {
                proof {
                    assert(bring_up_script().len() == BRING_UP_LEN);
                    assert(unlock_script().len() == 3);
                }
                if pc < BRING_UP_LEN {
                    bring_up_instr(pc)
                } else {
                    unlock_instr(pc - BRING_UP_LEN)
                }
            },
            Operation::UnInit => reset_instr(pc),
            Operation::EraseSector { adr } => erase_instr(*adr, pc),
            Operation::ProgramPage { adr, sz, buf } => program_instr(*adr, *sz, *buf, pc),
        }
    }
}

/// Where a session stands between two steps.
#[derive(Clone, Copy, Debug, PartialEq, Eq, Structural)]
pub enum Stage {
    /// The next instruction has not begun.
    Issue,
    /// The current instruction has asked for a read and awaits its value.
    Reply,
    /// An error was met and the recovering write was asked for.
    Failing,
    /// The operation is over, with this status.
    Done(i32),
}

/// A session as a mathematical value.
pub struct SessionView {
    /// The instructions of the operation.
    pub script: Seq<Instr>,
    /// Position of the current instruction.
    pub pc: int,
    /// Where the session stands.
    pub stage: Stage,
}

/// A session that has not taken a step yet.
pub open spec fn start(script: Seq<Instr>) -> SessionView {
    SessionView { script, pc: 0, stage: Stage::Issue }
}

/// Begins the instruction at `pc`: a write or a store is asked for at once,
/// any other instruction asks for its read first; past the last instruction
/// the operation ends with success.
pub open spec fn issue(script: Seq<Instr>, pc: int) -> (SessionView, Action) {
    if 0 <= pc < script.len() {
        match script[pc] {
            Instr::Write { register, value } => (
                SessionView { script, pc: pc + 1, stage: Stage::Issue },
                Action::Write(register, value),
            ),
            Instr::Store { address, word } => (
                SessionView { script, pc: pc + 1, stage: Stage::Issue },
                Action::Store { address, word },
            ),
            Instr::Modify { register, .. } => (
                SessionView { script, pc, stage: Stage::Reply },
                Action::Read(register),
            ),
            Instr::WaitFor { register, .. } => (
                SessionView { script, pc, stage: Stage::Reply },
                Action::Read(register),
            ),
            Instr::SkipUnless { register, .. } => (
                SessionView { script, pc, stage: Stage::Reply },
                Action::Read(register),
            ),
            Instr::FailIf { register, .. } => (
                SessionView { script, pc, stage: Stage::Reply },
                Action::Read(register),
            ),
        }
    } else {
        (SessionView { script, pc, stage: Stage::Done(0) }, Action::Return(0))
    }
}

/// One step: the session after it, and the action it asks for. `reply` is
/// the value of the read that the step before asked for; after any other
/// action it is not looked at.
pub open spec fn step_spec(s: SessionView, reply: u32) -> (SessionView, Action) {
    match s.stage {
        Stage::Done(code) => (s, Action::Return(code)),
        Stage::Failing => (SessionView { stage: Stage::Done(1), ..s }, Action::Return(1)),
        Stage::Issue => issue(s.script, s.pc),
        Stage::Reply => {
            if 0 <= s.pc < s.script.len() {
                match s.script[s.pc] {
                    Instr::Modify { register, clear, set } => (
                        SessionView { pc: s.pc + 1, stage: Stage::Issue, ..s },
                        Action::Write(register, spec_modified(reply, clear, set)),
                    ),
                    Instr::WaitFor { register, mask, expect } => {
                        if spec_field_is(reply, mask, expect) {
                            issue(s.script, s.pc + 1)
                        } else {
                            (s, Action::Read(register))
                        }
                    },
                    Instr::SkipUnless { mask, count, .. } => {
                        if spec_any_set(reply, mask) {
                            issue(s.script, s.pc + 1)
                        } else {
                            issue(s.script, s.pc + 1 + count)
                        }
                    },
                    Instr::FailIf { mask, recover, value, .. } => {
                        if spec_any_set(reply, mask) {
                            (SessionView { stage: Stage::Failing, ..s }, Action::Write(recover, value))
                        } else {
                            issue(s.script, s.pc + 1)
                        }
                    },
                    _ => issue(s.script, s.pc),
                }
            } else {
                issue(s.script, s.pc)
            }
        },
    }
}

/// The session and the actions, oldest first, after one step for each of
/// `replies`: step `i` is handed `replies[i]` and asks for action `i`.
pub open spec fn run(s: SessionView, replies: Seq<u32>) -> (SessionView, Seq<Action>)
    decreases replies.len(),
{
    if replies.len() == 0 {
        (s, Seq::empty())
    } else {
        let before = run(s, replies.drop_last());
        let next = step_spec(before.0, replies.last());
        (next.0, before.1.push(next.1))
    }
}

/// A host call in progress.
pub struct Session<'a> {
    op: Operation<'a>,
    pc: usize,
    stage: Stage,
}

impl<'a> Session<'a> {
    #[verifier::type_invariant]
    spec fn inv(&self) -> bool {
        &&& self.op.wf()
        &&& self.pc <= self.op.script().len()
        &&& script_wf(self.op.script())
    }

    /// The session as a mathematical value.
    pub closed spec fn view(&self) -> SessionView {
        SessionView { script: self.op.script(), pc: self.pc as int, stage: self.stage }
    }

    /// Opens a session on `op`.
    pub fn new(op: Operation<'a>) -> (s: Session<'a>)
        requires
            op.wf(),
        ensures
            s@ == start(op.script()),
    {
        proof {
            lemma_scripts_wf(op);
        }
        Session { op, pc: 0, stage: Stage::Issue }
    }

    /// The status, once the operation is over.
    pub fn status(&self) -> (r: Option<i32>)
        ensures
            r == match self@.stage {
                Stage::Done(code) => Some(code),
                _ => None,
            },
    {
        match self.stage {
            Stage::Done(code) => Some(code),
            _ => None,
        }
    }

    fn issue_at(&mut self, pc: usize) -> (action: Action)
        requires
            pc <= old(self).op.script().len(),
        ensures
            (final(self)@, action) == issue(old(self)@.script, pc as int),
    {
        proof {
            use_type_invariant(&*self);
        }
        match self.op.instr(pc) {
            Some(Instr::Write { register, value }) => {
                self.pc = pc + 1;
                self.stage = Stage::Issue;
                Action::Write(register, value)
            },
            Some(Instr::Store { address, word }) => {
                self.pc = pc + 1;
                self.stage = Stage::Issue;
                Action::Store { address, word }
            },
            Some(Instr::Modify { register, .. }) => {
                self.pc = pc;
                self.stage = Stage::Reply;
                Action::Read(register)
            },
            Some(Instr::WaitFor { register, .. }) => {
                self.pc = pc;
                self.stage = Stage::Reply;
                Action::Read(register)
            },
            Some(Instr::SkipUnless { register, .. }) => {
                self.pc = pc;
                self.stage = Stage::Reply;
                Action::Read(register)
            },
            Some(Instr::FailIf { register, .. }) => {
                self.pc = pc;
                self.stage = Stage::Reply;
                Action::Read(register)
            },
            None => {
                self.pc = pc;
                self.stage = Stage::Done(0);
                Action::Return(0)
            },
        }
    }

    /// Takes one step and names the action to perform. `reply` is the value
    /// of the read that the step before asked for; after any other action,
    /// and at the first step, it is not looked at.
    pub fn step(&mut self, reply: u32) -> (action: Action)
        ensures
            (final(self)@, action) == step_spec(old(self)@, reply),
    {
        proof {
            use_type_invariant(&*self);
        }
        let pc: usize = self.pc;
        match self.stage {
            Stage::Done(code) => Action::Return(code),
            Stage::Failing => {
                self.stage = Stage::Done(1);
                Action::Return(1)
            },
            Stage::Issue => self.issue_at(pc),
            Stage::Reply => {
                match self.op.instr(pc) {
                    Some(Instr::Modify { register, clear, set }) => {
                        self.pc = pc + 1;
                        self.stage = Stage::Issue;
                        Action::Write(register, modified(reply, clear, set))
                    },
                    Some(Instr::WaitFor { register, mask, expect }) => {
                        if field_is(reply, mask, expect) {
                            self.issue_at(pc + 1)
                        } else {
                            Action::Read(register)
                        }
                    },
                    Some(Instr::SkipUnless { mask, count, .. }) => {
                        if any_set(reply, mask) {
                            self.issue_at(pc + 1)
                        } else {
                            self.issue_at(pc + 1 + count)
                        }
                    },
                    Some(Instr::FailIf { mask, recover, value, .. }) => {
                        if any_set(reply, mask) {
                            self.stage = Stage::Failing;
                            Action::Write(recover, value)
                        } else {
                            self.issue_at(pc + 1)
                        }
                    },
                    _ => self.issue_at(pc),
                }
            },
        }
    }
}

/// No skip of any operation reaches past the end of its script.
pub proof fn lemma_scripts_wf(op: Operation)
    ensures
        script_wf(op.script()),
{
    match op {
        Operation::Init => {
            assert(bring_up_script().len() == 10);
            assert(unlock_script().len() == 3);
            assert forall|i: int| 0 <= i < init_script().len() implies (
            #[trigger] init_script()[i] matches Instr::SkipUnless { count, .. } ==> i + 1 + count
                <= init_script().len()) by {
                if i < 10 {
                    assert(init_script()[i] == bring_up_script()[i]);
                } else {
                    assert(init_script()[i] == unlock_script()[i - 10]);
                }
            }
        },
        Operation::UnInit => {},
        Operation::EraseSector { adr } => {},
        Operation::ProgramPage { adr, sz, buf } => {
            let words = le_words(buf@, sz as nat);
            let script = program_script(adr, words);
            assert forall|i: int| 0 <= i < script.len() implies (
            #[trigger] script[i] matches Instr::SkipUnless { count, .. } ==> i + 1 + count
                <= script.len()) by {
                if i >= 1 {
                    assert(script[i] == program_word_instr(adr, words, i - 1));
                }
            }
        },
    }
}

} // verus!
