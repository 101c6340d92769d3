//! What can be observed of a session from outside: the words that reach a
//! register, and the words that reach flash.

use vstd::prelude::*;
use crate::registers::{spec_modified, Register};
use crate::script::{comes_from, Action, Instr};
use crate::session::{issue, run, step_spec, SessionView, Stage};

verus! {

/// The words written to `register` in the course of `t`, oldest first.
pub open spec fn writes_to(t: Seq<Action>, register: Register) -> Seq<u32>
    decreases t.len(),
{
    if t.len() == 0 {
        Seq::empty()
    } else {
        let before = writes_to(t.drop_last(), register);
        match t.last() {
            Action::Write(r, value) => if r == register {
                before.push(value)
            } else {
                before
            },
            _ => before,
        }
    }
}

/// The word stores to flash in the course of `t`, oldest first, each as
/// address and word.
pub open spec fn stores_of(t: Seq<Action>) -> Seq<(u32, u32)>
    decreases t.len(),
{
    if t.len() == 0 {
        Seq::empty()
    } else {
        let before = stores_of(t.drop_last());
        match t.last() {
            Action::Store { address, word } => before.push((address, word)),
            _ => before,
        }
    }
}

/// A write to `register` adds its word to what the register has received;
/// any other action adds nothing.
pub proof fn lemma_writes_push(t: Seq<Action>, action: Action, register: Register)
    ensures
        writes_to(t.push(action), register) == match action {
            Action::Write(r, value) => if r == register {
                writes_to(t, register).push(value)
            } else {
                writes_to(t, register)
            },
            _ => writes_to(t, register),
        },
{
    assert(t.push(action).drop_last() =~= t);
}

/// A store adds its address and word to what flash has received; any other
/// action adds nothing.
pub proof fn lemma_stores_push(t: Seq<Action>, action: Action)
    ensures
        stores_of(t.push(action)) == match action {
            Action::Store { address, word } => stores_of(t).push((address, word)),
            _ => stores_of(t),
        },
{
    assert(t.push(action).drop_last() =~= t);
}

/// Each step asks for exactly one action, the script never changes, and the
/// last action is a return exactly when the session is over, with the same
/// status.
pub proof fn lemma_run_shape(s: SessionView, replies: Seq<u32>)
    ensures
        run(s, replies).1.len() == replies.len(),
        run(s, replies).0.script == s.script,
        replies.len() > 0 ==> forall|code: i32|
            (run(s, replies).1.last() == Action::Return(code)) <==> (run(s, replies).0.stage
                == Stage::Done(code)),
    decreases replies.len(),
{
    if replies.len() > 0 {
        lemma_run_shape(s, replies.drop_last());
    }
}

/// A return is final: once a session has returned a status, every later step
/// returns the same status and asks for nothing else.
pub proof fn return_is_final(s: SessionView, replies: Seq<u32>, i: int, j: int, code: i32)
    requires
        0 <= i <= j < replies.len(),
        run(s, replies).1[i] == Action::Return(code),
    ensures
        run(s, replies).1[j] == Action::Return(code),
    decreases replies.len(),
{
    lemma_run_shape(s, replies);
    lemma_run_shape(s, replies.drop_last());
    if j < replies.len() - 1 {
        return_is_final(s, replies.drop_last(), i, j, code);
    } else if i < j {
        return_is_final(s, replies.drop_last(), i, j - 1, code);
        assert(replies.drop_last().len() > 0);
        assert(run(s, replies.drop_last()).1.last() == Action::Return(code));
    }
}

/// A session asks for nothing that its script does not hold: every action of
/// a run is a return, or comes from one of the instructions of the script.
pub proof fn actions_come_from_script(s: SessionView, replies: Seq<u32>, j: int)
    requires
        0 <= j < replies.len(),
    ensures
        exists|i: int| comes_from(s.script, run(s, replies).1[j], i),
    decreases replies.len(),
{
    lemma_run_shape(s, replies);
    lemma_run_shape(s, replies.drop_last());
    let t = run(s, replies).1;
    let before = run(s, replies.drop_last());
    if j < replies.len() - 1 {
        actions_come_from_script(s, replies.drop_last(), j);
        let i = choose|i: int| comes_from(s.script, before.1[j], i);
        assert(t[j] == before.1[j]);
        assert(comes_from(s.script, t[j], i));
    } else {
        lemma_step_comes_from_script(before.0, replies.last());
        let i = choose|i: int| comes_from(before.0.script, step_spec(before.0, replies.last()).1, i);
        assert(t[j] == step_spec(before.0, replies.last()).1);
        assert(comes_from(s.script, t[j], i));
    }
}

proof fn lemma_issue_comes_from_script(script: Seq<Instr>, pc: int)
    ensures
        comes_from(script, issue(script, pc).1, pc),
{
}

proof fn lemma_step_comes_from_script(s: SessionView, reply: u32)
    ensures
        exists|i: int| comes_from(s.script, step_spec(s, reply).1, i),
{
    let a = step_spec(s, reply).1;
    let script = s.script;
    lemma_issue_comes_from_script(script, s.pc);
    lemma_issue_comes_from_script(script, s.pc + 1);
    if s.stage == Stage::Reply && 0 <= s.pc < script.len() {
        match script[s.pc] {
            Instr::Modify { register, clear, set } => {
                assert(a == Action::Write(register, spec_modified(reply, clear, set)));
                assert(script[s.pc].allows(a));
                assert(comes_from(script, a, s.pc));
            },
            Instr::WaitFor { .. } => {
                if a == issue(script, s.pc + 1).1 {
                    assert(comes_from(script, a, s.pc + 1));
                } else {
                    assert(comes_from(script, a, s.pc));
                }
            },
            Instr::SkipUnless { count, .. } => {
                lemma_issue_comes_from_script(script, s.pc + 1 + count);
                if a == issue(script, s.pc + 1).1 {
                    assert(comes_from(script, a, s.pc + 1));
                } else {
                    assert(comes_from(script, a, s.pc + 1 + count));
                }
            },
            Instr::FailIf { .. } => {
                if a == issue(script, s.pc + 1).1 {
                    assert(comes_from(script, a, s.pc + 1));
                } else {
                    assert(comes_from(script, a, s.pc));
                }
            },
            _ => {
                assert(comes_from(script, a, s.pc));
            },
        }
    } else {
        assert(comes_from(script, a, s.pc));
    }
}

} // verus!
