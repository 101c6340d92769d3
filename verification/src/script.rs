//! The instructions an operation is made of, and the bus actions they
//! turn into.
//!
//! An operation of the driver is a fixed list of instructions. Each
//! instruction stands for one pattern of register traffic: a plain write, a
//! read-modify-write, a busy-poll, a word store to flash, or a read followed
//! by a decision.

use vstd::prelude::*;
use crate::registers::{spec_modified, Register};

verus! {

/// One instruction of an operation.
#[derive(Clone, Copy, Debug, PartialEq, Eq, Structural)]
pub enum Instr {
    /// Write `value` to the whole register; bits not named are written as 0.
    Write { register: Register, value: u32 },
    /// Read the register, then write it back with the bits under `clear`
    /// cleared and those under `set` set.
    Modify { register: Register, clear: u32, set: u32 },
    /// Read the register again and again until its field `mask` shows
    /// `expect`.
    WaitFor { register: Register, mask: u32, expect: u32 },
    /// Store one word to the target's flash memory.
    Store { address: u32, word: u32 },
    /// Read the register; when no bit of `mask` is set, pass over the next
    /// `count` instructions.
    SkipUnless { register: Register, mask: u32, count: usize },
    /// Read the register; when any bit of `mask` is set, write `value` to
    /// `recover` and end the operation with a failure.
    FailIf { register: Register, mask: u32, recover: Register, value: u32 },
}

/// What the driver asks its caller to do next.
#[derive(Clone, Copy, Debug, PartialEq, Eq, Structural)]
pub enum Action {
    /// Load the register and hand its value to the next step.
    Read(Register),
    /// Store the word to the register.
    Write(Register, u32),
    /// Store the word to the flash address.
    Store { address: u32, word: u32 },
    /// The operation is over; hand the status to the host (0 success, 1 failure).
    Return(i32),
}

impl Instr {
    /// Whether carrying out this instruction can ask for `action`: its own
    /// write or store, the read it begins with, the write that ends a
    /// read-modify-write, or the write that recovers from an error.
    pub open spec fn allows(self, action: Action) -> bool {
        match self {
            Instr::Write { register, value } => action == Action::Write(register, value),
            Instr::Store { address, word } => action == Action::Store { address, word },
            Instr::Modify { register, clear, set } => action == Action::Read(register) || exists|
                read: u32,
            |
                action == Action::Write(register, #[trigger] spec_modified(read, clear, set)),
            Instr::WaitFor { register, .. } => action == Action::Read(register),
            Instr::SkipUnless { register, .. } => action == Action::Read(register),
            Instr::FailIf { register, recover, value, .. } => action == Action::Read(register)
                || action == Action::Write(recover, value),
        }
    }
}

/// Whether `action` is a return or comes from instruction `i` of `script`.
pub open spec fn comes_from(script: Seq<Instr>, action: Action, i: int) -> bool {
    action is Return || (0 <= i < script.len() && script[i].allows(action))
}

/// A script is well formed when no skip reaches past its end.
pub open spec fn script_wf(script: Seq<Instr>) -> bool {
    forall|i: int|
        0 <= i < script.len() ==> (#[trigger] script[i] matches Instr::SkipUnless { count, .. } ==> i
            + 1 + count <= script.len())
}

} // verus!
