//! Flash driver: unlock, sector erase and word-by-word programming, each as
//! the list of instructions it is made of.

use vstd::prelude::*;
use crate::registers::{
    Register, CTL_IDLE, CTL_LK, CTL_PER, CTL_PG, CTL_RESET, CTL_START, FLASH_KEY1, FLASH_KEY2,
    FLASH_LOCK, STAT_BUSY, STAT_ERRORS,
};
use crate::script::Instr;

verus! {

/// Number of instructions of the unlock.
pub const UNLOCK_LEN: usize = 3;

/// Number of instructions of a sector erase.
pub const ERASE_LEN: usize = 6;

/// Number of instructions of the controller reset.
pub const RESET_LEN: usize = 1;

/// Unlock: when the control register shows the lock bit, the two key words
/// go to the key register, first key first; otherwise nothing is written.
pub open spec fn unlock_script() -> Seq<Instr> {
    seq![
        Instr::SkipUnless { register: Register::FlashControl, mask: CTL_LK, count: 2 },
        Instr::Write { register: Register::FlashKey, value: FLASH_KEY1 },
        Instr::Write { register: Register::FlashKey, value: FLASH_KEY2 },
    ]
}

/// Controller reset: the control register gets its reset value, which also
/// re-arms the lock.
pub open spec fn reset_script() -> Seq<Instr> {
    seq![Instr::Write { register: Register::FlashControl, value: CTL_RESET }]
}

/// Sector erase: the page-erase command is set, the address goes to the
/// address register, the start bit is set, the busy flag is awaited, the
/// page-erase command is cleared, and at last the error flags decide: when
/// one is set, both are cleared by writing ones and the erase has failed.
/// The key register is left alone, so a failed erase does not lock.
pub open spec fn erase_script(adr: u32) -> Seq<Instr> {
    seq![
        Instr::Write { register: Register::FlashControl, value: CTL_PER },
        Instr::Write { register: Register::FlashAddress, value: adr },
        Instr::Modify { register: Register::FlashControl, clear: 0, set: CTL_START },
        Instr::WaitFor { register: Register::FlashStatus, mask: STAT_BUSY, expect: 0 },
        Instr::Write { register: Register::FlashControl, value: CTL_IDLE },
        Instr::FailIf {
            register: Register::FlashStatus,
            mask: STAT_ERRORS,
            recover: Register::FlashStatus,
            value: STAT_ERRORS,
        },
    ]
}

/// The word that four successive bytes make, least significant byte first.
pub open spec fn le_word(b0: u8, b1: u8, b2: u8, b3: u8) -> u32 {
    (b0 as int + 0x100 * (b1 as int) + 0x1_0000 * (b2 as int) + 0x100_0000 * (b3 as int)) as u32
}

/// The words held in the first `sz` bytes of `bytes`; a rest of fewer than
/// four bytes holds no word.
pub open spec fn le_words(bytes: Seq<u8>, sz: nat) -> Seq<u32> {
    Seq::new(
        sz / 4,
        |i: int| le_word(bytes[4 * i], bytes[4 * i + 1], bytes[4 * i + 2], bytes[4 * i + 3]),
    )
}

/// The three instructions that program word `k / 3`, by `k % 3`: the store,
/// the wait for the busy flag, and the test of the error flags, which on an
/// error locks the controller through the key register.
pub open spec fn program_word_instr(adr: u32, words: Seq<u32>, k: int) -> Instr {
    if k % 3 == 0 {
        Instr::Store { address: (adr + 4 * (k / 3)) as u32, word: words[k / 3] }
    } else if k % 3 == 1 {
        Instr::WaitFor { register: Register::FlashStatus, mask: STAT_BUSY, expect: 0 }
    } else {
        Instr::FailIf {
            register: Register::FlashStatus,
            mask: STAT_ERRORS,
            recover: Register::FlashKey,
            value: FLASH_LOCK,
        }
    }
}

/// Programming: the program command is set once, then each word is stored,
/// awaited and tested for errors, in the order of rising addresses from `adr`.
pub open spec fn program_script(adr: u32, words: Seq<u32>) -> Seq<Instr> {
    seq![Instr::Write { register: Register::FlashControl, value: CTL_PG }] + Seq::new(
        3 * words.len(),
        |k: int| program_word_instr(adr, words, k),
    )
}

/// The instruction of the unlock at position `pc`, if there is one.
pub fn unlock_instr(pc: usize) -> (r: Option<Instr>)
    ensures
        unlock_script().len() == UNLOCK_LEN,
        r == if pc < UNLOCK_LEN {
            Some(unlock_script()[pc as int])
        } else {
            None
        },
{
    if pc == 0 {
        Some(Instr::SkipUnless { register: Register::FlashControl, mask: CTL_LK, count: 2 })
    } else if pc == 1 {
        Some(Instr::Write { register: Register::FlashKey, value: FLASH_KEY1 })
    } else if pc == 2 {
        Some(Instr::Write { register: Register::FlashKey, value: FLASH_KEY2 })
    } else {
        None
    }
}

/// The instruction of the controller reset at position `pc`, if there is one.
pub fn reset_instr(pc: usize) -> (r: Option<Instr>)
    ensures
        reset_script().len() == RESET_LEN,
        r == if pc < RESET_LEN {
            Some(reset_script()[pc as int])
        } else {
            None
        },
{
    if pc == 0 {
        Some(Instr::Write { register: Register::FlashControl, value: CTL_RESET })
    } else {
        None
    }
}

/// The instruction of the erase of the sector at `adr` at position `pc`, if
/// there is one.
pub fn erase_instr(adr: u32, pc: usize) -> (r: Option<Instr>)
    ensures
        erase_script(adr).len() == ERASE_LEN,
        r == if pc < ERASE_LEN {
            Some(erase_script(adr)[pc as int])
        } else {
            None
        },
{
    if pc == 0 {
        Some(Instr::Write { register: Register::FlashControl, value: CTL_PER })
    } else if pc == 1 {
        Some(Instr::Write { register: Register::FlashAddress, value: adr })
    } else if pc == 2 {
        Some(Instr::Modify { register: Register::FlashControl, clear: 0, set: CTL_START })
    } else if pc == 3 {
        Some(Instr::WaitFor { register: Register::FlashStatus, mask: STAT_BUSY, expect: 0 })
    } else if pc == 4 {
        Some(Instr::Write { register: Register::FlashControl, value: CTL_IDLE })
    } else if pc == 5 {
        Some(
            Instr::FailIf {
                register: Register::FlashStatus,
                mask: STAT_ERRORS,
                recover: Register::FlashStatus,
                value: STAT_ERRORS,
            },
        )
    } else {
        None
    }
}

/// Reads the word at byte offset `at` of `buf`, least significant byte first.
pub fn read_word(buf: &[u8], at: usize) -> (w: u32)
    requires
        at + 4 <= buf@.len(),
    ensures
        w == le_word(buf@[at as int], buf@[at + 1], buf@[at + 2], buf@[at + 3]),
{
    let b0: u32 = buf[at] as u32;
    let b1: u32 = buf[at + 1] as u32;
    let b2: u32 = buf[at + 2] as u32;
    let b3: u32 = buf[at + 3] as u32;
    b0 + 0x100 * b1 + 0x1_0000 * b2 + 0x100_0000 * b3
}

/// The instruction at position `pc` of programming the first `sz` bytes of
/// `buf` to `adr`, if there is one.
pub fn program_instr(adr: u32, sz: u32, buf: &[u8], pc: usize) -> (r: Option<Instr>)
    requires
        sz <= buf@.len(),
        adr + sz <= 0x1_0000_0000,
    ensures
        program_script(adr, le_words(buf@, sz as nat)).len() == 1 + 3 * (sz as nat / 4),
        r == if pc < 1 + 3 * (sz as nat / 4) {
            Some(program_script(adr, le_words(buf@, sz as nat))[pc as int])
        } else {
            None
        },
{
    let count: usize = (sz / 4) as usize;
    if pc == 0 {
        return Some(Instr::Write { register: Register::FlashControl, value: CTL_PG });
    }
    let k: usize = pc - 1;
    let i: usize = k / 3;
    if i >= count {
        return None;
    }
    let phase: usize = k % 3;
    proof {
        let words = le_words(buf@, sz as nat);
        assert(words.len() == count);
        assert(0 <= k < 3 * words.len());
        assert(program_script(adr, words)[pc as int] == program_word_instr(adr, words, k as int));
        assert(4 * i + 4 <= sz);
    }
    if phase == 0 {
        let word: u32 = read_word(buf, 4 * i);
        let address: u32 = adr + 4 * (i as u32);
        Some(Instr::Store { address, word })
    } else if phase == 1 {
        Some(Instr::WaitFor { register: Register::FlashStatus, mask: STAT_BUSY, expect: 0 })
    } else {
        Some(
            Instr::FailIf {
                register: Register::FlashStatus,
                mask: STAT_ERRORS,
                recover: Register::FlashKey,
                value: FLASH_LOCK,
            },
        )
    }
}

} // verus!
