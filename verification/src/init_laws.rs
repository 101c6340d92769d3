//! What holds of every run of `Init`, whatever the hardware answers and
//! however long the clock controller takes.

use vstd::prelude::*;
use crate::clock::bring_up_script;
use crate::flash::unlock_script;
use crate::registers::{
    spec_any_set, spec_field_is, spec_modified, Register, CFG_PLL_SETUP, CFG_PLL_SETUP_FIELDS,
    CFG_SOURCE, CFG_SOURCE_STATUS, CLK_OSC_ENABLE, CLK_PLL_ENABLE, CTL_LK, FLASH_KEY1, FLASH_KEY2,
    SOURCE_OSCILLATOR, SOURCE_PLL, SOURCE_STATUS_PLL,
};
use crate::script::Action;
use crate::session::{init_script, run, start, step_spec, SessionView, Stage};
use crate::trace::{lemma_stores_push, lemma_writes_push, stores_of, writes_to};

verus! {

/// Where action `j` of `t` writes to the key register, it writes the first
/// key in answer to a read of the control register whose reply showed the
/// lock bit, or it writes the second key right after the first.
pub open spec fn key_write_in_order(t: Seq<Action>, replies: Seq<u32>, j: int) -> bool {
    t[j] matches Action::Write(Register::FlashKey, v) ==> j >= 1 && ((v == FLASH_KEY1 && t[j - 1]
        == Action::Read(Register::FlashControl) && spec_any_set(replies[j], CTL_LK)) || (v
        == FLASH_KEY2 && t[j - 1] == Action::Write(Register::FlashKey, FLASH_KEY1)))
}

/// Where action `j` of `t` writes the first key and an action follows, that
/// action writes the second key.
pub open spec fn second_key_follows(t: Seq<Action>, j: int) -> bool {
    t[j] == Action::Write(Register::FlashKey, FLASH_KEY1) && j + 1 < t.len() ==> t[j + 1]
        == Action::Write(Register::FlashKey, FLASH_KEY2)
}

/// Where action `j` of `t` reads the control register and an action follows,
/// that action writes the first key when the reply shows the lock bit, and
/// returns success when it does not.
pub open spec fn lock_bit_decides(t: Seq<Action>, replies: Seq<u32>, j: int) -> bool {
    t[j] == Action::Read(Register::FlashControl) && j + 1 < t.len() ==> t[j + 1] == (
    if spec_any_set(replies[j + 1], CTL_LK) {
        Action::Write(Register::FlashKey, FLASH_KEY1)
    } else {
        Action::Return(0)
    })
}

/// Where action `j` of `t` is a return, it returns success.
pub open spec fn returns_success(t: Seq<Action>, j: int) -> bool {
    t[j] is Return ==> t[j] == Action::Return(0)
}

/// Where action `j` of `t` reads the flash control register, the action
/// before it read the clock configuration, and the reply to that showed the
/// PLL as the clock source in use.
pub open spec fn unlock_follows_bring_up(t: Seq<Action>, replies: Seq<u32>, j: int) -> bool {
    t[j] == Action::Read(Register::FlashControl) ==> j >= 1 && t[j - 1] == Action::Read(
        Register::ClockConfig,
    ) && spec_field_is(replies[j], CFG_SOURCE_STATUS, SOURCE_STATUS_PLL)
}

/// What the words written to the clock control register do, in order: the
/// first enables the oscillator, the second switches the PLL off, the third
/// switches it on.
pub open spec fn clock_control_writes_ok(w: Seq<u32>) -> bool {
    &&& w.len() <= 3
    &&& (w.len() >= 1 ==> w[0] & CLK_OSC_ENABLE == CLK_OSC_ENABLE)
    &&& (w.len() >= 2 ==> w[1] & CLK_PLL_ENABLE == 0)
    &&& (w.len() >= 3 ==> w[2] & CLK_PLL_ENABLE == CLK_PLL_ENABLE)
}

/// What the words written to the clock configuration register do, in order:
/// the first selects the oscillator as clock source, the second holds the
/// PLL setup, the third selects the PLL as clock source.
pub open spec fn clock_config_writes_ok(w: Seq<u32>) -> bool {
    &&& w.len() <= 3
    &&& (w.len() >= 1 ==> w[0] & CFG_SOURCE == SOURCE_OSCILLATOR)
    &&& (w.len() >= 2 ==> w[1] & CFG_PLL_SETUP_FIELDS == CFG_PLL_SETUP)
    &&& (w.len() >= 3 ==> w[2] & CFG_SOURCE == SOURCE_PLL)
}

/// Number of writes to the clock control register once `pc` is reached.
spec fn control_writes_at(pc: int) -> int {
    if pc <= 0 {
        0
    } else if pc <= 4 {
        1
    } else if pc <= 6 {
        2
    } else {
        3
    }
}

/// Number of writes to the clock configuration register once `pc` is reached.
spec fn config_writes_at(pc: int) -> int {
    if pc <= 2 {
        0
    } else if pc <= 5 {
        1
    } else if pc <= 8 {
        2
    } else {
        3
    }
}

/// What `Init` has done by the time it stands at a given instruction.
spec fn init_inv(s: SessionView, t: Seq<Action>, replies: Seq<u32>) -> bool {
    let keys = writes_to(t, Register::FlashKey);
    let control = writes_to(t, Register::ClockControl);
    let config = writes_to(t, Register::ClockConfig);
    &&& s.script == init_script()
    &&& t.len() == replies.len()
    &&& 0 <= s.pc <= 13
    &&& match s.stage {
        Stage::Issue => s.pc == 0 || s.pc == 1 || s.pc == 3 || s.pc == 5 || s.pc == 6 || s.pc == 7
            || s.pc == 9 || s.pc == 12 || s.pc == 13,
        Stage::Reply => s.pc <= 10,
        Stage::Failing => false,
        Stage::Done(code) => code == 0 && s.pc == 13,
    }
    &&& control.len() == control_writes_at(s.pc)
    &&& config.len() == config_writes_at(s.pc)
    &&& clock_control_writes_ok(control)
    &&& clock_config_writes_ok(config)
    &&& (s.pc <= 10 ==> keys.len() == 0)
    &&& (s.pc == 12 ==> keys =~= seq![FLASH_KEY1])
    &&& (s.pc == 13 ==> keys.len() == 0 || keys =~= seq![FLASH_KEY1, FLASH_KEY2])
    &&& (s.pc == 9 && s.stage == Stage::Reply ==> t.len() >= 1 && t.last() == Action::Read(
        Register::ClockConfig,
    ))
    &&& (s.pc == 10 ==> t.len() >= 1 && t.last() == Action::Read(Register::FlashControl))
    &&& (t.len() >= 1 && t.last() == Action::Read(Register::FlashControl) ==> s.pc == 10 && s.stage
        == Stage::Reply)
    &&& (s.pc == 12 ==> t.len() >= 1 && t.last() == Action::Write(Register::FlashKey, FLASH_KEY1))
    &&& (t.len() >= 1 && t.last() == Action::Write(Register::FlashKey, FLASH_KEY1) ==> s.pc == 12)
    &&& stores_of(t).len() == 0
    &&& (forall|j: int| 0 <= j < t.len() ==> #[trigger] key_write_in_order(t, replies, j))
    &&& (forall|j: int| 0 <= j < t.len() ==> #[trigger] second_key_follows(t, j))
    &&& (forall|j: int| 0 <= j < t.len() ==> #[trigger] lock_bit_decides(t, replies, j))
    &&& (forall|j: int| 0 <= j < t.len() ==> #[trigger] returns_success(t, j))
    &&& (forall|j: int| 0 <= j < t.len() ==> #[trigger] unlock_follows_bring_up(t, replies, j))
}

proof fn lemma_init_script()
    ensures
        init_script().len() == 13,
        init_script() =~= seq![
            bring_up_script()[0],
            bring_up_script()[1],
            bring_up_script()[2],
            bring_up_script()[3],
            bring_up_script()[4],
            bring_up_script()[5],
            bring_up_script()[6],
            bring_up_script()[7],
            bring_up_script()[8],
            bring_up_script()[9],
            unlock_script()[0],
            unlock_script()[1],
            unlock_script()[2],
        ],
{
}

proof fn lemma_modified_bits(x: u32)
    ensures
        spec_modified(x, 0, CLK_OSC_ENABLE) & CLK_OSC_ENABLE == CLK_OSC_ENABLE,
        spec_modified(x, CLK_PLL_ENABLE, 0) & CLK_PLL_ENABLE == 0,
        spec_modified(x, 0, CLK_PLL_ENABLE) & CLK_PLL_ENABLE == CLK_PLL_ENABLE,
        spec_modified(x, CFG_SOURCE, SOURCE_OSCILLATOR) & CFG_SOURCE == SOURCE_OSCILLATOR,
        spec_modified(x, CFG_PLL_SETUP_FIELDS, CFG_PLL_SETUP) & CFG_PLL_SETUP_FIELDS
            == CFG_PLL_SETUP,
        spec_modified(x, CFG_SOURCE, SOURCE_PLL) & CFG_SOURCE == SOURCE_PLL,
{
    assert(((x & !0u32) | 0x0000_0001u32) & 0x0000_0001u32 == 0x0000_0001u32) by (bit_vector);
    assert(((x & !0x0100_0000u32) | 0u32) & 0x0100_0000u32 == 0u32) by (bit_vector);
    assert(((x & !0u32) | 0x0100_0000u32) & 0x0100_0000u32 == 0x0100_0000u32) by (bit_vector);
    assert(((x & !0x0000_0003u32) | 0u32) & 0x0000_0003u32 == 0u32) by (bit_vector);
    assert(((x & !0x203D_3FF0u32) | 0x2028_0400u32) & 0x203D_3FF0u32 == 0x2028_0400u32)
        by (bit_vector);
    assert(((x & !0x0000_0003u32) | 0x0000_0002u32) & 0x0000_0003u32 == 0x0000_0002u32)
        by (bit_vector);
}

proof fn lemma_init_step(s: SessionView, t: Seq<Action>, replies: Seq<u32>, reply: u32)
    requires
        init_inv(s, t, replies),
    ensures
        init_inv(step_spec(s, reply).0, t.push(step_spec(s, reply).1), replies.push(reply)),
{
    let next = step_spec(s, reply);
    let n = next.0;
    let a = next.1;
    let t2 = t.push(a);
    let r2 = replies.push(reply);
    lemma_init_script();
    lemma_modified_bits(reply);
    lemma_writes_push(t, a, Register::FlashKey);
    lemma_writes_push(t, a, Register::ClockControl);
    lemma_writes_push(t, a, Register::ClockConfig);
    lemma_stores_push(t, a);
    assert forall|j: int| 0 <= j < t2.len() implies #[trigger] key_write_in_order(t2, r2, j) by {
        if j < t.len() {
            assert(key_write_in_order(t, replies, j));
        }
    }
    assert forall|j: int| 0 <= j < t2.len() implies #[trigger] second_key_follows(t2, j) by {
        if j < t.len() {
            assert(second_key_follows(t, j));
        }
    }
    assert forall|j: int| 0 <= j < t2.len() implies #[trigger] lock_bit_decides(t2, r2, j) by {
        if j < t.len() {
            assert(lock_bit_decides(t, replies, j));
        }
    }
    assert forall|j: int| 0 <= j < t2.len() implies #[trigger] returns_success(t2, j) by {
        if j < t.len() {
            assert(returns_success(t, j));
        }
    }
    assert forall|j: int| 0 <= j < t2.len() implies #[trigger] unlock_follows_bring_up(
        t2,
        r2,
        j,
    ) by {
        if j < t.len() {
            assert(unlock_follows_bring_up(t, replies, j));
        }
    }
}

proof fn lemma_init_inv(replies: Seq<u32>)
    ensures
        init_inv(run(start(init_script()), replies).0, run(start(init_script()), replies).1, replies),
    decreases replies.len(),
{
    let s0 = start(init_script());
    if replies.len() > 0 {
        let before = run(s0, replies.drop_last());
        let reply = replies.last();
        lemma_init_inv(replies.drop_last());
        lemma_init_step(before.0, before.1, replies.drop_last(), reply);
        assert(replies.drop_last().push(reply) =~= replies);
    } else {
        assert(run(s0, replies) == (s0, Seq::<Action>::empty()));
    }
}

/// The unlock sequence is written in order, and only when the lock bit is
/// set: in any run of `Init` the key register receives nothing, or the first
/// key, or the first key and then the second. The first key is written only
/// in answer to a read of the control register that showed the lock bit, and
/// the second key follows it at once; a read that shows the lock bit clear is
/// followed by the return. `Init` never fails and stores nothing to flash; by
/// the time it returns, the key register has received either nothing or both
/// keys.
pub proof fn init_unlocks_only_when_locked(replies: Seq<u32>)
    ensures
        ({
            let s = run(start(init_script()), replies).0;
            let t = run(start(init_script()), replies).1;
            let keys = writes_to(t, Register::FlashKey);
            &&& t.len() == replies.len()
            &&& (keys == Seq::<u32>::empty() || keys == seq![FLASH_KEY1] || keys == seq![
                FLASH_KEY1,
                FLASH_KEY2,
            ])
            &&& (s.stage is Done ==> s.stage == Stage::Done(0) && (keys == Seq::<u32>::empty()
                || keys == seq![FLASH_KEY1, FLASH_KEY2]))
            &&& forall|j: int| 0 <= j < t.len() ==> #[trigger] key_write_in_order(t, replies, j)
            &&& forall|j: int| 0 <= j < t.len() ==> #[trigger] second_key_follows(t, j)
            &&& forall|j: int| 0 <= j < t.len() ==> #[trigger] lock_bit_decides(t, replies, j)
            &&& forall|j: int| 0 <= j < t.len() ==> #[trigger] returns_success(t, j)
            &&& stores_of(t) == Seq::<(u32, u32)>::empty()
        }),
{
    lemma_init_inv(replies);
    let t = run(start(init_script()), replies).1;
    let keys = writes_to(t, Register::FlashKey);
    if keys.len() == 0 {
        assert(keys =~= Seq::<u32>::empty());
    }
    assert(stores_of(t) =~= Seq::<(u32, u32)>::empty());
}

/// The bring-up runs in its order and is over before the unlock begins: in
/// any run of `Init` the clock control register receives at most three
/// words, which enable the oscillator, switch the PLL off and switch it on,
/// and the clock configuration register receives at most three words, which
/// select the oscillator, hold the PLL setup and select the PLL. The flash
/// control register is read only right after a read of the clock
/// configuration that showed the PLL as the clock source in use. By the time
/// `Init` returns, all six words have been written.
pub proof fn init_brings_up_clock(replies: Seq<u32>)
    ensures
        ({
            let s = run(start(init_script()), replies).0;
            let t = run(start(init_script()), replies).1;
            let control = writes_to(t, Register::ClockControl);
            let config = writes_to(t, Register::ClockConfig);
            &&& clock_control_writes_ok(control)
            &&& clock_config_writes_ok(config)
            &&& (s.stage is Done ==> control.len() == 3 && config.len() == 3)
            &&& forall|j: int|
                0 <= j < t.len() ==> #[trigger] unlock_follows_bring_up(t, replies, j)
        }),
{
    lemma_init_inv(replies);
}

} // verus!
