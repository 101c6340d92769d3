//! What holds of every erase and of every controller reset, whatever the
//! hardware answers and however long the busy-poll lasts.

use vstd::prelude::*;
use crate::flash::{erase_script, reset_script};
use crate::registers::{
    spec_any_set, spec_field_is, spec_modified, Register, CTL_IDLE, CTL_PER, CTL_RESET, CTL_START,
    STAT_BUSY, STAT_ERRORS,
};
use crate::script::Action;
use crate::session::{run, start, step_spec, SessionView, Stage};
use crate::trace::{lemma_run_shape, lemma_stores_push, lemma_writes_push, stores_of, writes_to};

verus! {

/// Where action `j` of `t` clears the command bits of the control register,
/// the action before it read the status register, and the reply showed the
/// busy flag clear.
pub open spec fn idle_precedes_clear(t: Seq<Action>, replies: Seq<u32>, j: int) -> bool {
    t[j] == Action::Write(Register::FlashControl, CTL_IDLE) ==> j >= 1 && t[j - 1] == Action::Read(
        Register::FlashStatus,
    ) && spec_field_is(replies[j], STAT_BUSY, 0)
}

/// Where action `j` of `t` clears the error flags, the action before it read
/// the status register, and the reply showed an error flag.
pub open spec fn error_precedes_recovery(t: Seq<Action>, replies: Seq<u32>, j: int) -> bool {
    t[j] == Action::Write(Register::FlashStatus, STAT_ERRORS) ==> j >= 1 && t[j - 1]
        == Action::Read(Register::FlashStatus) && spec_any_set(replies[j], STAT_ERRORS)
}

/// Where action `j` of `t` returns, the action before it decides the status:
/// success follows a read of the status register whose reply showed no error
/// flag, failure follows the write that clears the error flags; or the
/// action before it was the same return.
pub open spec fn status_follows_flags(t: Seq<Action>, replies: Seq<u32>, j: int) -> bool {
    &&& (t[j] == Action::Return(0) ==> j >= 1 && (t[j - 1] == Action::Return(0) || (t[j - 1]
        == Action::Read(Register::FlashStatus) && !spec_any_set(replies[j], STAT_ERRORS))))
    &&& (t[j] == Action::Return(1) ==> j >= 1 && (t[j - 1] == Action::Return(1) || t[j - 1]
        == Action::Write(Register::FlashStatus, STAT_ERRORS)))
}

/// What an erase has done by the time it stands at a given instruction.
spec fn erase_inv(adr: u32, s: SessionView, t: Seq<Action>, replies: Seq<u32>) -> bool {
    let control = writes_to(t, Register::FlashControl);
    let address = writes_to(t, Register::FlashAddress);
    let status = writes_to(t, Register::FlashStatus);
    &&& s.script == erase_script(adr)
    &&& t.len() == replies.len()
    &&& writes_to(t, Register::FlashKey) =~= Seq::<u32>::empty()
    &&& stores_of(t) =~= Seq::<(u32, u32)>::empty()
    &&& 0 <= s.pc <= 6
    &&& s.pc != 4
    &&& match s.stage {
        Stage::Issue => s.pc == 0 || s.pc == 1 || s.pc == 2 || s.pc == 3 || s.pc == 5,
        Stage::Reply => (s.pc == 2 || s.pc == 3 || s.pc == 5) && t.len() >= 1 && t.last()
            == Action::Read(
            if s.pc == 2 {
                Register::FlashControl
            } else {
                Register::FlashStatus
            },
        ),
        Stage::Failing => s.pc == 5 && t.len() >= 1 && t.last() == Action::Write(
            Register::FlashStatus,
            STAT_ERRORS,
        ),
        Stage::Done(code) => t.len() >= 1 && t.last() == Action::Return(code) && ((s.pc == 5
            && code == 1) || (s.pc == 6 && code == 0)),
    }
    &&& (s.pc == 0 ==> control.len() == 0 && address.len() == 0)
    &&& (s.pc == 1 ==> control =~= seq![CTL_PER] && address.len() == 0)
    &&& (s.pc == 2 ==> control =~= seq![CTL_PER] && address =~= seq![adr])
    &&& (s.pc == 3 ==> control.len() == 2 && control[0] == CTL_PER && control[1] & CTL_START
        == CTL_START && address =~= seq![adr])
    &&& (s.pc >= 5 ==> control.len() == 3 && control[0] == CTL_PER && control[1] & CTL_START
        == CTL_START && control[2] == CTL_IDLE && address =~= seq![adr])
    &&& (s.stage == Stage::Failing || s.stage == Stage::Done(1) ==> status =~= seq![STAT_ERRORS])
    &&& (!(s.stage == Stage::Failing || s.stage == Stage::Done(1)) ==> status.len() == 0)
    &&& (forall|j: int| 0 <= j < t.len() ==> #[trigger] idle_precedes_clear(t, replies, j))
    &&& (forall|j: int| 0 <= j < t.len() ==> #[trigger] error_precedes_recovery(t, replies, j))
    &&& (forall|j: int| 0 <= j < t.len() ==> #[trigger] status_follows_flags(t, replies, j))
}

proof fn lemma_erase_step(adr: u32, s: SessionView, t: Seq<Action>, replies: Seq<u32>, reply: u32)
    requires
        erase_inv(adr, s, t, replies),
    ensures
        erase_inv(adr, step_spec(s, reply).0, t.push(step_spec(s, reply).1), replies.push(reply)),
{
    let next = step_spec(s, reply);
    let t2 = t.push(next.1);
    let r2 = replies.push(reply);
    lemma_writes_push(t, next.1, Register::FlashControl);
    lemma_writes_push(t, next.1, Register::FlashAddress);
    lemma_writes_push(t, next.1, Register::FlashStatus);
    lemma_writes_push(t, next.1, Register::FlashKey);
    lemma_stores_push(t, next.1);
    let script = erase_script(adr);
    assert(script.len() == 6);
    assert(((reply & !0u32) | CTL_START) & CTL_START == CTL_START) by (bit_vector);
    assert(((reply & !0u32) | CTL_START) != CTL_IDLE) by (bit_vector);
    assert(CTL_PER != CTL_IDLE);
    if s.stage == Stage::Reply && s.pc == 2 {
        assert(next.1 == Action::Write(
            Register::FlashControl,
            spec_modified(reply, 0, CTL_START),
        ));
    }
    assert forall|j: int| 0 <= j < t2.len() implies #[trigger] idle_precedes_clear(t2, r2, j) by {
        if j < t.len() {
            assert(idle_precedes_clear(t, replies, j));
        }
    }
    assert forall|j: int| 0 <= j < t2.len() implies #[trigger] error_precedes_recovery(
        t2,
        r2,
        j,
    ) by {
        if j < t.len() {
            assert(error_precedes_recovery(t, replies, j));
        }
    }
    assert forall|j: int| 0 <= j < t2.len() implies #[trigger] status_follows_flags(t2, r2, j) by {
        if j < t.len() {
            assert(status_follows_flags(t, replies, j));
        }
    }
}

proof fn lemma_erase_inv(adr: u32, replies: Seq<u32>)
    ensures
        erase_inv(
            adr,
            run(start(erase_script(adr)), replies).0,
            run(start(erase_script(adr)), replies).1,
            replies,
        ),
    decreases replies.len(),
{
    let s0 = start(erase_script(adr));
    if replies.len() > 0 {
        let before = run(s0, replies.drop_last());
        lemma_erase_inv(adr, replies.drop_last());
        lemma_erase_step(adr, before.0, before.1, replies.drop_last(), replies.last());
        assert(replies.drop_last().push(replies.last()) =~= replies);
    } else {
        assert(run(s0, replies) == (s0, Seq::<Action>::empty()));
    }
}

/// An erase leaves the page-erase command cleared, whether it succeeds or
/// fails: once the erase of the sector at `adr` has returned, the control
/// register has received exactly three words, the page-erase command, then
/// a word with the start bit, then a word in which page-erase is clear. The
/// sector address goes to the address register once, after the page-erase
/// command and before the start bit. Nothing is ever written to the key
/// register, so a failed erase does not lock, and no word is stored to
/// flash. The error flags are cleared exactly when the erase fails.
pub proof fn erase_sector_clears_page_erase(adr: u32, replies: Seq<u32>)
    ensures
        ({
            let s = run(start(erase_script(adr)), replies).0;
            let t = run(start(erase_script(adr)), replies).1;
            let control = writes_to(t, Register::FlashControl);
            let address = writes_to(t, Register::FlashAddress);
            &&& writes_to(t, Register::FlashKey) == Seq::<u32>::empty()
            &&& stores_of(t) == Seq::<(u32, u32)>::empty()
            &&& control.len() <= 3
            &&& (address.len() == 0 || address == seq![adr])
            &&& (address.len() == 1 ==> control.len() >= 1)
            &&& (control.len() >= 2 ==> address.len() == 1)
            &&& (s.stage is Done ==> {
                &&& control.len() == 3
                &&& control[0] == CTL_PER
                &&& control[1] & CTL_START == CTL_START
                &&& control.last() & CTL_PER == 0
                &&& address == seq![adr]
            })
            &&& (s.stage == Stage::Done(0) ==> writes_to(t, Register::FlashStatus)
                == Seq::<u32>::empty())
            &&& (s.stage == Stage::Done(1) ==> writes_to(t, Register::FlashStatus)
                == seq![STAT_ERRORS])
            &&& (s.stage matches Stage::Done(code) ==> code == 0 || code == 1)
        }),
{
    lemma_erase_inv(adr, replies);
    assert(CTL_IDLE & CTL_PER == 0) by (bit_vector);
    let t = run(start(erase_script(adr)), replies).1;
    let address = writes_to(t, Register::FlashAddress);
    if address.len() == 0 {
        assert(address =~= Seq::<u32>::empty());
    }
}

/// An erase waits and reports what it saw: the page-erase command is cleared
/// only in answer to a read of the status register that showed the busy flag
/// clear; the error flags are cleared, and failure returned, only in answer
/// to a read that showed an error flag; and success is returned only in
/// answer to a read that showed none.
pub proof fn erase_sector_waits_and_reports(adr: u32, replies: Seq<u32>)
    ensures
        ({
            let t = run(start(erase_script(adr)), replies).1;
            &&& t.len() == replies.len()
            &&& forall|j: int| 0 <= j < t.len() ==> #[trigger] idle_precedes_clear(t, replies, j)
            &&& forall|j: int|
                0 <= j < t.len() ==> #[trigger] error_precedes_recovery(t, replies, j)
            &&& forall|j: int| 0 <= j < t.len() ==> #[trigger] status_follows_flags(t, replies, j)
        }),
{
    lemma_erase_inv(adr, replies);
}

/// What a controller reset has done by the time it stands at a given
/// instruction.
spec fn reset_inv(s: SessionView, t: Seq<Action>) -> bool {
    &&& s.script == reset_script()
    &&& (t.len() == 0 ==> s.pc == 0 && s.stage == Stage::Issue)
    &&& (t.len() == 1 ==> s.pc == 1 && s.stage == Stage::Issue)
    &&& (t.len() >= 2 ==> s.pc == 1 && s.stage == Stage::Done(0))
    &&& (t.len() >= 1 ==> t[0] == Action::Write(Register::FlashControl, CTL_RESET))
    &&& (forall|j: int| 1 <= j < t.len() ==> t[j] == Action::Return(0))
    &&& writes_to(t, Register::FlashControl) =~= (if t.len() == 0 {
        Seq::<u32>::empty()
    } else {
        seq![CTL_RESET]
    })
    &&& writes_to(t, Register::FlashKey).len() == 0
    &&& stores_of(t).len() == 0
}

proof fn lemma_reset_inv(replies: Seq<u32>)
    ensures
        reset_inv(run(start(reset_script()), replies).0, run(start(reset_script()), replies).1),
    decreases replies.len(),
{
    let s0 = start(reset_script());
    if replies.len() > 0 {
        let before = run(s0, replies.drop_last());
        lemma_reset_inv(replies.drop_last());
        let next = step_spec(before.0, replies.last());
        lemma_writes_push(before.1, next.1, Register::FlashControl);
        lemma_writes_push(before.1, next.1, Register::FlashKey);
        lemma_stores_push(before.1, next.1);
    } else {
        assert(run(s0, replies) == (s0, Seq::<Action>::empty()));
    }
}

/// The controller reset is one write and cannot fail: the first action of
/// `UnInit` stores the reset value to the flash control register, and every
/// action after it returns success. Nothing else is written, whatever the
/// replies.
pub proof fn uninit_resets_control(replies: Seq<u32>)
    ensures
        ({
            let t = run(start(reset_script()), replies).1;
            &&& t.len() == replies.len()
            &&& (t.len() >= 1 ==> t[0] == Action::Write(Register::FlashControl, CTL_RESET))
            &&& (forall|j: int| 1 <= j < t.len() ==> t[j] == Action::Return(0))
            &&& (t.len() >= 1 ==> writes_to(t, Register::FlashControl) == seq![CTL_RESET])
            &&& writes_to(t, Register::FlashKey) == Seq::<u32>::empty()
            &&& stores_of(t) == Seq::<(u32, u32)>::empty()
        }),
{
    lemma_reset_inv(replies);
    lemma_run_shape(start(reset_script()), replies);
    let t = run(start(reset_script()), replies).1;
    assert(writes_to(t, Register::FlashKey) =~= Seq::<u32>::empty());
    assert(stores_of(t) =~= Seq::<(u32, u32)>::empty());
}

} // verus!
