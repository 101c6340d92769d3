//! What holds of every programming operation, whatever the hardware answers
//! and however long the busy-polls last.

use vstd::prelude::*;
use crate::flash::{le_words, program_script, program_word_instr};
use crate::registers::{
    spec_any_set, spec_field_is, Register, CTL_PG, FLASH_LOCK, STAT_BUSY, STAT_ERRORS,
};
use crate::script::{Action, Instr};
use crate::session::{run, start, step_spec, SessionView, Stage};
use crate::trace::{lemma_stores_push, lemma_writes_push, stores_of, writes_to};

verus! {

/// The stores that programming `words` to `adr` is made of: word `i` goes to
/// `adr + 4 * i`.
pub open spec fn expected_stores(adr: u32, words: Seq<u32>) -> Seq<(u32, u32)> {
    Seq::new(words.len(), |i: int| ((adr + 4 * i) as u32, words[i]))
}

/// Where action `j` of `t` is a store with an action after it, that action
/// is a read of the status register.
pub open spec fn poll_follows_store(t: Seq<Action>, j: int) -> bool {
    t[j] is Store && j + 1 < t.len() ==> t[j + 1] == Action::Read(Register::FlashStatus)
}

/// Where action `j` of `t` returns a failure, the action before it wrote the
/// lock word to the key register, or was itself the return of that failure.
pub open spec fn lock_precedes_failure(t: Seq<Action>, j: int) -> bool {
    t[j] == Action::Return(1) ==> j >= 1 && (t[j - 1] == Action::Return(1) || t[j - 1]
        == Action::Write(Register::FlashKey, FLASH_LOCK))
}

/// Where action `j` of `t` is a store, it is the first store, right after
/// the program command, or the two actions before it read the status
/// register: the reply to the first showed the busy flag clear, the reply to
/// the second showed no error flag.
pub open spec fn store_follows_idle(t: Seq<Action>, replies: Seq<u32>, j: int) -> bool {
    t[j] is Store ==> j >= 1 && (t[j - 1] == Action::Write(Register::FlashControl, CTL_PG) || (j
        >= 2 && t[j - 2] == Action::Read(Register::FlashStatus) && spec_field_is(
        replies[j - 1],
        STAT_BUSY,
        0,
    ) && t[j - 1] == Action::Read(Register::FlashStatus) && !spec_any_set(
        replies[j],
        STAT_ERRORS,
    )))
}

/// Where action `j` of `t` writes the lock word to the key register, the
/// action before it read the status register, and the reply showed an error
/// flag.
pub open spec fn error_precedes_lock(t: Seq<Action>, replies: Seq<u32>, j: int) -> bool {
    t[j] == Action::Write(Register::FlashKey, FLASH_LOCK) ==> j >= 1 && t[j - 1] == Action::Read(
        Register::FlashStatus,
    ) && spec_any_set(replies[j], STAT_ERRORS)
}

/// Where action `j` of `t` returns success, the action before it was the
/// same return, or the program command when there is no word to store, or a
/// read of the status register whose reply showed no error flag.
pub open spec fn success_follows_test(t: Seq<Action>, replies: Seq<u32>, j: int) -> bool {
    t[j] == Action::Return(0) ==> j >= 1 && (t[j - 1] == Action::Return(0) || t[j - 1]
        == Action::Write(Register::FlashControl, CTL_PG) || (t[j - 1] == Action::Read(
        Register::FlashStatus,
    ) && !spec_any_set(replies[j], STAT_ERRORS)))
}

/// What a programming operation has done by the time it stands at a given
/// instruction.
spec fn program_inv(
    adr: u32,
    words: Seq<u32>,
    s: SessionView,
    t: Seq<Action>,
    replies: Seq<u32>,
) -> bool {
    let len = 1 + 3 * words.len();
    let failed = s.stage == Stage::Failing || s.stage == Stage::Done(1);
    &&& s.script == program_script(adr, words)
    &&& t.len() == replies.len()
    &&& 0 <= s.pc <= len
    &&& (t.len() == 0 <==> s.pc == 0)
    &&& (t.len() >= 1 ==> t[0] == Action::Write(Register::FlashControl, CTL_PG))
    &&& writes_to(t, Register::FlashControl) =~= (if s.pc == 0 {
        Seq::<u32>::empty()
    } else {
        seq![CTL_PG]
    })
    &&& stores_of(t) =~= expected_stores(adr, words).take((s.pc + 1) / 3)
    &&& match s.stage {
        Stage::Issue => s.pc == 0 || (s.pc == 1 && t.len() == 1) || (s.pc > 1 && (s.pc - 1) % 3
            == 1),
        Stage::Reply => 1 <= s.pc < len && (s.pc - 1) % 3 != 0 && t.len() >= 1 && t.last()
            == Action::Read(Register::FlashStatus) && ((s.pc - 1) % 3 == 2 ==> t.len() >= 2 && t[t.len()
            - 2] == Action::Read(Register::FlashStatus) && spec_field_is(
            replies.last(),
            STAT_BUSY,
            0,
        )),
        Stage::Failing => 1 <= s.pc < len && (s.pc - 1) % 3 == 2 && t.last() == Action::Write(
            Register::FlashKey,
            FLASH_LOCK,
        ),
        Stage::Done(code) => t.len() >= 1 && t.last() == Action::Return(code) && ((code == 0
            && s.pc == len) || (code == 1 && 1 <= s.pc < len && (s.pc - 1) % 3 == 2)),
    }
    &&& writes_to(t, Register::FlashKey) =~= (if failed {
        seq![FLASH_LOCK]
    } else {
        Seq::<u32>::empty()
    })
    &&& (t.len() >= 1 && t.last() is Store ==> s.stage == Stage::Issue && s.pc >= 2 && (s.pc - 1)
        % 3 == 1)
    &&& (forall|j: int| 0 <= j < t.len() ==> #[trigger] poll_follows_store(t, j))
    &&& (forall|j: int| 0 <= j < t.len() ==> #[trigger] lock_precedes_failure(t, j))
    &&& (forall|j: int| 0 <= j < t.len() ==> #[trigger] store_follows_idle(t, replies, j))
    &&& (forall|j: int| 0 <= j < t.len() ==> #[trigger] error_precedes_lock(t, replies, j))
    &&& (forall|j: int| 0 <= j < t.len() ==> #[trigger] success_follows_test(t, replies, j))
}

proof fn lemma_program_step(
    adr: u32,
    words: Seq<u32>,
    s: SessionView,
    t: Seq<Action>,
    replies: Seq<u32>,
    reply: u32,
)
    requires
        adr + 4 * words.len() <= 0x1_0000_0000,
        program_inv(adr, words, s, t, replies),
    ensures
        program_inv(
            adr,
            words,
            step_spec(s, reply).0,
            t.push(step_spec(s, reply).1),
            replies.push(reply),
        ),
{
    let next = step_spec(s, reply);
    let t2 = t.push(next.1);
    let r2 = replies.push(reply);
    let script = program_script(adr, words);
    let len = 1 + 3 * words.len();
    lemma_writes_push(t, next.1, Register::FlashControl);
    lemma_writes_push(t, next.1, Register::FlashKey);
    lemma_stores_push(t, next.1);
    assert(script.len() == len);
    assert(script[0] == Instr::Write { register: Register::FlashControl, value: CTL_PG });
    assert forall|pc: int| 1 <= pc < len implies #[trigger] script[pc] == program_word_instr(
        adr,
        words,
        pc - 1,
    ) by {}
    let expected = expected_stores(adr, words);
    if next.1 is Store {
        // the store that begins a word: the session stood at it, or just before it
        let at = if s.stage == Stage::Issue {
            s.pc
        } else {
            s.pc + 1
        };
        assert(1 <= at < len && (at - 1) % 3 == 0);
        assert(script[at] == program_word_instr(adr, words, at - 1));
        let i = (at - 1) / 3;
        assert((at + 1) / 3 == i);
        assert((at + 2) / 3 == i + 1);
        assert(next.0.pc == at + 1);
        assert(expected.take(i + 1) =~= expected.take(i).push(expected[i]));
    } else {
        assert((next.0.pc + 1) / 3 == (s.pc + 1) / 3);
    }
    assert forall|j: int| 0 <= j < t2.len() implies #[trigger] poll_follows_store(t2, j) by {
        if j + 1 < t.len() {
            assert(poll_follows_store(t, j));
        }
    }
    assert forall|j: int| 0 <= j < t2.len() implies #[trigger] lock_precedes_failure(t2, j) by {
        if j < t.len() {
            assert(lock_precedes_failure(t, j));
        }
    }
    assert forall|j: int| 0 <= j < t2.len() implies #[trigger] store_follows_idle(t2, r2, j) by {
        if j < t.len() {
            assert(store_follows_idle(t, replies, j));
        }
    }
    assert forall|j: int| 0 <= j < t2.len() implies #[trigger] error_precedes_lock(t2, r2, j) by {
        if j < t.len() {
            assert(error_precedes_lock(t, replies, j));
        }
    }
    assert forall|j: int| 0 <= j < t2.len() implies #[trigger] success_follows_test(t2, r2, j) by {
        if j < t.len() {
            assert(success_follows_test(t, replies, j));
        }
    }
}

proof fn lemma_program_inv(adr: u32, words: Seq<u32>, replies: Seq<u32>)
    requires
        adr + 4 * words.len() <= 0x1_0000_0000,
    ensures
        program_inv(
            adr,
            words,
            run(start(program_script(adr, words)), replies).0,
            run(start(program_script(adr, words)), replies).1,
            replies,
        ),
    decreases replies.len(),
{
    let s0 = start(program_script(adr, words));
    if replies.len() > 0 {
        let before = run(s0, replies.drop_last());
        lemma_program_inv(adr, words, replies.drop_last());
        lemma_program_step(
            adr,
            words,
            before.0,
            before.1,
            replies.drop_last(),
            replies.last(),
        );
        assert(replies.drop_last().push(replies.last()) =~= replies);
    } else {
        assert(run(s0, replies) == (s0, Seq::<Action>::empty()));
    }
}

/// Programming stores the words in order, one word to each address, rising
/// by four from `adr`: at any moment the stores made so far are the first
/// ones of `expected_stores`, and once the operation has returned success
/// they are all of them, one for each four bytes of `sz`. The first action
/// sets the program command, and nothing else is ever written to the control
/// register. Each store is followed at once by a read of the status
/// register, the first busy-poll of that word.
pub proof fn program_page_stores_in_order(adr: u32, sz: u32, bytes: Seq<u8>, replies: Seq<u32>)
    requires
        adr + sz <= 0x1_0000_0000,
    ensures
        ({
            let words = le_words(bytes, sz as nat);
            let s = run(start(program_script(adr, words)), replies).0;
            let t = run(start(program_script(adr, words)), replies).1;
            let stores = stores_of(t);
            &&& words.len() == sz as nat / 4
            &&& stores.len() <= words.len()
            &&& stores == expected_stores(adr, words).take(stores.len() as int)
            &&& forall|i: int|
                0 <= i < stores.len() ==> #[trigger] stores[i] == ((adr + 4 * i) as u32, words[i])
            &&& forall|i: int, j: int|
                0 <= i < j < stores.len() ==> (#[trigger] stores[i]).0 < (#[trigger] stores[j]).0
            &&& (s.stage == Stage::Done(0) ==> stores == expected_stores(adr, words))
            &&& (t.len() >= 1 ==> t[0] == Action::Write(Register::FlashControl, CTL_PG)
                && writes_to(t, Register::FlashControl) == seq![CTL_PG])
            &&& forall|j: int| 0 <= j < t.len() ==> #[trigger] poll_follows_store(t, j)
        }),
{
    let words = le_words(bytes, sz as nat);
    lemma_program_inv(adr, words, replies);
    let expected = expected_stores(adr, words);
    assert(expected.take(words.len() as int) =~= expected);
}

/// A programming error locks the controller: a failure is returned only
/// right after a write of the lock word to the key register, and by then
/// that write is the only one the key register has received. A success
/// leaves the key register untouched.
pub proof fn program_page_locks_on_error(adr: u32, sz: u32, bytes: Seq<u8>, replies: Seq<u32>)
    requires
        adr + sz <= 0x1_0000_0000,
    ensures
        ({
            let words = le_words(bytes, sz as nat);
            let s = run(start(program_script(adr, words)), replies).0;
            let t = run(start(program_script(adr, words)), replies).1;
            &&& (s.stage matches Stage::Done(code) ==> code == 0 || code == 1)
            &&& (s.stage == Stage::Done(1) ==> writes_to(t, Register::FlashKey) == seq![FLASH_LOCK])
            &&& (s.stage == Stage::Done(0) ==> writes_to(t, Register::FlashKey)
                == Seq::<u32>::empty())
            &&& forall|j: int| 0 <= j < t.len() ==> #[trigger] lock_precedes_failure(t, j)
        }),
{
    let words = le_words(bytes, sz as nat);
    lemma_program_inv(adr, words, replies);
}

/// Programming waits for each word and stops at the first error: a word
/// other than the first is stored only after the status register was read
/// twice, showing the busy flag clear and then no error flag; the lock word
/// is written only in answer to a read that showed an error flag; and
/// success is returned only in answer to a read that showed none, or at once
/// when there is no word to store.
pub proof fn program_page_waits_for_each_word(
    adr: u32,
    sz: u32,
    bytes: Seq<u8>,
    replies: Seq<u32>,
)
    requires
        adr + sz <= 0x1_0000_0000,
    ensures
        ({
            let words = le_words(bytes, sz as nat);
            let t = run(start(program_script(adr, words)), replies).1;
            &&& t.len() == replies.len()
            &&& forall|j: int| 0 <= j < t.len() ==> #[trigger] store_follows_idle(t, replies, j)
            &&& forall|j: int| 0 <= j < t.len() ==> #[trigger] error_precedes_lock(t, replies, j)
            &&& forall|j: int| 0 <= j < t.len() ==> #[trigger] success_follows_test(t, replies, j)
        }),
{
    let words = le_words(bytes, sz as nat);
    lemma_program_inv(adr, words, replies);
}

} // verus!
