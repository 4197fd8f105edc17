//! The forward-only cursor over the entries of an open database.
//!
//! A cursor owns the engine's own iteration state and, beside it, a share of
//! the engine instance that this state reads from. The instance is therefore
//! closed only after the last cursor over it is gone, however early the handle
//! that made the cursor was dropped.
//!
//! A cursor is in one of two states. While it is `Positioned` it asks the
//! engine for the next entry and hands it on. The first time the engine has
//! none, the cursor becomes `Exhausted`, and from then on it answers
//! "no more entries" without asking the engine again.

use crate::key::BytesKey;
use std::marker::PhantomData;
use std::rc::Rc;
use std::sync::Arc;
use vstd::prelude::*;

verus! {

/// Where a cursor stands.
#[derive(Clone, Copy, Debug, PartialEq, Eq, Structural)]
pub enum CursorState {
    /// Before the first entry, or at an entry: the engine may have more.
    Positioned,
    /// Past the last entry. Nothing leads out of this state.
    Exhausted,
}

/// The state that follows `state` when the engine was asked and `found`
/// tells whether it had an entry. An exhausted cursor stays exhausted.
pub open spec fn step_state(state: CursorState, found: bool) -> CursorState {
    match state {
        CursorState::Exhausted => CursorState::Exhausted,
        CursorState::Positioned => if found {
            CursorState::Positioned
        } else {
            CursorState::Exhausted
        },
    }
}

/// What a cursor in `state` hands to its caller when `fetched` is on offer
/// from the engine: the offer itself while positioned, nothing once exhausted.
pub open spec fn step_output<T>(state: CursorState, fetched: Option<T>) -> Option<T> {
    match state {
        CursorState::Exhausted => None,
        CursorState::Positioned => fetched,
    }
}

/// The state of a cursor that started in `start` and was offered `answers`,
/// one per call: exhausted if it started so or if any answer was empty.
pub open spec fn state_after<T>(start: CursorState, answers: Seq<Option<T>>) -> CursorState {
    if start is Exhausted || exists|i: int| 0 <= i < answers.len() && answers[i] is None {
        CursorState::Exhausted
    } else {
        CursorState::Positioned
    }
}

/// What the call number `i` returns, for a cursor that started in `start`
/// and is offered `answers`, one per call.
pub open spec fn output_at<T>(start: CursorState, answers: Seq<Option<T>>, i: int) -> Option<T> {
    step_output(state_after(start, answers.take(i)), answers[i])
}

/// `state_after` is what stepping through the answers one by one arrives at.
pub proof fn lemma_state_after_steps<T>(start: CursorState, answers: Seq<Option<T>>, next: Option<T>)
    ensures
        state_after(start, Seq::<Option<T>>::empty()) == start,
        state_after(start, answers.push(next)) == step_state(
            state_after(start, answers),
            next is Some,
        ),
{
    let longer = answers.push(next);
    if exists|i: int| 0 <= i < answers.len() && answers[i] is None {
        let i = choose|i: int| 0 <= i < answers.len() && answers[i] is None;
        assert(longer[i] is None);
    }
    if next is None {
        assert(longer[answers.len() as int] is None);
    }
    if exists|i: int| 0 <= i < longer.len() && longer[i] is None {
        let i = choose|i: int| 0 <= i < longer.len() && longer[i] is None;
        if i < answers.len() {
            assert(answers[i] is None);
        }
    }
}

/// Exhaustion is final: once a call has returned "no more entries", every
/// later call returns the same, whatever the engine would have on offer.
pub proof fn lemma_exhaustion_is_final<T>(
    start: CursorState,
    answers: Seq<Option<T>>,
    i: int,
    j: int,
)
    requires
        0 <= i <= j < answers.len(),
        output_at(start, answers, i) is None,
    ensures
        output_at(start, answers, j) is None,
        state_after(start, answers.take(j + 1)) is Exhausted,
{
    let upto_i = answers.take(i);
    let upto_j = answers.take(j);
    let through_j = answers.take(j + 1);
    if start is Positioned {
        if state_after(start, upto_i) is Exhausted {
            let k = choose|k: int| 0 <= k < upto_i.len() && upto_i[k] is None;
            assert(through_j[k] is None);
            if i < j {
                assert(upto_j[k] is None);
            }
        } else {
            assert(answers[i] is None);
            assert(through_j[i] is None);
            if i < j {
                assert(upto_j[i] is None);
            }
        }
    }
}

/// A cursor that starts positioned hands on what the engine yields, entry
/// for entry and in the engine's order, for as long as the engine has
/// entries.
pub proof fn lemma_entries_pass_through<T>(answers: Seq<Option<T>>, i: int)
    requires
        0 <= i < answers.len(),
        forall|k: int| 0 <= k <= i ==> answers[k] is Some,
    ensures
        output_at(CursorState::Positioned, answers, i) == answers[i],
        state_after(CursorState::Positioned, answers.take(i + 1)) is Positioned,
{
}

/// What an engine iterator over `entries` answers to its first `calls`
/// calls: the entries in their order, then nothing.
pub open spec fn engine_answers<T>(entries: Seq<T>, calls: nat) -> Seq<Option<T>> {
    Seq::new(
        calls,
        |i: int|
            if i < entries.len() {
                Some(entries[i])
            } else {
                None
            },
    )
}

/// A cursor that starts positioned walks the whole of what its own engine
/// iterator holds: it returns every entry once, in the engine's order, and
/// after the last one it returns "no more entries" however often it is asked.
/// What it returns is fixed by the entries of its own iterator alone, so two
/// cursors over one engine each walk the whole range, in whatever order they
/// are advanced.
pub proof fn lemma_cursor_enumerates<T>(entries: Seq<T>, calls: nat, i: int)
    requires
        0 <= i < calls,
    ensures
        output_at(CursorState::Positioned, engine_answers(entries, calls), i) == if i
            < entries.len() {
            Some(entries[i])
        } else {
            None::<T>
        },
{
    let answers = engine_answers(entries, calls);
    if i < entries.len() {
        lemma_entries_pass_through(answers, i);
    } else {
        let first_end = entries.len() as int;
        assert(output_at(CursorState::Positioned, answers, first_end) is None) by {
            assert(answers[first_end] is None);
        }
        lemma_exhaustion_is_final(CursorState::Positioned, answers, first_end, i);
    }
}

/// A cursor over the entries of one engine instance `E`, with the engine's
/// iteration state `I`.
///
/// The fields are dropped in the order in which they stand here: the
/// iteration state goes first, the share of the engine instance after it.
pub struct PyIterator<E, I> {
    /// The engine's iteration state. It reads from the instance below.
    iter: I,
    /// The cursor's own share of the engine instance.
    db: Arc<E>,
    state: CursorState,
    /// Makes the cursor stay on the thread that made it: its iteration state
    /// has one owner and no lock.
    confined: PhantomData<Rc<()>>,
}

impl<E, I> PyIterator<E, I> {
    /// The engine instance that this cursor keeps alive.
    pub closed spec fn engine(&self) -> E {
        *self.db
    }

    /// The engine's iteration state.
    pub closed spec fn iterator(&self) -> I {
        self.iter
    }

    /// Where the cursor stands.
    pub closed spec fn state(&self) -> CursorState {
        self.state
    }

    /// A cursor before the first entry, over `iter`, that holds `db` alive.
    pub(crate) fn start(db: Arc<E>, iter: I) -> (cursor: Self)
        ensures
            cursor.engine() == *db,
            cursor.iterator() == iter,
            cursor.state() is Positioned,
    {
        PyIterator { iter, db, state: CursorState::Positioned, confined: PhantomData }
    }

    /// Whether the cursor is past the last entry.
    pub fn is_exhausted(&self) -> (b: bool)
        ensures
            b == (self.state() is Exhausted),
    {
        match self.state {
            CursorState::Exhausted => true,
            CursorState::Positioned => false,
        }
    }

    /// Takes what the engine answered, `Some` entry or `None` at the end, and
    /// returns what the caller is handed. A positioned cursor hands the
    /// answer on and is exhausted by an empty one. An exhausted cursor
    /// returns `None` and drops whatever was offered.
    pub fn settle(&mut self, fetched: Option<(BytesKey, Vec<u8>)>) -> (r: Option<(BytesKey, Vec<u8>)>)
        ensures
            r == step_output(old(self).state(), fetched),
            final(self).state() == step_state(old(self).state(), fetched is Some),
            final(self).engine() == old(self).engine(),
            final(self).iterator() == old(self).iterator(),
    {
        match self.state {
            CursorState::Exhausted => None,
            CursorState::Positioned => {
                if fetched.is_none() {
                    self.state = CursorState::Exhausted;
                }
                fetched
            },
        }
    }

    /// Moves to the next entry and returns it, or `None` when there is none.
    ///
    /// `fetch` asks the engine's iteration state for its next entry. It is
    /// called once while the cursor is positioned, and what it returns is
    /// what the caller gets. Once exhausted, the cursor returns `None`
    /// without calling `fetch`, so the engine is never asked to step past its
    /// end, and the iteration state is left as it was.
    pub fn advance<F>(&mut self, fetch: F) -> (r: Option<(BytesKey, Vec<u8>)>) where
        F: FnOnce(&mut I) -> Option<(BytesKey, Vec<u8>)>,

        requires
            old(self).state() is Positioned ==> forall|m: &mut I|
                *m == old(self).iterator() ==> #[trigger] fetch.requires((m,)),
        ensures
            final(self).engine() == old(self).engine(),
            final(self).state() == step_state(old(self).state(), r is Some),
            old(self).state() is Exhausted ==> r is None && final(self).iterator() == old(
                self,
            ).iterator(),
            old(self).state() is Positioned ==> exists|m: &mut I|
                *m == old(self).iterator() && *final(m) == final(self).iterator()
                    && #[trigger] fetch.ensures((m,), r),
    {
        match self.state {
            CursorState::Exhausted => self.settle(None),
            CursorState::Positioned => {
                let fetched = fetch(&mut self.iter);
                self.settle(fetched)
            },
        }
    }
}

} // verus!
