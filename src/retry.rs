//! The retry adapter: one logical call over an engine that answers "would
//! block" instead of suspending.
//!
//! A [`RetryLoop`] is the state of one logical call. Whoever drives it calls
//! the engine while the loop is [`Phase::Calling`], hands the outcome to
//! [`RetryLoop::advance`], and does what the returned [`Step`] says:
//! deliver the final result, call the engine again at once, or suspend until
//! the readiness source reports an event, which it hands to
//! [`RetryLoop::resume`].
use crate::direction::{satisfies, wait_for, BlockDirection, Readiness, Wait};
use vstd::prelude::*;

verus! {

/// Where one logical call stands.
#[derive(Clone, Copy, Debug, PartialEq, Eq, Structural)]
pub enum Phase {
    /// The engine is to be called.
    Calling,
    /// Suspended until the readiness source reports the given readiness.
    Waiting(Wait),
    /// The call has resolved; nothing more is to be done.
    Finished,
}

/// The outcome of one call of the engine.
pub enum Attempt<R, E> {
    /// A definitive success.
    Done(R),
    /// A definitive failure of the call itself.
    Failed(E),
    /// The call would block; the engine reports the direction it is blocked on.
    Blocked(BlockDirection),
}

/// What the driver of a [`RetryLoop`] is to do next.
pub enum Step<R, E> {
    /// The logical call resolves with this result.
    Finish(Result<R, E>),
    /// Suspend until the readiness source reports the given readiness.
    Suspend(Wait),
    /// Call the engine again at once.
    Retry,
    /// The logical call fails: the engine would block without naming a
    /// direction, and did so right after the one immediate retry allowed.
    Stuck,
}

/// The state of one logical call.
///
/// When the engine would block without naming a direction, it is called again
/// once at once; if that call too would block without a direction, the call
/// ends in [`Step::Stuck`] rather than spinning.
#[derive(Clone, Copy, Debug, PartialEq, Eq, Structural)]
pub struct RetryLoop {
    pub phase: Phase,
    /// Whether the last attempt would block without naming a direction.
    pub spun: bool,
}

/// A would-block outcome that names no direction.
pub open spec fn is_undirected<R, E>(a: Attempt<R, E>) -> bool {
    a matches Attempt::Blocked(d) && d == BlockDirection::Neither
}

/// The state of a call that has not called the engine yet.
pub open spec fn fresh() -> RetryLoop {
    RetryLoop { phase: Phase::Calling, spun: false }
}

/// The transition on the outcome of one call of the engine.
pub open spec fn next<R, E>(s: RetryLoop, a: Attempt<R, E>) -> (RetryLoop, Step<R, E>) {
    match a {
        Attempt::Done(v) => (RetryLoop { phase: Phase::Finished, spun: false }, Step::Finish(Ok(v))),
        Attempt::Failed(e) => (RetryLoop { phase: Phase::Finished, spun: false }, Step::Finish(Err(e))),
        Attempt::Blocked(d) => match wait_for(d) {
            Option::Some(w) => (RetryLoop { phase: Phase::Waiting(w), spun: false }, Step::Suspend(w)),
            Option::None => if s.spun {
                (RetryLoop { phase: Phase::Finished, spun: true }, Step::Stuck)
            } else {
                (RetryLoop { phase: Phase::Calling, spun: true }, Step::Retry)
            },
        },
    }
}

/// The transition on a readiness event, and whether it ends the wait.
/// Outside [`Phase::Waiting`] events change nothing.
pub open spec fn wake(s: RetryLoop, ev: Readiness) -> (RetryLoop, bool) {
    match s.phase {
        Phase::Waiting(w) => if satisfies(w, ev) {
            (RetryLoop { phase: Phase::Calling, ..s }, true)
        } else {
            (s, false)
        },
        _ => (s, false),
    }
}

/// The state after the readiness events `evs`, in order.
pub open spec fn wake_all(s: RetryLoop, evs: Seq<Readiness>) -> RetryLoop
    decreases evs.len(),
{
    if evs.len() == 0 {
        s
    } else {
        wake_all(wake(s, evs[0]).0, evs.drop_first())
    }
}

/// The step on which a driver that answers every suspension with an event
/// that ends it stops, when the engine answers the attempts `atts` in order,
/// and how many times it suspended before; no step when `atts` runs out first.
pub open spec fn drive<R, E>(s: RetryLoop, atts: Seq<Attempt<R, E>>) -> (Option<Step<R, E>>, nat)
    decreases atts.len(),
{
    if atts.len() == 0 {
        (Option::None, 0)
    } else {
        let (s1, st) = next(s, atts[0]);
        match st {
            Step::Retry => drive(s1, atts.drop_first()),
            Step::Suspend(w) => {
                let (r, k) = drive(RetryLoop { phase: Phase::Calling, ..s1 }, atts.drop_first());
                (r, k + 1)
            },
            _ => (Option::Some(st), 0),
        }
    }
}

/// The final result that a definitive outcome stands for.
pub open spec fn definitive<R, E>(a: Attempt<R, E>) -> Result<R, E>
    recommends
        !(a is Blocked),
{
    match a {
        Attempt::Done(v) => Ok(v),
        Attempt::Failed(e) => Err(e),
        Attempt::Blocked(_) => arbitrary(),
    }
}

impl RetryLoop {
    /// A loop for a call that has not called the engine yet.
    pub fn new() -> (r: RetryLoop)
        ensures
            r == fresh(),
    {
        RetryLoop { phase: Phase::Calling, spun: false }
    }

    /// Whether the engine is to be called now.
    pub fn is_calling(&self) -> (r: bool)
        ensures
            r == (self.phase == Phase::Calling),
    {
        matches!(self.phase, Phase::Calling)
    }

    /// Takes the outcome of one call of the engine and says what to do next.
    pub fn advance<R, E>(&mut self, a: Attempt<R, E>) -> (st: Step<R, E>)
        requires
            old(self).phase == Phase::Calling,
        ensures
            (*final(self), st) == next(*old(self), a),
    {
        match a {
            Attempt::Done(v) => {
                *self = RetryLoop { phase: Phase::Finished, spun: false };
                Step::Finish(Ok(v))
            },
            Attempt::Failed(e) => {
                *self = RetryLoop { phase: Phase::Finished, spun: false };
                Step::Finish(Err(e))
            },
            Attempt::Blocked(d) => match d.wait() {
                Some(w) => {
                    *self = RetryLoop { phase: Phase::Waiting(w), spun: false };
                    Step::Suspend(w)
                },
                None => if self.spun {
                    *self = RetryLoop { phase: Phase::Finished, spun: true };
                    Step::Stuck
                } else {
                    *self = RetryLoop { phase: Phase::Calling, spun: true };
                    Step::Retry
                },
            },
        }
    }

    /// Takes a readiness event; returns whether it ends the current wait, in
    /// which case the engine is to be called again.
    pub fn resume(&mut self, ev: Readiness) -> (resumed: bool)
        ensures
            (*final(self), resumed) == wake(*old(self), ev),
    {
        match self.phase {
            Phase::Waiting(w) => if w.is_satisfied_by(ev) {
                self.phase = Phase::Calling;
                true
            } else {
                false
            },
            _ => false,
        }
    }
}

proof fn lemma_drive_from<R, E>(s: RetryLoop, atts: Seq<Attempt<R, E>>, n: int)
    requires
        s.phase == Phase::Calling,
        0 <= n < atts.len(),
        forall|i: int| 0 <= i < n ==> #[trigger] atts[i] is Blocked,
        !(atts[n] is Blocked),
        forall|i: int| 0 < i < n ==> !(is_undirected(atts[i - 1]) && is_undirected(#[trigger] atts[i])),
        s.spun ==> !is_undirected(atts[0]),
    ensures
        drive(s, atts).0 == Option::Some(Step::Finish(definitive(atts[n]))),
        drive(s, atts).1 <= n,
    decreases n,
{
    if n > 0 {
        let rest = atts.drop_first();
        assert(atts[0] is Blocked);
        assert forall|i: int| 0 <= i < n - 1 implies #[trigger] rest[i] is Blocked by {
            assert(rest[i] == atts[i + 1]);
        }
        assert forall|i: int| 0 < i < n - 1 implies !(is_undirected(rest[i - 1]) && is_undirected(
            #[trigger] rest[i],
        )) by {
            assert(rest[i - 1] == atts[i] && rest[i] == atts[i + 1]);
        }
        assert(rest[n - 1] == atts[n]);
        let s1 = next(s, atts[0]).0;
        if is_undirected(atts[0]) {
            assert(s1 == RetryLoop { phase: Phase::Calling, spun: true });
            assert(rest[0] == atts[1]);
            if n > 1 {
                assert(!(is_undirected(atts[0]) && is_undirected(atts[1])));
            }
            lemma_drive_from(s1, rest, n - 1);
        } else {
            lemma_drive_from(RetryLoop { phase: Phase::Calling, ..s1 }, rest, n - 1);
        }
    }
}

/// If the engine gives a definitive outcome after `n` would-block outcomes,
/// no two of them in a row without a direction, the logical call resolves with
/// exactly that outcome, after at most `n` suspensions.
pub proof fn lemma_resolves_with_definitive_outcome<R, E>(atts: Seq<Attempt<R, E>>, n: int)
    requires
        0 <= n < atts.len(),
        forall|i: int| 0 <= i < n ==> #[trigger] atts[i] is Blocked,
        !(atts[n] is Blocked),
        forall|i: int| 0 < i < n ==> !(is_undirected(atts[i - 1]) && is_undirected(#[trigger] atts[i])),
    ensures
        drive(fresh(), atts).0 == Option::Some(Step::Finish(definitive(atts[n]))),
        drive(fresh(), atts).1 <= n,
{
    lemma_drive_from(fresh(), atts, n);
}

proof fn lemma_wake_all_outside_wait(s: RetryLoop, evs: Seq<Readiness>)
    requires
        !(s.phase is Waiting),
    ensures
        wake_all(s, evs) == s,
    decreases evs.len(),
{
    if evs.len() > 0 {
        lemma_wake_all_outside_wait(s, evs.drop_first());
    }
}

/// A loop waiting for `w` stays as it is through events that do not satisfy
/// `w`, and is calling the engine again after any that does.
pub proof fn lemma_wake_all_waiting(s: RetryLoop, w: Wait, evs: Seq<Readiness>)
    requires
        s.phase == Phase::Waiting(w),
    ensures
        (exists|i: int| 0 <= i < evs.len() && satisfies(w, #[trigger] evs[i])) ==> wake_all(s, evs)
            == (RetryLoop { phase: Phase::Calling, ..s }),
        (forall|i: int| 0 <= i < evs.len() ==> !satisfies(w, #[trigger] evs[i])) ==> wake_all(s, evs)
            == s,
    decreases evs.len(),
{
    if evs.len() > 0 {
        let rest = evs.drop_first();
        if satisfies(w, evs[0]) {
            lemma_wake_all_outside_wait(RetryLoop { phase: Phase::Calling, ..s }, rest);
        } else {
            lemma_wake_all_waiting(s, w, rest);
            if exists|i: int| 0 <= i < evs.len() && satisfies(w, #[trigger] evs[i]) {
                let i = choose|i: int| 0 <= i < evs.len() && satisfies(w, #[trigger] evs[i]);
                assert(i > 0);
                assert(rest[i - 1] == evs[i]);
            }
            if forall|i: int| 0 <= i < evs.len() ==> !satisfies(w, #[trigger] evs[i]) {
                assert forall|i: int| 0 <= i < rest.len() implies !satisfies(w, #[trigger] rest[i]) by {
                    assert(rest[i] == evs[i + 1]);
                }
            }
        }
    }
}

/// After a would-block outcome blocked inbound, the loop suspends for
/// readability. Through any events before the first readable one it stays
/// suspended, so it neither calls the engine nor resolves; once a readable
/// event has come, it calls the engine again.
pub proof fn lemma_inbound_waits_for_readable<R, E>(s: RetryLoop, evs: Seq<Readiness>)
    requires
        s.phase == Phase::Calling,
    ensures
        next(s, Attempt::<R, E>::Blocked(BlockDirection::Inbound)).1 == Step::<R, E>::Suspend(
            Wait::Readable,
        ),
        !evs.contains(Readiness::Readable) ==> wake_all(
            next(s, Attempt::<R, E>::Blocked(BlockDirection::Inbound)).0,
            evs,
        ).phase == Phase::Waiting(Wait::Readable),
        evs.contains(Readiness::Readable) ==> wake_all(
            next(s, Attempt::<R, E>::Blocked(BlockDirection::Inbound)).0,
            evs,
        ).phase == Phase::Calling,
{
    let s1 = next(s, Attempt::<R, E>::Blocked(BlockDirection::Inbound)).0;
    lemma_wake_all_waiting(s1, Wait::Readable, evs);
    if evs.contains(Readiness::Readable) {
        let i = choose|i: int| 0 <= i < evs.len() && evs[i] == Readiness::Readable;
        assert(satisfies(Wait::Readable, evs[i]));
    } else {
        assert forall|i: int| 0 <= i < evs.len() implies !satisfies(Wait::Readable, #[trigger] evs[i]) by {
            if evs[i] == Readiness::Readable {
                assert(evs.contains(Readiness::Readable));
            }
        }
    }
}

/// After a would-block outcome blocked in both directions, the first
/// readiness event of either kind resumes the loop, and a later event of any
/// kind finds nothing to resume: the call goes on once, not twice.
pub proof fn lemma_both_resumes_on_first<R, E>(s: RetryLoop, first: Readiness, later: Readiness)
    requires
        s.phase == Phase::Calling,
    ensures
        next(s, Attempt::<R, E>::Blocked(BlockDirection::Both)).1 == Step::<R, E>::Suspend(
            Wait::Either,
        ),
        wake(next(s, Attempt::<R, E>::Blocked(BlockDirection::Both)).0, first).1,
        wake(next(s, Attempt::<R, E>::Blocked(BlockDirection::Both)).0, first).0.phase
            == Phase::Calling,
        wake(wake(next(s, Attempt::<R, E>::Blocked(BlockDirection::Both)).0, first).0, later) == (
        wake(next(s, Attempt::<R, E>::Blocked(BlockDirection::Both)).0, first).0,
        false,
        ),
{
}

} // verus!
