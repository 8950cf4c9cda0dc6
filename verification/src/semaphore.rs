//! Counting semaphore: a bounded counter with blocking, non-blocking
//! and timed take, give with direct handoff to a blocked taker, and
//! reset.
//!
//! Blocking is modelled as in the queue: a `take` that cannot complete
//! registers the caller in the taker wait set and reports `Blocked`;
//! the scheduler suspends it, delivers the disposition named in a later
//! `give` or `reset`, and calls `expire` when a deadline passes first.

use vstd::prelude::*;

use crate::timeout::Timeout;
use crate::wait_set::{find_index, insert_pos, ordered, WaitSet, Waiter};
use crate::ConstructionError;

verus! {

/// Everything a semaphore operation can fail with.
#[derive(Clone, Copy, Debug, PartialEq, Eq, Structural)]
pub enum SemError {
    /// `take` could not complete immediately and `NoWait` was
    /// requested; no state changed.
    WouldBlock,
    /// The blocking `take`'s deadline elapsed before a unit arrived.
    TimedOut,
    /// A pending `take` was cancelled because the semaphore was reset
    /// while the taker waited — distinct from `TimedOut`, so a caller
    /// can tell "reset out from under me" from "I simply timed out."
    Reset,
}

/// Outcome of a `take`.
pub enum TakeResult {
    /// A unit was available and has been taken.
    Taken,
    /// No unit was available and `NoWait` was requested.
    WouldBlock,
    /// No unit was available: the caller is now registered in the taker
    /// wait set with its deadline and must be suspended until given a
    /// unit, reset, or expired.
    Blocked,
}

/// Outcome of `expire`.
pub enum ExpireResult {
    /// The blocked taker's deadline passed: its `take` fails with
    /// `TimedOut`.
    TakerTimedOut,
    /// The caller is not registered, or its deadline has not passed
    /// (the wake path won the race); nothing changed.
    NotExpired,
}

/// Bounded counting semaphore.  The count never exceeds the limit fixed
/// at construction.
pub struct CountingSemaphore {
    units: u32,
    limit: u32,
    takers: WaitSet<()>,
}

impl CountingSemaphore {
    /// Current number of available units.
    pub closed spec fn counter(&self) -> u32 {
        self.units
    }

    /// Maximum permissible count, fixed at construction.
    pub closed spec fn max_count(&self) -> u32 {
        self.limit
    }

    /// The takers blocked on the exhausted semaphore, in wake order.
    pub closed spec fn taker_waiters(&self) -> Seq<Waiter<()>> {
        self.takers@
    }

    /// The semaphore invariant: the count stays within the limit, the
    /// wait set keeps the fairness ordering, and takers wait only while
    /// no unit is available.
    pub open spec fn wf(&self) -> bool {
        &&& self.counter() <= self.max_count()
        &&& ordered(self.taker_waiters())
        &&& self.taker_waiters().len() > 0 ==> self.counter() == 0
    }

    /// Creates a semaphore with the given initial count and limit.  An
    /// initial count above the limit is invalid and nothing is
    /// constructed.
    pub fn new(initial_count: u32, limit: u32) -> (r: Result<CountingSemaphore, ConstructionError>)
        ensures
            (initial_count > limit) == (r is Err),
            r matches Ok(s) ==> s.wf() && s.counter() == initial_count && s.max_count() == limit
                && s.taker_waiters().len() == 0,
    {
        if initial_count > limit {
            Err(ConstructionError)
        } else {
            Ok(CountingSemaphore { units: initial_count, limit, takers: WaitSet::new() })
        }
    }

    /// Takes one unit: decrements the count if positive; otherwise the
    /// caller fails immediately under `NoWait` or is registered in the
    /// taker wait set with its deadline.
    pub fn take(&mut self, timeout: Timeout, id: u64, priority: u32, now: u64) -> (r: TakeResult)
        requires
            old(self).wf(),
            old(self).taker_waiters().len() < usize::MAX,
        ensures
            final(self).wf(),
            final(self).max_count() == old(self).max_count(),
            old(self).counter() > 0 ==> (r == TakeResult::Taken && final(self).counter() == old(
                self,
            ).counter() - 1 && final(self).taker_waiters() == old(self).taker_waiters()),
            old(self).counter() == 0 && timeout.is_no_wait() ==> (r == TakeResult::WouldBlock
                && final(self).counter() == 0 && final(self).taker_waiters() == old(
                self,
            ).taker_waiters()),
            old(self).counter() == 0 && !timeout.is_no_wait() ==> (r == TakeResult::Blocked
                && final(self).counter() == 0 && final(self).taker_waiters() == old(
                self,
            ).taker_waiters().insert(
                insert_pos(old(self).taker_waiters(), priority),
                (Waiter { id, priority, deadline: timeout.deadline_spec(now), payload: () }),
            )),
    {
        if self.units > 0 {
            self.units = self.units - 1;
            TakeResult::Taken
        } else {
            match timeout {
                Timeout::NoWait => TakeResult::WouldBlock,
                Timeout::Forever | Timeout::After(_) => {
                    let d = timeout.deadline(now);
                    self.takers.insert(id, priority, d, ());
                    TakeResult::Blocked
                },
            }
        }
    }

    /// Takes one unit without ever blocking: returns whether a unit was
    /// available (and, if so, taken).
    pub fn try_take(&mut self) -> (r: bool)
        requires
            old(self).wf(),
        ensures
            final(self).wf(),
            final(self).max_count() == old(self).max_count(),
            r == (old(self).counter() > 0),
            r ==> final(self).counter() == old(self).counter() - 1,
            !r ==> final(self).counter() == 0,
            final(self).taker_waiters() == old(self).taker_waiters(),
    {
        if self.units > 0 {
            self.units = self.units - 1;
            true
        } else {
            false
        }
    }

    /// Gives one unit.  If a taker is blocked (the count is then zero),
    /// the unit is transferred directly to the front taker of the wait
    /// set, which is woken with a successful take and whose identity is
    /// returned — the counter itself stays untouched, so the signal is
    /// never lost even at the bound.  Otherwise the count is
    /// incremented, saturating at the limit.  Never blocks.
    pub fn give(&mut self) -> (r: Option<u64>)
        requires
            old(self).wf(),
        ensures
            final(self).wf(),
            final(self).max_count() == old(self).max_count(),
            old(self).taker_waiters().len() > 0 ==> (r == Some(old(self).taker_waiters()[0].id)
                && final(self).counter() == old(self).counter()
                && final(self).taker_waiters() == old(self).taker_waiters().drop_first()),
            old(self).taker_waiters().len() == 0 ==> (r == None::<u64>
                && final(self).taker_waiters() == old(self).taker_waiters() && final(self).counter()
                == (if old(self).counter() < old(self).max_count() {
                old(self).counter() + 1
            } else {
                old(self).max_count() as int
            })),
    {
        if !self.takers.is_empty() {
            let w = self.takers.pop_front();
            Some(w.id)
        } else {
            if self.units < self.limit {
                self.units = self.units + 1;
            }
            None
        }
    }

    /// Sets the count to zero and cancels every blocked taker: the
    /// drained records are returned in wake order, and the scheduler
    /// resumes each with a `Reset` failure.  Never blocks.
    pub fn reset(&mut self) -> (r: Vec<Waiter<()>>)
        requires
            old(self).wf(),
        ensures
            final(self).wf(),
            final(self).max_count() == old(self).max_count(),
            final(self).counter() == 0,
            r@ == old(self).taker_waiters(),
            final(self).taker_waiters().len() == 0,
    {
        self.units = 0;
        self.takers.drain()
    }

    /// Removes the taker with the given identity from the wait set,
    /// provided its deadline has passed at time `now`; it then resumes
    /// with a `TimedOut` failure.  Removal races with the wake path and
    /// is idempotent.
    pub fn expire(&mut self, id: u64, now: u64) -> (r: ExpireResult)
        requires
            old(self).wf(),
        ensures
            final(self).wf(),
            final(self).max_count() == old(self).max_count(),
            final(self).counter() == old(self).counter(),
            ({
                let i = find_index(old(self).taker_waiters(), id);
                if i >= 0 && old(self).taker_waiters()[i].deadline.expired(now) {
                    r == ExpireResult::TakerTimedOut && final(self).taker_waiters() == old(
                        self,
                    ).taker_waiters().remove(i)
                } else {
                    r == ExpireResult::NotExpired && final(self).taker_waiters() == old(
                        self,
                    ).taker_waiters()
                }
            }),
    {
        match self.takers.remove_if_expired(id, now) {
            Some(_) => ExpireResult::TakerTimedOut,
            None => ExpireResult::NotExpired,
        }
    }

    /// Non-blocking snapshot of the current count.
    pub fn count(&self) -> (r: u32)
        ensures
            r == self.counter(),
    {
        self.units
    }

    /// Number of takers currently blocked.  Never blocks.
    pub fn num_waiting_takers(&self) -> (r: usize)
        ensures
            r == self.taker_waiters().len(),
    {
        self.takers.len()
    }
}

/// The count never exceeds the limit, however many gives occur without
/// intervening takes: it is part of the semaphore invariant, which
/// every operation preserves.
pub proof fn lemma_count_bounded(s: &CountingSemaphore)
    requires
        s.wf(),
    ensures
        s.counter() <= s.max_count(),
{
}

} // verus!
