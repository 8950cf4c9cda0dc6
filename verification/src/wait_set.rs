//! The shared waiting mechanism: an ordered collection of blocked
//! callers per object, used by the queue and the semaphore to park and
//! wake waiters.
//!
//! Waiters are kept sorted by descending scheduling priority; among
//! waiters of equal priority the order of the sequence is the order of
//! arrival (a newcomer is placed behind every waiter of equal or higher
//! priority), so the waiter at the front is always the one to wake next:
//! highest priority first, and first-come-first-served among equals.
//! This ordering is an explicit fairness contract, not an implementation
//! artifact.

use vstd::prelude::*;

use crate::timeout::Deadline;

verus! {

/// One blocked caller: its identity, its scheduling priority, the
/// absolute deadline of its wait, and a payload (a pending message for
/// blocked producers; nothing for blocked consumers or takers).
pub struct Waiter<P> {
    /// Identity of the blocked thread.
    pub id: u64,
    /// Scheduling priority; larger means more urgent.
    pub priority: u32,
    /// When the wait expires, fixed at the moment blocking began.
    pub deadline: Deadline,
    /// Data the waiter carries (a producer's pending message).
    pub payload: P,
}

/// The fairness ordering: priorities never increase along the sequence,
/// so the front waiter has the highest priority, and equal-priority
/// waiters stand in arrival order.
pub open spec fn ordered<P>(s: Seq<Waiter<P>>) -> bool {
    forall|i: int, j: int| 0 <= i < j < s.len() ==> s[i].priority >= s[j].priority
}

/// Where a newcomer of the given priority belongs: behind every waiter
/// of equal or higher priority, in front of every strictly lower one.
pub open spec fn insert_pos<P>(s: Seq<Waiter<P>>, priority: u32) -> int
    decreases s.len(),
{
    if s.len() == 0 {
        0
    } else if s[0].priority >= priority {
        1 + insert_pos(s.drop_first(), priority)
    } else {
        0
    }
}

/// Index of the first waiter with the given identity, or -1 if none
/// waits.
pub open spec fn find_index<P>(s: Seq<Waiter<P>>, id: u64) -> int
    decreases s.len(),
{
    if s.len() == 0 {
        -1
    } else if s[0].id == id {
        0
    } else if find_index(s.drop_first(), id) == -1 {
        -1
    } else {
        1 + find_index(s.drop_first(), id)
    }
}

/// Ordered collection of the callers blocked on one object.  Entries are
/// added when a caller blocks and removed exactly once: by wake (the
/// resource became available), by timeout, or by cancellation
/// (purge/reset), whichever occurs first.
pub struct WaitSet<P> {
    waiters: Vec<Waiter<P>>,
}

impl<P> View for WaitSet<P> {
    type V = Seq<Waiter<P>>;

    closed spec fn view(&self) -> Seq<Waiter<P>> {
        self.waiters@
    }
}

/// A scan that stopped at `i` (everything before `i` has priority at
/// least `priority`, and either the sequence ends at `i` or entry `i`
/// is strictly lower) has found the insertion position.
proof fn lemma_insert_pos_split<P>(s: Seq<Waiter<P>>, priority: u32, i: int)
    requires
        0 <= i <= s.len(),
        forall|k: int| 0 <= k < i ==> s[k].priority >= priority,
        i < s.len() ==> s[i].priority < priority,
    ensures
        insert_pos(s, priority) == i,
    decreases i,
{
    if i == 0 {
    } else {
        assert(s[0].priority >= priority);
        assert(forall|k: int| 0 <= k < i - 1 ==> s.drop_first()[k] == s[k + 1]);
        lemma_insert_pos_split(s.drop_first(), priority, i - 1);
    }
}

/// A scan that stopped at `i` (no identity match before `i`, and either
/// the sequence ends at `i` or entry `i` matches) has found the result
/// of `find_index`.
proof fn lemma_find_index_split<P>(s: Seq<Waiter<P>>, id: u64, i: int)
    requires
        0 <= i <= s.len(),
        forall|k: int| 0 <= k < i ==> s[k].id != id,
        i < s.len() ==> s[i].id == id,
    ensures
        i < s.len() ==> find_index(s, id) == i,
        i == s.len() ==> find_index(s, id) == -1,
    decreases i,
{
    if i == 0 {
    } else {
        assert(s[0].id != id);
        assert(forall|k: int| 0 <= k < i - 1 ==> s.drop_first()[k] == s[k + 1]);
        lemma_find_index_split(s.drop_first(), id, i - 1);
    }
}

impl<P> WaitSet<P> {
    /// Well-formed: the fairness ordering holds.
    pub open spec fn wf(&self) -> bool {
        ordered(self@)
    }

    /// Creates an empty wait set.
    pub fn new() -> (r: WaitSet<P>)
        ensures
            r.wf(),
            r@.len() == 0,
    {
        WaitSet { waiters: Vec::new() }
    }

    /// Number of blocked callers.
    pub fn len(&self) -> (r: usize)
        ensures
            r == self@.len(),
    {
        self.waiters.len()
    }

    /// Whether no caller is blocked.
    pub fn is_empty(&self) -> (r: bool)
        ensures
            r == (self@.len() == 0),
    {
        self.waiters.len() == 0
    }

    /// Registers a newly blocked caller, keeping the fairness ordering:
    /// it is placed behind every waiter of equal or higher priority and
    /// in front of every strictly lower one, so among equal priorities
    /// the earliest arrival stays in front.
    pub fn insert(&mut self, id: u64, priority: u32, deadline: Deadline, payload: P)
        requires
            old(self).wf(),
            old(self)@.len() < usize::MAX,
        ensures
            final(self).wf(),
            final(self)@ == old(self)@.insert(
                insert_pos(old(self)@, priority),
                (Waiter { id, priority, deadline, payload }),
            ),
    {
        let ghost s0 = self.waiters@;
        let mut i: usize = 0;
        while i < self.waiters.len() && self.waiters[i].priority >= priority
            invariant
                i <= self.waiters.len(),
                self.waiters@ == s0,
                forall|k: int| 0 <= k < i ==> s0[k].priority >= priority,
            decreases self.waiters.len() - i,
        {
            i += 1;
        }
        proof {
            lemma_insert_pos_split(s0, priority, i as int);
        }
        let w = Waiter { id, priority, deadline, payload };
        self.waiters.insert(i, w);
        proof {
            s0.insert_ensures(i as int, w);
            assert forall|a: int, b: int|
                0 <= a < b < self.waiters@.len() implies self.waiters@[a].priority
                >= self.waiters@[b].priority by {
                let s1 = self.waiters@;
                if a < i && b < i {
                    assert(s1[a] == s0[a]);
                    assert(s1[b] == s0[b]);
                } else if a < i && b == i {
                    assert(s1[a] == s0[a]);
                } else if a < i && b > i {
                    assert(s1[a] == s0[a]);
                    assert(s1[b] == s0[b - 1]);
                } else if a == i && b > i {
                    assert(s1[b] == s0[b - 1]);
                    assert(s0[b - 1].priority < priority);
                } else {
                    assert(s1[a] == s0[a - 1]);
                    assert(s1[b] == s0[b - 1]);
                }
            }
        }
    }

    /// Removes and returns the waiter to wake next: the front of the
    /// sequence, which has the highest priority and, among waiters of
    /// that priority, blocked earliest.
    pub fn pop_front(&mut self) -> (r: Waiter<P>)
        requires
            old(self).wf(),
            old(self)@.len() > 0,
        ensures
            final(self).wf(),
            r == old(self)@[0],
            final(self)@ == old(self)@.drop_first(),
    {
        let r = self.waiters.remove(0);
        proof {
            assert(self.waiters@ =~= old(self)@.drop_first());
        }
        r
    }

    /// Removes the waiter with the given identity, provided its deadline
    /// has passed at time `now`; returns the removed record.  A caller
    /// that is not (or no longer) registered, or whose deadline has not
    /// passed, is left untouched — removal by timeout races with removal
    /// by wake, and whichever fires first wins.
    pub fn remove_if_expired(&mut self, id: u64, now: u64) -> (r: Option<Waiter<P>>)
        requires
            old(self).wf(),
        ensures
            final(self).wf(),
            ({
                let i = find_index(old(self)@, id);
                if i >= 0 && old(self)@[i].deadline.expired(now) {
                    r == Some(old(self)@[i]) && final(self)@ == old(self)@.remove(i)
                } else {
                    r == None::<Waiter<P>> && final(self)@ == old(self)@
                }
            }),
    {
        let ghost s0 = self.waiters@;
        let mut i: usize = 0;
        while i < self.waiters.len() && self.waiters[i].id != id
            invariant
                i <= self.waiters.len(),
                self.waiters@ == s0,
                forall|k: int| 0 <= k < i ==> s0[k].id != id,
            decreases self.waiters.len() - i,
        {
            i += 1;
        }
        proof {
            lemma_find_index_split(s0, id, i as int);
        }
        if i == self.waiters.len() {
            return None;
        }
        if !self.waiters[i].deadline.is_expired(now) {
            return None;
        }
        let r = self.waiters.remove(i);
        proof {
            s0.remove_ensures(i as int);
            assert forall|a: int, b: int|
                0 <= a < b < self.waiters@.len() implies self.waiters@[a].priority
                >= self.waiters@[b].priority by {
                let s1 = self.waiters@;
                if b < i {
                    assert(s1[a] == s0[a]);
                    assert(s1[b] == s0[b]);
                } else if a < i && b >= i {
                    assert(s1[a] == s0[a]);
                    assert(s1[b] == s0[b + 1]);
                } else {
                    assert(s1[a] == s0[a + 1]);
                    assert(s1[b] == s0[b + 1]);
                }
            }
        }
        Some(r)
    }

    /// Removes every waiter at once (cancellation by purge or reset) and
    /// returns them in wake order: highest priority first, earliest
    /// arrival first among equals.
    pub fn drain(&mut self) -> (r: Vec<Waiter<P>>)
        requires
            old(self).wf(),
        ensures
            final(self).wf(),
            final(self)@.len() == 0,
            r@ == old(self)@,
    {
        let mut out: Vec<Waiter<P>> = Vec::new();
        while self.waiters.len() > 0
            invariant
                out@ + self.waiters@ == old(self)@,
            decreases self.waiters.len(),
        {
            let w = self.waiters.remove(0);
            out.push(w);
            proof {
                assert(out@ + self.waiters@ =~= old(self)@);
            }
        }
        proof {
            assert(out@ =~= old(self)@);
        }
        out
    }
}

/// The waiter at the front of a well-ordered wait set is an eligible
/// wake target: no other waiter has a higher priority, and any waiter of
/// equal priority arrived no earlier (it stands behind the front).
pub proof fn lemma_front_is_eligible<P>(s: Seq<Waiter<P>>)
    requires
        ordered(s),
        s.len() > 0,
    ensures
        forall|i: int| 0 < i < s.len() ==> s[0].priority >= #[trigger] s[i].priority,
{
}

} // verus!
