//! Fixed-capacity FIFO message queue with blocking, non-blocking and
//! timed put/get, peek by logical position, purge, and occupancy
//! queries.
//!
//! The queue owns its storage and callers exchange messages by value, so
//! no aliasing of the internal buffer is ever exposed.  Blocking is
//! modelled explicitly: an operation that cannot complete immediately
//! registers the caller in the producer or consumer wait set and reports
//! `Blocked`; the scheduler (an external collaborator) suspends the
//! caller, delivers the wake disposition carried in a later operation's
//! result, and calls `expire` when a deadline passes first.

use vstd::prelude::*;

use crate::timeout::Timeout;
use crate::wait_set::{find_index, insert_pos, ordered, WaitSet, Waiter};
use crate::ConstructionError;

verus! {

/// Everything a queue operation can fail with.
#[derive(Clone, Copy, Debug, PartialEq, Eq, Structural)]
pub enum QueueError {
    /// The operation could not complete immediately and `NoWait` was
    /// requested; no state changed.
    WouldBlock,
    /// The blocking operation's deadline elapsed before the condition
    /// was satisfied; the caller retains no partial effect.
    TimedOut,
    /// A pending `put` was cancelled because the queue was purged while
    /// the producer waited.
    Purged,
    /// `peek` found no message.
    Empty,
    /// `peek_at` was given a position at or beyond the number of stored
    /// messages.
    OutOfRange,
}

/// Outcome of a `put`.
pub enum PutResult<T> {
    /// The message was enqueued at the tail.
    Stored,
    /// Direct handoff: a consumer was blocked on an empty queue, so the
    /// message bypasses the buffer; the scheduler completes that
    /// consumer's `get` with `item` and wakes it.
    Delivered { consumer: u64, item: T },
    /// The queue was full and `NoWait` was requested.
    WouldBlock,
    /// The queue was full: the caller is now registered in the producer
    /// wait set with its deadline and must be suspended until woken
    /// (space freed, purge) or expired.
    Blocked,
}

/// Outcome of a `get`.
pub enum GetResult<T> {
    /// The head message was dequeued.  If a producer was blocked on the
    /// full queue, its pending message has moved into the freed slot and
    /// `resumed` names it: the scheduler completes that producer's `put`
    /// with success and wakes it.
    Item { item: T, resumed: Option<u64> },
    /// The queue was empty and `NoWait` was requested.
    WouldBlock,
    /// The queue was empty: the caller is now registered in the consumer
    /// wait set with its deadline and must be suspended until woken
    /// (direct handoff) or expired.
    Blocked,
}

/// Outcome of `expire`: what the timed-out caller resumes with.
pub enum ExpireResult<T> {
    /// A blocked producer's deadline passed: its `put` fails with
    /// `TimedOut` and its never-enqueued message is handed back.
    ProducerTimedOut(T),
    /// A blocked consumer's deadline passed: its `get` fails with
    /// `TimedOut`.
    ConsumerTimedOut,
    /// The caller is not registered, or its deadline has not passed
    /// (the wake path won the race); nothing changed.
    NotExpired,
}

/// Fixed-capacity FIFO message queue.  The view is the sequence of
/// stored messages in arrival order, head first.
pub struct MessageQueue<T> {
    items: Vec<T>,
    cap: usize,
    prod_waiters: WaitSet<T>,
    cons_waiters: WaitSet<()>,
}

impl<T> View for MessageQueue<T> {
    type V = Seq<T>;

    closed spec fn view(&self) -> Seq<T> {
        self.items@
    }
}

impl<T> MessageQueue<T> {
    /// Maximum number of messages the queue can hold, fixed at
    /// construction.
    pub closed spec fn capacity(&self) -> usize {
        self.cap
    }

    /// The producers blocked on the full queue, in wake order; each
    /// carries its pending message as payload.
    pub closed spec fn producer_waiters(&self) -> Seq<Waiter<T>> {
        self.prod_waiters@
    }

    /// The consumers blocked on the empty queue, in wake order.
    pub closed spec fn consumer_waiters(&self) -> Seq<Waiter<()>> {
        self.cons_waiters@
    }

    /// The queue invariant: occupancy never exceeds the (positive)
    /// capacity, both wait sets keep the fairness ordering, producers
    /// wait only while the queue is full, and consumers wait only while
    /// it is empty.
    pub open spec fn wf(&self) -> bool {
        &&& self.capacity() >= 1
        &&& self@.len() <= self.capacity()
        &&& ordered(self.producer_waiters())
        &&& ordered(self.consumer_waiters())
        &&& self.producer_waiters().len() > 0 ==> self@.len() == self.capacity()
        &&& self.consumer_waiters().len() > 0 ==> self@.len() == 0
    }

    /// Creates an empty queue of the given capacity.  A capacity of
    /// zero is invalid and nothing is constructed.
    pub fn new(capacity: usize) -> (r: Result<MessageQueue<T>, ConstructionError>)
        ensures
            (capacity == 0) == (r is Err),
            r matches Ok(q) ==> q.wf() && q@ == Seq::<T>::empty() && q.capacity() == capacity
                && q.producer_waiters().len() == 0 && q.consumer_waiters().len() == 0,
    {
        if capacity == 0 {
            Err(ConstructionError)
        } else {
            Ok(
                MessageQueue {
                    items: Vec::new(),
                    cap: capacity,
                    prod_waiters: WaitSet::new(),
                    cons_waiters: WaitSet::new(),
                },
            )
        }
    }

    /// Sends a message.  If a consumer is blocked (the queue is then
    /// empty, hence below capacity), the message is handed directly to
    /// the front consumer of the wait set, which is woken.  Otherwise
    /// the message is enqueued at the tail if there is room; on a full
    /// queue the caller fails immediately under `NoWait` or is
    /// registered in the producer wait set with its deadline.
    pub fn put(&mut self, item: T, timeout: Timeout, id: u64, priority: u32, now: u64) -> (r:
        PutResult<T>)
        requires
            old(self).wf(),
            old(self).producer_waiters().len() < usize::MAX,
        ensures
            final(self).wf(),
            final(self).capacity() == old(self).capacity(),
            old(self).consumer_waiters().len() > 0 ==> (
            r == (PutResult::Delivered { consumer: old(self).consumer_waiters()[0].id, item })
                && final(self)@ == old(self)@
                && final(self).consumer_waiters() == old(self).consumer_waiters().drop_first()
                && final(self).producer_waiters() == old(self).producer_waiters()),
            old(self).consumer_waiters().len() == 0 && old(self)@.len() < old(self).capacity()
                ==> (r == PutResult::<T>::Stored && final(self)@ == old(self)@.push(item)
                && final(self).consumer_waiters() == old(self).consumer_waiters()
                && final(self).producer_waiters() == old(self).producer_waiters()),
            old(self).consumer_waiters().len() == 0 && old(self)@.len() == old(self).capacity()
                && timeout.is_no_wait() ==> (r == PutResult::<T>::WouldBlock
                && final(self)@ == old(self)@
                && final(self).consumer_waiters() == old(self).consumer_waiters()
                && final(self).producer_waiters() == old(self).producer_waiters()),
            old(self).consumer_waiters().len() == 0 && old(self)@.len() == old(self).capacity()
                && !timeout.is_no_wait() ==> (r == PutResult::<T>::Blocked
                && final(self)@ == old(self)@
                && final(self).consumer_waiters() == old(self).consumer_waiters()
                && final(self).producer_waiters() == old(self).producer_waiters().insert(
                insert_pos(old(self).producer_waiters(), priority),
                (Waiter { id, priority, deadline: timeout.deadline_spec(now), payload: item }),
            )),
    {
        if !self.cons_waiters.is_empty() {
            let w = self.cons_waiters.pop_front();
            PutResult::Delivered { consumer: w.id, item }
        } else if self.items.len() < self.cap {
            self.items.push(item);
            PutResult::Stored
        } else {
            match timeout {
                Timeout::NoWait => PutResult::WouldBlock,
                Timeout::Forever | Timeout::After(_) => {
                    let d = timeout.deadline(now);
                    self.prod_waiters.insert(id, priority, d, item);
                    PutResult::Blocked
                },
            }
        }
    }

    /// Receives the head message, if any; a producer blocked on the
    /// full queue then has its pending message moved into the freed
    /// slot and is woken.  On an empty queue the caller fails
    /// immediately under `NoWait` or is registered in the consumer wait
    /// set with its deadline.
    pub fn get(&mut self, timeout: Timeout, id: u64, priority: u32, now: u64) -> (r: GetResult<
        T,
    >)
        requires
            old(self).wf(),
            old(self).consumer_waiters().len() < usize::MAX,
        ensures
            final(self).wf(),
            final(self).capacity() == old(self).capacity(),
            old(self)@.len() > 0 && old(self).producer_waiters().len() == 0 ==> (
            r == (GetResult::Item { item: old(self)@[0], resumed: None })
                && final(self)@ == old(self)@.drop_first()
                && final(self).producer_waiters() == old(self).producer_waiters()
                && final(self).consumer_waiters() == old(self).consumer_waiters()),
            old(self)@.len() > 0 && old(self).producer_waiters().len() > 0 ==> (
            r == (GetResult::Item {
                item: old(self)@[0],
                resumed: Some(old(self).producer_waiters()[0].id),
            }) && final(self)@ == old(self)@.drop_first().push(
                old(self).producer_waiters()[0].payload,
            ) && final(self).producer_waiters() == old(self).producer_waiters().drop_first()
                && final(self).consumer_waiters() == old(self).consumer_waiters()),
            old(self)@.len() == 0 && timeout.is_no_wait() ==> (r == GetResult::<T>::WouldBlock
                && final(self)@ == old(self)@
                && final(self).producer_waiters() == old(self).producer_waiters()
                && final(self).consumer_waiters() == old(self).consumer_waiters()),
            old(self)@.len() == 0 && !timeout.is_no_wait() ==> (r == GetResult::<T>::Blocked
                && final(self)@ == old(self)@
                && final(self).producer_waiters() == old(self).producer_waiters()
                && final(self).consumer_waiters() == old(self).consumer_waiters().insert(
                insert_pos(old(self).consumer_waiters(), priority),
                (Waiter { id, priority, deadline: timeout.deadline_spec(now), payload: () }),
            )),
    {
        if self.items.len() > 0 {
            let item = self.items.remove(0);
            proof {
                assert(self.items@ =~= old(self)@.drop_first());
            }
            if !self.prod_waiters.is_empty() {
                let w = self.prod_waiters.pop_front();
                self.items.push(w.payload);
                GetResult::Item { item, resumed: Some(w.id) }
            } else {
                GetResult::Item { item, resumed: None }
            }
        } else {
            match timeout {
                Timeout::NoWait => GetResult::WouldBlock,
                Timeout::Forever | Timeout::After(_) => {
                    let d = timeout.deadline(now);
                    self.cons_waiters.insert(id, priority, d, ());
                    GetResult::Blocked
                },
            }
        }
    }

    /// Returns a reference to the head message without removing it;
    /// fails with `Empty` on an empty queue.  Never blocks and changes
    /// no state.
    pub fn peek(&self) -> (r: Result<&T, QueueError>)
        ensures
            self@.len() > 0 ==> (r matches Ok(v) && *v == self@[0]),
            self@.len() == 0 ==> (r matches Err(e) && e == QueueError::Empty),
    {
        if self.items.len() > 0 {
            Ok(&self.items[0])
        } else {
            Err(QueueError::Empty)
        }
    }

    /// Returns a reference to the message at the given position in the
    /// logical FIFO order at the instant of the call (0 = head); fails
    /// with `OutOfRange` if fewer messages are stored.  Never blocks and
    /// changes no state.
    pub fn peek_at(&self, index: usize) -> (r: Result<&T, QueueError>)
        ensures
            index < self@.len() ==> (r matches Ok(v) && *v == self@[index as int]),
            index >= self@.len() ==> (r matches Err(e) && e == QueueError::OutOfRange),
    {
        if index < self.items.len() {
            Ok(&self.items[index])
        } else {
            Err(QueueError::OutOfRange)
        }
    }

    /// Discards every stored message and cancels every blocked
    /// producer: the drained producer records are returned in wake
    /// order, and the scheduler resumes each with a `Purged` failure
    /// (its pending message, carried in the record, was never
    /// enqueued).  Blocked consumers are not woken: purge discards
    /// pending messages and relieves producers, it does not manufacture
    /// messages for consumers.
    pub fn purge(&mut self) -> (r: Vec<Waiter<T>>)
        requires
            old(self).wf(),
        ensures
            final(self).wf(),
            final(self).capacity() == old(self).capacity(),
            final(self)@.len() == 0,
            r@ == old(self).producer_waiters(),
            final(self).producer_waiters().len() == 0,
            final(self).consumer_waiters() == old(self).consumer_waiters(),
    {
        self.items.clear();
        self.prod_waiters.drain()
    }

    /// Removes the caller with the given identity from whichever wait
    /// set holds it, provided its deadline has passed at time `now`; the
    /// caller then resumes with a `TimedOut` failure (and, for a
    /// producer, its message back).  Removal races with the wake path
    /// and is idempotent: a caller already woken, or whose deadline has
    /// not passed, is left untouched.
    pub fn expire(&mut self, id: u64, now: u64) -> (r: ExpireResult<T>)
        requires
            old(self).wf(),
        ensures
            final(self).wf(),
            final(self).capacity() == old(self).capacity(),
            final(self)@ == old(self)@,
            ({
                let pi = find_index(old(self).producer_waiters(), id);
                let ci = find_index(old(self).consumer_waiters(), id);
                if pi >= 0 && old(self).producer_waiters()[pi].deadline.expired(now) {
                    r == ExpireResult::ProducerTimedOut(old(self).producer_waiters()[pi].payload)
                        && final(self).producer_waiters() == old(self).producer_waiters().remove(
                        pi,
                    ) && final(self).consumer_waiters() == old(self).consumer_waiters()
                } else if ci >= 0 && old(self).consumer_waiters()[ci].deadline.expired(now) {
                    r == ExpireResult::<T>::ConsumerTimedOut && final(self).consumer_waiters()
                        == old(self).consumer_waiters().remove(ci) && final(self).producer_waiters()
                        == old(self).producer_waiters()
                } else {
                    r == ExpireResult::<T>::NotExpired && final(self).producer_waiters() == old(
                        self,
                    ).producer_waiters() && final(self).consumer_waiters() == old(
                        self,
                    ).consumer_waiters()
                }
            }),
    {
        match self.prod_waiters.remove_if_expired(id, now) {
            Some(w) => ExpireResult::ProducerTimedOut(w.payload),
            None => match self.cons_waiters.remove_if_expired(id, now) {
                Some(_) => ExpireResult::ConsumerTimedOut,
                None => ExpireResult::NotExpired,
            },
        }
    }

    /// Number of free message slots: `capacity - count`.  Never blocks.
    pub fn num_free_get(&self) -> (r: usize)
        requires
            self.wf(),
        ensures
            r == self.capacity() - self@.len(),
    {
        self.cap - self.items.len()
    }

    /// Number of stored messages.  Never blocks.
    pub fn num_used_get(&self) -> (r: usize)
        ensures
            r == self@.len(),
    {
        self.items.len()
    }

    /// Number of producers currently blocked on the full queue.  Never
    /// blocks.
    pub fn num_waiting_producers(&self) -> (r: usize)
        ensures
            r == self.producer_waiters().len(),
    {
        self.prod_waiters.len()
    }

    /// Number of consumers currently blocked on the empty queue.  Never
    /// blocks.
    pub fn num_waiting_consumers(&self) -> (r: usize)
        ensures
            r == self.consumer_waiters().len(),
    {
        self.cons_waiters.len()
    }
}

/// Round trip: a message put into an otherwise-empty queue is exactly
/// what the next get returns, and the queue is empty again afterwards.
/// (Put on an empty queue with no waiting consumer appends to the empty
/// view; get takes the front of the view and drops it.)
pub proof fn lemma_put_get_round_trip<T>(s: Seq<T>, x: T)
    requires
        s.len() == 0,
    ensures
        s.push(x)[0] == x,
        s.push(x).drop_first() == s,
{
    assert(s.push(x).drop_first() =~= s);
}

/// FIFO order: putting a message preserves the positions of every
/// message already queued and places the newcomer last, and getting
/// removes only the front, shifting the rest forward unchanged — so
/// messages leave the queue in exactly the order they entered.
pub proof fn lemma_fifo_order<T>(s: Seq<T>, x: T)
    ensures
        forall|i: int| 0 <= i < s.len() ==> #[trigger] s.push(x)[i] == s[i],
        s.push(x)[s.len() as int] == x,
        forall|i: int| 0 <= i < s.len() - 1 ==> #[trigger] s.drop_first()[i] == s[i + 1],
{
}

} // verus!
