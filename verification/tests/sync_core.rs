use zephyr_core::queue::{ExpireResult, GetResult, MessageQueue, PutResult, QueueError};
use zephyr_core::semaphore::{CountingSemaphore, TakeResult};
use zephyr_core::semaphore::ExpireResult as SemExpireResult;
use zephyr_core::timeout::{Deadline, Timeout};

#[test]
fn queue_capacity_zero_rejected() {
    assert!(MessageQueue::<u32>::new(0).is_err());
    assert!(MessageQueue::<u32>::new(1).is_ok());
}

#[test]
fn queue_fifo_scenario() {
    // Capacity 2, 4-byte integer elements.
    let mut q = MessageQueue::<u32>::new(2).unwrap();
    assert!(matches!(q.put(1, Timeout::Forever, 10, 5, 0), PutResult::Stored));
    assert!(matches!(q.put(2, Timeout::Forever, 10, 5, 0), PutResult::Stored));
    assert!(matches!(q.put(3, Timeout::NoWait, 10, 5, 0), PutResult::WouldBlock));
    match q.get(Timeout::Forever, 11, 5, 0) {
        GetResult::Item { item, resumed } => {
            assert_eq!(item, 1);
            assert!(resumed.is_none());
        }
        _ => panic!("expected the first message"),
    }
    match q.get(Timeout::Forever, 11, 5, 0) {
        GetResult::Item { item, resumed } => {
            assert_eq!(item, 2);
            assert!(resumed.is_none());
        }
        _ => panic!("expected the second message"),
    }
    assert!(matches!(q.get(Timeout::NoWait, 11, 5, 0), GetResult::WouldBlock));
}

#[test]
fn queue_fifo_order_survives_interleaving() {
    // More messages than the capacity ever holds at once: the order of
    // arrival is still the order of departure.
    let mut q = MessageQueue::<u32>::new(2).unwrap();
    let mut next_in: u32 = 0;
    let mut next_out: u32 = 0;
    // Pattern: two puts, one get, repeated; then drain.
    for _ in 0..5 {
        for _ in 0..2 {
            if let PutResult::WouldBlock = q.put(next_in, Timeout::NoWait, 1, 5, 0) {
                // Full: drain one and retry.
                match q.get(Timeout::NoWait, 2, 5, 0) {
                    GetResult::Item { item, .. } => {
                        assert_eq!(item, next_out);
                        next_out += 1;
                    }
                    _ => panic!("a full queue must have a head message"),
                }
                assert!(matches!(q.put(next_in, Timeout::NoWait, 1, 5, 0), PutResult::Stored));
            }
            next_in += 1;
        }
        match q.get(Timeout::NoWait, 2, 5, 0) {
            GetResult::Item { item, .. } => {
                assert_eq!(item, next_out);
                next_out += 1;
            }
            _ => panic!("expected a message"),
        }
    }
    while let GetResult::Item { item, .. } = q.get(Timeout::NoWait, 2, 5, 0) {
        assert_eq!(item, next_out);
        next_out += 1;
    }
    assert_eq!(next_out, next_in, "every message came out, in arrival order");
}

#[test]
fn queue_round_trip_single_item() {
    let mut q = MessageQueue::<u64>::new(4).unwrap();
    assert!(matches!(q.put(0xdead_beef, Timeout::Forever, 1, 3, 0), PutResult::Stored));
    match q.get(Timeout::Forever, 2, 3, 0) {
        GetResult::Item { item, resumed: None } => assert_eq!(item, 0xdead_beef),
        _ => panic!("expected the message straight back"),
    }
    assert_eq!(q.num_used_get(), 0);
}

#[test]
fn queue_get_empty_nowait_would_block() {
    let mut q = MessageQueue::<u32>::new(2).unwrap();
    assert!(matches!(q.get(Timeout::NoWait, 1, 5, 0), GetResult::WouldBlock));
    assert_eq!(q.num_used_get(), 0);
}

#[test]
fn queue_blocked_get_receives_exactly_the_put_value() {
    let mut q = MessageQueue::<u32>::new(2).unwrap();
    // A consumer blocks forever on the empty queue.
    assert!(matches!(q.get(Timeout::Forever, 42, 5, 0), GetResult::Blocked));
    // The next put bypasses the buffer and hands its value to that consumer.
    match q.put(777, Timeout::Forever, 43, 5, 0) {
        PutResult::Delivered { consumer, item } => {
            assert_eq!(consumer, 42);
            assert_eq!(item, 777);
        }
        _ => panic!("expected a direct handoff"),
    }
    assert_eq!(q.num_used_get(), 0);
}

#[test]
fn queue_purge_wakes_all_producers_with_their_messages() {
    let mut q = MessageQueue::<u32>::new(1).unwrap();
    assert!(matches!(q.put(1, Timeout::Forever, 1, 5, 0), PutResult::Stored));
    assert!(matches!(q.put(2, Timeout::Forever, 2, 5, 0), PutResult::Blocked));
    assert!(matches!(q.put(3, Timeout::Forever, 3, 5, 0), PutResult::Blocked));
    let woken = q.purge();
    assert_eq!(woken.len(), 2);
    assert_eq!(woken[0].id, 2);
    assert_eq!(woken[0].payload, 2);
    assert_eq!(woken[1].id, 3);
    assert_eq!(woken[1].payload, 3);
    assert_eq!(q.num_used_get(), 0);
    assert_eq!(q.num_free_get(), 1);
}

#[test]
fn queue_purge_wakes_zero_consumers() {
    let mut q = MessageQueue::<u32>::new(1).unwrap();
    assert!(matches!(q.get(Timeout::Forever, 9, 5, 0), GetResult::Blocked));
    let woken = q.purge();
    assert_eq!(woken.len(), 0);
    // The consumer is still registered: the next put still hands off to it.
    match q.put(5, Timeout::Forever, 10, 5, 0) {
        PutResult::Delivered { consumer, item } => {
            assert_eq!(consumer, 9);
            assert_eq!(item, 5);
        }
        _ => panic!("the blocked consumer should have survived the purge"),
    }
}

#[test]
fn queue_peek_and_peek_at() {
    let mut q = MessageQueue::<u32>::new(3).unwrap();
    assert_eq!(q.peek().unwrap_err(), QueueError::Empty);
    assert!(matches!(q.put(10, Timeout::Forever, 1, 5, 0), PutResult::Stored));
    assert!(matches!(q.put(20, Timeout::Forever, 1, 5, 0), PutResult::Stored));
    assert_eq!(*q.peek().unwrap(), 10);
    assert_eq!(*q.peek_at(0).unwrap(), 10);
    assert_eq!(*q.peek_at(1).unwrap(), 20);
    assert_eq!(q.peek_at(2).unwrap_err(), QueueError::OutOfRange);
    // Peeking removed nothing.
    assert_eq!(q.num_used_get(), 2);
}

#[test]
fn queue_occupancy_counts() {
    let mut q = MessageQueue::<u32>::new(3).unwrap();
    assert_eq!(q.num_free_get(), 3);
    assert_eq!(q.num_used_get(), 0);
    assert!(matches!(q.put(1, Timeout::Forever, 1, 5, 0), PutResult::Stored));
    assert!(matches!(q.put(2, Timeout::Forever, 1, 5, 0), PutResult::Stored));
    assert_eq!(q.num_free_get(), 1);
    assert_eq!(q.num_used_get(), 2);
}

#[test]
fn queue_wakes_highest_priority_consumer_first() {
    let mut q = MessageQueue::<u32>::new(1).unwrap();
    assert!(matches!(q.get(Timeout::Forever, 1, 5, 0), GetResult::Blocked));
    assert!(matches!(q.get(Timeout::Forever, 2, 10, 0), GetResult::Blocked));
    match q.put(42, Timeout::Forever, 3, 1, 0) {
        PutResult::Delivered { consumer, item } => {
            assert_eq!(consumer, 2, "the priority-10 consumer goes first");
            assert_eq!(item, 42);
        }
        _ => panic!("expected a direct handoff"),
    }
    match q.put(43, Timeout::Forever, 3, 1, 0) {
        PutResult::Delivered { consumer, .. } => assert_eq!(consumer, 1),
        _ => panic!("expected a second handoff"),
    }
}

#[test]
fn queue_equal_priority_waiters_wake_in_arrival_order() {
    let mut q = MessageQueue::<u32>::new(1).unwrap();
    assert!(matches!(q.get(Timeout::Forever, 1, 5, 0), GetResult::Blocked));
    assert!(matches!(q.get(Timeout::Forever, 2, 5, 0), GetResult::Blocked));
    match q.put(1, Timeout::Forever, 3, 1, 0) {
        PutResult::Delivered { consumer, .. } => assert_eq!(consumer, 1, "first come, first served"),
        _ => panic!("expected a handoff"),
    }
}

#[test]
fn queue_blocked_producer_resumes_when_space_frees() {
    let mut q = MessageQueue::<u32>::new(1).unwrap();
    assert!(matches!(q.put(1, Timeout::Forever, 1, 5, 0), PutResult::Stored));
    assert!(matches!(q.put(2, Timeout::Forever, 7, 5, 0), PutResult::Blocked));
    match q.get(Timeout::Forever, 8, 5, 0) {
        GetResult::Item { item, resumed } => {
            assert_eq!(item, 1);
            assert_eq!(resumed, Some(7), "the blocked producer completes its put");
        }
        _ => panic!("expected the stored message"),
    }
    match q.get(Timeout::Forever, 8, 5, 0) {
        GetResult::Item { item, resumed: None } => assert_eq!(item, 2),
        _ => panic!("expected the resumed producer's message"),
    }
}

#[test]
fn queue_producer_timeout_expiry() {
    let mut q = MessageQueue::<u32>::new(1).unwrap();
    assert!(matches!(q.put(1, Timeout::Forever, 1, 5, 0), PutResult::Stored));
    assert!(matches!(q.put(2, Timeout::After(10), 7, 5, 0), PutResult::Blocked));
    // Deadline is 0 + 10 = 10: not expired before it.
    assert!(matches!(q.expire(7, 9), ExpireResult::NotExpired));
    match q.expire(7, 10) {
        ExpireResult::ProducerTimedOut(item) => assert_eq!(item, 2),
        _ => panic!("the producer's wait should have expired"),
    }
    // Removal is idempotent: the waiter is gone.
    assert!(matches!(q.expire(7, 10), ExpireResult::NotExpired));
    // The queued message was untouched.
    assert_eq!(*q.peek().unwrap(), 1);
}

#[test]
fn queue_consumer_timeout_expiry() {
    let mut q = MessageQueue::<u32>::new(1).unwrap();
    assert!(matches!(q.get(Timeout::After(5), 3, 5, 2), GetResult::Blocked));
    // Deadline is 2 + 5 = 7.
    assert!(matches!(q.expire(3, 6), ExpireResult::NotExpired));
    assert!(matches!(q.expire(3, 7), ExpireResult::ConsumerTimedOut));
    // The consumer is gone: a put now stores instead of handing off.
    assert!(matches!(q.put(1, Timeout::Forever, 4, 5, 8), PutResult::Stored));
}

#[test]
fn queue_forever_wait_never_expires() {
    let mut q = MessageQueue::<u32>::new(1).unwrap();
    assert!(matches!(q.put(1, Timeout::Forever, 1, 5, 0), PutResult::Stored));
    assert!(matches!(q.put(2, Timeout::Forever, 7, 5, 0), PutResult::Blocked));
    assert!(matches!(q.expire(7, u64::MAX), ExpireResult::NotExpired));
}

#[test]
fn sem_initial_count_above_limit_rejected() {
    assert!(CountingSemaphore::new(2, 1).is_err());
    assert!(CountingSemaphore::new(1, 1).is_ok());
    assert!(CountingSemaphore::new(0, 0).is_ok());
}

#[test]
fn sem_take_and_try_take() {
    let mut s = CountingSemaphore::new(1, 1).unwrap();
    assert!(s.try_take());
    assert!(!s.try_take());
    assert!(matches!(s.take(Timeout::NoWait, 1, 5, 0), TakeResult::WouldBlock));
    assert_eq!(s.count(), 0);
}

#[test]
fn sem_give_saturates_at_limit() {
    let mut s = CountingSemaphore::new(0, 3).unwrap();
    for _ in 0..5 {
        assert!(s.give().is_none());
    }
    assert_eq!(s.count(), 3, "the count never exceeds the limit");
}

#[test]
fn sem_give_transfers_unit_directly_to_blocked_taker() {
    let mut s = CountingSemaphore::new(0, 1).unwrap();
    // Thread A blocks forever.
    assert!(matches!(s.take(Timeout::Forever, 100, 5, 0), TakeResult::Blocked));
    // Thread B gives: A's take completes, the unit never touches the counter.
    assert_eq!(s.give(), Some(100));
    assert_eq!(s.count(), 0);
}

#[test]
fn sem_reset_wakes_all_takers() {
    let mut s = CountingSemaphore::new(0, 2).unwrap();
    assert!(matches!(s.take(Timeout::Forever, 1, 5, 0), TakeResult::Blocked));
    assert!(matches!(s.take(Timeout::Forever, 2, 9, 0), TakeResult::Blocked));
    let woken = s.reset();
    assert_eq!(woken.len(), 2);
    assert_eq!(woken[0].id, 2, "wake order is by priority");
    assert_eq!(woken[1].id, 1);
    assert_eq!(s.count(), 0);
    // Nobody is left waiting: a give now lands in the counter.
    assert!(s.give().is_none());
    assert_eq!(s.count(), 1);
}

#[test]
fn sem_reset_clears_a_positive_count() {
    let mut s = CountingSemaphore::new(2, 4).unwrap();
    let woken = s.reset();
    assert!(woken.is_empty());
    assert_eq!(s.count(), 0);
}

#[test]
fn sem_limit_zero_still_signals() {
    // With a zero limit the counter can never rise, but a give is not
    // lost when someone is waiting: the unit goes straight to the taker.
    let mut s = CountingSemaphore::new(0, 0).unwrap();
    assert!(s.give().is_none());
    assert_eq!(s.count(), 0);
    assert!(matches!(s.take(Timeout::Forever, 4, 5, 0), TakeResult::Blocked));
    assert_eq!(s.give(), Some(4));
    assert_eq!(s.count(), 0);
}

#[test]
fn sem_take_timeout_expiry() {
    let mut s = CountingSemaphore::new(0, 1).unwrap();
    assert!(matches!(s.take(Timeout::After(3), 6, 5, 2), TakeResult::Blocked));
    // Deadline is 2 + 3 = 5.
    assert!(matches!(s.expire(6, 4), SemExpireResult::NotExpired));
    assert!(matches!(s.expire(6, 5), SemExpireResult::TakerTimedOut));
    assert!(matches!(s.expire(6, 5), SemExpireResult::NotExpired));
    // With the taker gone, a give lands in the counter.
    assert!(s.give().is_none());
    assert_eq!(s.count(), 1);
}

#[test]
fn sem_wakes_highest_priority_taker_first() {
    let mut s = CountingSemaphore::new(0, 1).unwrap();
    assert!(matches!(s.take(Timeout::Forever, 1, 1, 0), TakeResult::Blocked));
    assert!(matches!(s.take(Timeout::Forever, 2, 9, 0), TakeResult::Blocked));
    assert_eq!(s.give(), Some(2));
    assert_eq!(s.give(), Some(1));
}

#[test]
fn timeout_deadline_derivation() {
    assert_eq!(Timeout::Forever.deadline(123), Deadline::Never);
    assert_eq!(Timeout::NoWait.deadline(7), Deadline::At(7));
    assert_eq!(Timeout::After(5).deadline(10), Deadline::At(15));
    // A duration beyond the clock's range clamps to the largest tick.
    assert_eq!(Timeout::After(u64::MAX).deadline(1), Deadline::At(u64::MAX));
}

#[test]
fn deadline_expiry_checks() {
    assert!(!Deadline::Never.is_expired(u64::MAX));
    assert!(!Deadline::At(10).is_expired(9));
    assert!(Deadline::At(10).is_expired(10));
    assert!(Deadline::At(10).is_expired(11));
}
