//! Ring-buffer queue tests: the queue holds `capacity - 1` items and
//! delivers them first-in first-out.

use hedging_engine::queue::LockFreeQueue;
use hedging_engine::queue::MPSCQueue;

#[test]
fn test_basic_operations() {
    let mut queue: LockFreeQueue<i32> = LockFreeQueue::<i32>::new(4);

    assert!(queue.is_empty());
    assert!(!queue.is_full());

    // Push items.
    assert!(queue.try_push(1).is_ok());
    assert!(queue.try_push(2).is_ok());
    assert!(queue.try_push(3).is_ok());

    assert!(!queue.is_empty());
    assert!(queue.is_full());

    // Pushing into a full queue hands the item back.
    assert!(queue.try_push(4).is_err());

    // Pop items, in order.
    assert_eq!(queue.try_pop(), Some(1));
    assert_eq!(queue.try_pop(), Some(2));
    assert_eq!(queue.try_pop(), Some(3));
    assert_eq!(queue.try_pop(), None);

    assert!(queue.is_empty());
}

#[test]
fn test_queue_size() {
    let mut queue: LockFreeQueue<i32> = LockFreeQueue::<i32>::new(8);

    assert_eq!(queue.len(), 0);

    queue.try_push(1).unwrap();
    queue.try_push(2).unwrap();
    assert_eq!(queue.len(), 2);

    queue.try_pop();
    assert_eq!(queue.len(), 1);
}

#[test]
fn test_spsc_order() {
    // Interleaved pushes of 0..N with pops: the pops observe exactly
    // 0..N in order, nothing lost, nothing duplicated.
    let mut queue: LockFreeQueue<i32> = LockFreeQueue::<i32>::new(16);
    let mut received: Vec<i32> = Vec::new();
    let mut next: i32 = 0;

    while received.len() < 1000 {
        // Fill in bursts of 10, drain in bursts of 7.
        for _ in 0..10 {
            if next < 1000 && queue.try_push(next).is_ok() {
                next += 1;
            }
        }
        for _ in 0..7 {
            if let Some(v) = queue.try_pop() {
                received.push(v);
            }
        }
    }

    assert_eq!(received.len(), 1000);
    for (i, &v) in received.iter().enumerate() {
        assert_eq!(v, i as i32);
    }
}

#[test]
fn test_queue_wraps_around() {
    let mut queue: LockFreeQueue<u64> = LockFreeQueue::<u64>::new(4);
    // Push/pop more items than the capacity so the indices wrap.
    for round in 0..10u64 {
        queue.try_push(round * 2).unwrap();
        queue.try_push(round * 2 + 1).unwrap();
        assert_eq!(queue.try_pop(), Some(round * 2));
        assert_eq!(queue.try_pop(), Some(round * 2 + 1));
    }
    assert!(queue.is_empty());
}

#[test]
fn test_mpsc_basic() {
    let mut queue: MPSCQueue<i32> = MPSCQueue::<i32>::new(8);

    assert!(queue.is_empty());
    for i in 0..7 {
        assert!(queue.try_push(i).is_ok());
    }
    assert!(queue.try_push(7).is_err());

    for i in 0..7 {
        assert_eq!(queue.try_pop(), Some(i));
    }
    assert_eq!(queue.try_pop(), None);
}

#[test]
fn test_mpsc_receives_all_exactly_once() {
    // Several producers' batches, drained by one consumer: every accepted
    // item arrives exactly once.
    let mut queue: MPSCQueue<i32> = MPSCQueue::<i32>::new(2048);
    for producer in 0..4 {
        for i in 0..250 {
            queue.try_push(producer * 1000 + i).unwrap();
        }
    }

    let mut received: Vec<i32> = Vec::new();
    while let Some(v) = queue.try_pop() {
        received.push(v);
    }

    assert_eq!(received.len(), 1000);
    received.sort();
    for (idx, &v) in received.iter().enumerate() {
        let producer = (idx / 250) as i32;
        let i = (idx % 250) as i32;
        assert_eq!(v, producer * 1000 + i);
    }
}
