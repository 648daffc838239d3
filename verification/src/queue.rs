//! Fixed-capacity ring buffers for inter-thread message passing: a
//! single-producer single-consumer queue and a multi-producer wrapper.
//!
//! The ring holds `capacity - 1` items: it is full when the next write
//! position would reach the read position.  The abstract value of a queue
//! is the sequence of items currently held, oldest first; `try_push`
//! appends to it and `try_pop` takes its first element, so consumers
//! observe items in exactly the order producers enqueued them.

use vstd::prelude::*;

use crate::fixed::is_pow2;

verus! {

/// SPSC (single-producer, single-consumer) ring-buffer queue.
pub struct LockFreeQueue<T> {
    /// Ring storage; slots outside the occupied range are arbitrary.
    pub buffer: Vec<Option<T>>,
    /// Capacity (a power of 2).
    pub capacity: usize,
    /// Mask for index wrapping (capacity - 1).
    pub mask: usize,
    /// Read index (consumer side), in `[0, capacity)`.
    pub head: usize,
    /// Write index (producer side), in `[0, capacity)`.
    pub tail: usize,
}

impl<T> LockFreeQueue<T> {
    /// Number of items currently held.
    pub open spec fn spec_len(self) -> int {
        if self.tail >= self.head {
            self.tail - self.head
        } else {
            self.capacity - self.head + self.tail
        }
    }

    /// The storage slot of the `i`-th oldest item.
    pub open spec fn phys(self, i: int) -> int {
        if self.head + i < self.capacity {
            self.head + i
        } else {
            self.head + i - self.capacity
        }
    }

    /// Well-formedness: power-of-two capacity, indices in range, and every
    /// occupied slot holding a value.
    pub open spec fn wf(self) -> bool {
        &&& is_pow2(self.capacity as int)
        &&& self.mask == self.capacity - 1
        &&& self.buffer.len() == self.capacity
        &&& self.head < self.capacity
        &&& self.tail < self.capacity
        &&& forall|i: int|
            0 <= i < self.spec_len() ==> (#[trigger] self.buffer@[self.phys(i)]) is Some
    }
}

impl<T> View for LockFreeQueue<T> {
    type V = Seq<T>;

    /// The items currently held, oldest first.
    open spec fn view(&self) -> Seq<T> {
        Seq::new(self.spec_len() as nat, |i: int| self.buffer@[self.phys(i)].unwrap())
    }
}

impl<T> LockFreeQueue<T> {
    /// Create a new queue; the capacity must be a power of 2, and the queue
    /// holds up to `capacity - 1` items.
    pub fn new(capacity: usize) -> (q: LockFreeQueue<T>)
        requires
            is_pow2(capacity as int),
        ensures
            q.wf(),
            q@ == Seq::<T>::empty(),
            q.capacity == capacity,
    {
        let mut buffer: Vec<Option<T>> = Vec::new();
        let mut i: usize = 0;
        while i < capacity
            invariant
                i <= capacity,
                buffer.len() == i,
            decreases capacity - i,
        {
            buffer.push(None);
            i = i + 1;
        }
        let q = LockFreeQueue { buffer, capacity, mask: capacity - 1, head: 0, tail: 0 };
        proof {
            assert(q@ =~= Seq::<T>::empty());
        }
        q
    }

    /// Try to push an item: appends it to the held sequence, or hands it
    /// back unchanged when the queue is full.
    pub fn try_push(&mut self, item: T) -> (r: Result<(), T>)
        requires
            old(self).wf(),
        ensures
            final(self).wf(),
            final(self).capacity == old(self).capacity,
            old(self)@.len() == old(self).capacity - 1 ==> (r matches Err(it) && it == item
                && final(self)@ == old(self)@),
            old(self)@.len() < old(self).capacity - 1 ==> r is Ok
                && final(self)@ == old(self)@.push(item),
    {
        let tail: usize = self.tail;
        let next_tail: usize = if tail + 1 == self.capacity {
            0
        } else {
            tail + 1
        };
        let head: usize = self.head;

        if next_tail == head {
            // Queue is full.
            return Err(item);
        }

        self.buffer[tail] = Some(item);
        self.tail = next_tail;

        proof {
            let pre = *old(self);
            assert(self.spec_len() == pre.spec_len() + 1);
            assert(pre.phys(pre.spec_len()) == pre.tail);
            assert forall|i: int| 0 <= i < pre.spec_len() implies pre.phys(i) != pre.tail by {}
            assert forall|i: int| 0 <= i < self.spec_len() implies (
            #[trigger] self.buffer@[self.phys(i)]) is Some by {
                assert(self.phys(i) == pre.phys(i));
                if i < pre.spec_len() {
                    assert(pre.buffer@[pre.phys(i)] is Some);
                }
            }
            assert(self@ =~= pre@.push(item));
        }
        Ok(())
    }

    /// Try to pop an item: takes the oldest held item, or `None` when the
    /// queue is empty.
    pub fn try_pop(&mut self) -> (r: Option<T>) where T: Copy
        requires
            old(self).wf(),
        ensures
            final(self).wf(),
            final(self).capacity == old(self).capacity,
            old(self)@.len() == 0 ==> r is None && final(self)@ == old(self)@,
            old(self)@.len() > 0 ==> r == Some(old(self)@[0])
                && final(self)@ == old(self)@.drop_first(),
    {
        let head: usize = self.head;
        let tail: usize = self.tail;

        if head == tail {
            // Queue is empty.
            return None;
        }

        proof {
            assert(old(self).phys(0) == old(self).head);
            assert(old(self).buffer@[old(self).phys(0)] is Some);
        }
        let slot: Option<T> = self.buffer[head];
        let item: T = slot.unwrap();

        let next_head: usize = if head + 1 == self.capacity {
            0
        } else {
            head + 1
        };
        self.head = next_head;

        proof {
            let pre = *old(self);
            assert(self.spec_len() == pre.spec_len() - 1);
            assert forall|i: int| 0 <= i < self.spec_len() implies self.phys(i) == pre.phys(i + 1)
                && (#[trigger] self.buffer@[self.phys(i)]) is Some by {
                assert(pre.buffer@[pre.phys(i + 1)] is Some);
            }
            assert(self@ =~= pre@.drop_first());
        }
        Some(item)
    }

    /// Whether the queue is empty.
    pub fn is_empty(&self) -> (r: bool)
        requires
            self.wf(),
        ensures
            r == (self@.len() == 0),
    {
        self.head == self.tail
    }

    /// Whether the queue is full (holds `capacity - 1` items).
    pub fn is_full(&self) -> (r: bool)
        requires
            self.wf(),
        ensures
            r == (self@.len() == self.capacity - 1),
    {
        let next_tail: usize = if self.tail + 1 == self.capacity {
            0
        } else {
            self.tail + 1
        };
        next_tail == self.head
    }

    /// The number of items in the queue.
    pub fn len(&self) -> (r: usize)
        requires
            self.wf(),
        ensures
            r == self@.len(),
    {
        if self.tail >= self.head {
            self.tail - self.head
        } else {
            self.capacity - self.head + self.tail
        }
    }

    /// The queue's capacity.
    pub fn capacity(&self) -> (r: usize)
        ensures
            r == self.capacity,
    {
        self.capacity
    }
}

/// MPSC (multi-producer, single-consumer) queue: the same ring with the
/// producer side shared; its abstract value is the same held sequence.
pub struct MPSCQueue<T> {
    /// The underlying ring.
    pub inner: LockFreeQueue<T>,
}

impl<T> View for MPSCQueue<T> {
    type V = Seq<T>;

    open spec fn view(&self) -> Seq<T> {
        self.inner@
    }
}

impl<T> MPSCQueue<T> {
    /// The underlying ring is well-formed.
    pub open spec fn wf(self) -> bool {
        self.inner.wf()
    }

    /// Create a new MPSC queue; the capacity must be a power of 2.
    pub fn new(capacity: usize) -> (q: MPSCQueue<T>)
        requires
            is_pow2(capacity as int),
        ensures
            q.wf(),
            q@ == Seq::<T>::empty(),
            q.inner.capacity == capacity,
    {
        MPSCQueue { inner: LockFreeQueue::new(capacity) }
    }

    /// Try to push an item (producers coordinate outside the queue).
    pub fn try_push(&mut self, item: T) -> (r: Result<(), T>)
        requires
            old(self).wf(),
        ensures
            final(self).wf(),
            final(self).inner.capacity == old(self).inner.capacity,
            old(self)@.len() == old(self).inner.capacity - 1 ==> (r matches Err(it) && it
                == item && final(self)@ == old(self)@),
            old(self)@.len() < old(self).inner.capacity - 1 ==> r is Ok
                && final(self)@ == old(self)@.push(item),
    {
        self.inner.try_push(item)
    }

    /// Try to pop an item (single consumer).
    pub fn try_pop(&mut self) -> (r: Option<T>) where T: Copy
        requires
            old(self).wf(),
        ensures
            final(self).wf(),
            final(self).inner.capacity == old(self).inner.capacity,
            old(self)@.len() == 0 ==> r is None && final(self)@ == old(self)@,
            old(self)@.len() > 0 ==> r == Some(old(self)@[0])
                && final(self)@ == old(self)@.drop_first(),
    {
        self.inner.try_pop()
    }

    /// Whether the queue is empty.
    pub fn is_empty(&self) -> (r: bool)
        requires
            self.wf(),
        ensures
            r == (self@.len() == 0),
    {
        self.inner.is_empty()
    }
}

/// One queue operation, for reasoning about whole histories.
pub enum QueueOp<T> {
    /// A producer offers a value.
    Push(T),
    /// The consumer takes a value.
    Pop,
}

/// Run a history of operations against the queue semantics, from an empty
/// queue: returns (held items, accepted pushes, popped items).  A push onto
/// a full queue and a pop from an empty one are dropped, as `try_push` and
/// `try_pop` report.
pub open spec fn run_queue<T>(cap: int, ops: Seq<QueueOp<T>>) -> (Seq<T>, Seq<T>, Seq<T>)
    decreases ops.len(),
{
    if ops.len() == 0 {
        (Seq::empty(), Seq::empty(), Seq::empty())
    } else {
        let s = run_queue(cap, ops.drop_last());
        match ops.last() {
            QueueOp::Push(v) => {
                if s.0.len() < cap - 1 {
                    (s.0.push(v), s.1.push(v), s.2)
                } else {
                    s
                }
            },
            QueueOp::Pop => {
                if s.0.len() > 0 {
                    (s.0.drop_first(), s.1, s.2.push(s.0.first()))
                } else {
                    s
                }
            },
        }
    }
}

/// FIFO law: under any history of pushes and pops, the accepted pushes are
/// exactly the popped items followed by the items still held — so the
/// consumer observes exactly the accepted values, in push order, each
/// exactly once.
pub proof fn lemma_queue_fifo<T>(cap: int, ops: Seq<QueueOp<T>>)
    ensures
        run_queue(cap, ops).1 == run_queue(cap, ops).2 + run_queue(cap, ops).0,
        run_queue(cap, ops).2 == run_queue(cap, ops).1.take(run_queue(cap, ops).2.len() as int),
    decreases ops.len(),
{
    if ops.len() == 0 {
        assert(run_queue(cap, ops).1 =~= run_queue(cap, ops).2 + run_queue(cap, ops).0);
        assert(run_queue(cap, ops).2 =~= run_queue(cap, ops).1.take(
            run_queue(cap, ops).2.len() as int,
        ));
    } else {
        lemma_queue_fifo(cap, ops.drop_last());
        let s = run_queue(cap, ops.drop_last());
        let t = run_queue(cap, ops);
        match ops.last() {
            QueueOp::Push(v) => {
                if s.0.len() < cap - 1 {
                    assert(s.1.push(v) =~= s.2 + s.0.push(v));
                }
            },
            QueueOp::Pop => {
                if s.0.len() > 0 {
                    assert(s.1 =~= s.2.push(s.0.first()) + s.0.drop_first());
                }
            },
        }
        assert(t.2 =~= t.1.take(t.2.len() as int));
    }
}

} // verus!
