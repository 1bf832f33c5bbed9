//! The public queue handles. Each is a shared handle on one engine: a
//! clone aliases the same queue, it does not copy it.
use crate::engine::BoundedEngine;
use crate::engine::Unbounded;
use crate::map::share;
use crate::ordering::Fifo;
use crate::ordering::MaxQueue;
use std::sync::Arc;
use vstd::prelude::*;

verus! {

/// An unbounded, blocking concurrent queue.
#[verifier::reject_recursive_types(T)]
pub struct Queue<T> {
    ptr: Arc<Unbounded<Fifo<T>>>,
}

impl<T> Queue<T> {
    /// The engine that every handle on this queue reaches.
    pub closed spec fn engine(&self) -> Unbounded<Fifo<T>> {
        *self.ptr
    }

    /// A new, empty queue.
    pub fn new() -> Queue<T> {
        Queue { ptr: Arc::new(Unbounded::new()) }
    }

    /// Pops a value from the front of the queue, blocking until the queue is
    /// not empty.
    pub fn pop(&self) -> T {
        self.ptr.pop()
    }

    /// Pushes a value to the back of the queue.
    pub fn push(&self, item: T) {
        self.ptr.push(item)
    }
}

impl<T> Clone for Queue<T> {
    /// A second handle on the same queue.
    fn clone(&self) -> (r: Queue<T>)
        ensures
            r.engine() == self.engine(),
    {
        Queue { ptr: share(&self.ptr) }
    }
}

/// An unbounded, blocking concurrent priority queue: the largest value
/// comes out first.
pub struct BlockingPriorityQueue {
    ptr: Arc<Unbounded<MaxQueue>>,
}

impl BlockingPriorityQueue {
    /// The engine that every handle on this queue reaches.
    pub closed spec fn engine(&self) -> Unbounded<MaxQueue> {
        *self.ptr
    }

    /// A new, empty priority queue.
    pub fn new() -> BlockingPriorityQueue {
        BlockingPriorityQueue { ptr: Arc::new(Unbounded::new()) }
    }

    /// Pops a largest value, blocking until the queue is not empty.
    pub fn pop(&self) -> u64 {
        self.ptr.pop()
    }

    /// Pushes a value into the queue.
    pub fn push(&self, item: u64) {
        self.ptr.push(item)
    }
}

impl Clone for BlockingPriorityQueue {
    /// A second handle on the same queue.
    fn clone(&self) -> (r: BlockingPriorityQueue)
        ensures
            r.engine() == self.engine(),
    {
        BlockingPriorityQueue { ptr: share(&self.ptr) }
    }
}

/// A bounded, blocking concurrent queue.
#[verifier::reject_recursive_types(T)]
pub struct BoundedQueue<T> {
    ptr: Arc<BoundedEngine<Fifo<T>>>,
}

impl<T> BoundedQueue<T> {
    /// The engine that every handle on this queue reaches.
    pub closed spec fn engine(&self) -> BoundedEngine<Fifo<T>> {
        *self.ptr
    }

    /// The most values the queue holds at once.
    pub closed spec fn capacity(&self) -> nat {
        self.ptr.capacity()
    }

    /// A new, empty queue holding at most `maximum` values.
    pub fn new(maximum: usize) -> (r: BoundedQueue<T>)
        ensures
            r.capacity() == maximum,
    {
        BoundedQueue { ptr: Arc::new(BoundedEngine::new(maximum)) }
    }

    /// Pops a value from the front of the queue, blocking until the queue is
    /// not empty.
    pub fn pop(&self) -> T {
        self.ptr.pop()
    }

    /// Pushes a value to the back of the queue, blocking until the queue is
    /// not full.
    pub fn push(&self, item: T) {
        self.ptr.push(item)
    }
}

impl<T> Clone for BoundedQueue<T> {
    /// A second handle on the same queue.
    fn clone(&self) -> (r: BoundedQueue<T>)
        ensures
            r.engine() == self.engine(),
            r.capacity() == self.capacity(),
    {
        BoundedQueue { ptr: share(&self.ptr) }
    }
}

/// A bounded, blocking concurrent priority queue.
pub struct BoundedPriorityQueue {
    ptr: Arc<BoundedEngine<MaxQueue>>,
}

impl BoundedPriorityQueue {
    /// The engine that every handle on this queue reaches.
    pub closed spec fn engine(&self) -> BoundedEngine<MaxQueue> {
        *self.ptr
    }

    /// The most values the queue holds at once.
    pub closed spec fn capacity(&self) -> nat {
        self.ptr.capacity()
    }

    /// A new, empty priority queue holding at most `maximum` values.
    pub fn new(maximum: usize) -> (r: BoundedPriorityQueue)
        ensures
            r.capacity() == maximum,
    {
        BoundedPriorityQueue { ptr: Arc::new(BoundedEngine::new(maximum)) }
    }

    /// Pops a largest value, blocking until the queue is not empty.
    pub fn pop(&self) -> u64 {
        self.ptr.pop()
    }

    /// Pushes a value into the queue, blocking until the queue is not full.
    pub fn push(&self, item: u64) {
        self.ptr.push(item)
    }
}

impl Clone for BoundedPriorityQueue {
    /// A second handle on the same queue.
    fn clone(&self) -> (r: BoundedPriorityQueue)
        ensures
            r.engine() == self.engine(),
            r.capacity() == self.capacity(),
    {
        BoundedPriorityQueue { ptr: share(&self.ptr) }
    }
}

} // verus!
