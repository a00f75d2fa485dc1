//! The queue of interrupt vectors that wait for the processor, oldest first.

use std::collections::VecDeque;
use vstd::prelude::*;

verus! {

/// Pending interrupt vectors in order of arrival.
pub struct InterruptQueue {
    pending: VecDeque<u8>,
}

impl View for InterruptQueue {
    type V = Seq<u8>;

    /// The pending vectors, the oldest at index 0.
    closed spec fn view(&self) -> Seq<u8> {
        self.pending@
    }
}

impl InterruptQueue {
    /// An empty queue.
    pub fn new() -> (queue: Self)
        ensures
            queue@ == Seq::<u8>::empty(),
    {
        InterruptQueue { pending: VecDeque::new() }
    }

    /// Appends `vector` behind everything that is pending.
    pub fn push(&mut self, vector: u8)
        ensures
            final(self)@ == old(self)@.push(vector),
    {
        self.pending.push_back(vector);
    }

    /// Whether a vector is pending. Takes nothing from the queue.
    pub fn has_pending(&self) -> (pending: bool)
        ensures
            pending == (self@.len() > 0),
    {
        self.pending.len() > 0
    }

    /// Removes and returns the oldest pending vector. The queue must not be
    /// empty: check `has_pending` first.
    pub fn pop(&mut self) -> (vector: u8)
        requires
            old(self)@.len() > 0,
        ensures
            vector == old(self)@.first(),
            final(self)@ == old(self)@.drop_first(),
    {
        let oldest = self.pending.pop_front();
        oldest.unwrap()
    }
}

} // verus!
