//! A bounded FIFO queue with a fixed capacity.
//!
//! Both pool queues (pending work and ready instances) are bounded: a push
//! against a full queue fails and hands the value back, it never blocks and
//! never grows the queue.

use vstd::prelude::*;

verus! {

/// Fixed-capacity FIFO queue.  `push` appends at the back and fails on a full
/// queue; `pop` removes from the front.
pub struct BoundedQueue<T> {
    items: Vec<T>,
    capacity: usize,
}

impl<T> View for BoundedQueue<T> {
    type V = Seq<T>;

    closed spec fn view(&self) -> Seq<T> {
        self.items@
    }
}

impl<T> BoundedQueue<T> {
    /// Number of elements the queue can hold at once.
    pub closed spec fn cap(&self) -> nat {
        self.capacity as nat
    }

    /// Creates an empty queue holding at most `capacity` elements.
    pub fn new(capacity: usize) -> (q: Self)
        requires
            capacity >= 1,
        ensures
            q@ == Seq::<T>::empty(),
            q.cap() == capacity,
    {
        BoundedQueue { items: Vec::new(), capacity }
    }

    /// Appends `value` at the back; a full queue refuses it and hands it back.
    pub fn push(&mut self, value: T) -> (r: Result<(), T>)
        ensures
            old(self)@.len() < old(self).cap() ==> r is Ok && final(self)@ == old(self)@.push(value),
            old(self)@.len() >= old(self).cap() ==> r == Err::<(), T>(value) && final(self)@ == old(self)@,
            final(self).cap() == old(self).cap(),
    {
        if self.items.len() < self.capacity {
            self.items.push(value);
            Ok(())
        } else {
            Err(value)
        }
    }

    /// Removes and returns the front element, or `None` on an empty queue.
    pub fn pop(&mut self) -> (r: Option<T>)
        ensures
            old(self)@.len() == 0 ==> r is None && final(self)@ == old(self)@,
            old(self)@.len() > 0 ==> r == Some(old(self)@[0]) && final(self)@ == old(self)@.drop_first(),
            final(self).cap() == old(self).cap(),
    {
        if self.items.len() > 0 {
            let value = self.items.remove(0);
            assert(self.items@ =~= old(self).items@.drop_first());
            Some(value)
        } else {
            None
        }
    }

    /// Number of elements currently queued.
    pub fn len(&self) -> (n: usize)
        ensures
            n == self@.len(),
    {
        self.items.len()
    }

    /// True when nothing is queued.
    pub fn is_empty(&self) -> (r: bool)
        ensures
            r <==> self@.len() == 0,
    {
        self.items.len() == 0
    }
}

} // verus!
