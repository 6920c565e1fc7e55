//! A fixed-capacity FIFO ring of items.
//!
//! Appending to a full ring evicts the oldest item, so the length never
//! exceeds the capacity. The node uses one of these as the entropy history
//! and another for queued sonification messages.

use vstd::prelude::*;

verus! {

/// The sequence that results from appending `x` to a ring holding `s`
/// with capacity `cap`: a plain push while there is room, otherwise the
/// oldest item is dropped first.
pub open spec fn ring_append<T>(s: Seq<T>, cap: nat, x: T) -> Seq<T> {
    if s.len() < cap {
        s.push(x)
    } else {
        s.drop_first().push(x)
    }
}

/// A bounded FIFO buffer: at most `capacity` items, oldest first.
pub struct RingBuffer<T> {
    items: Vec<T>,
    capacity: usize,
}

impl<T> RingBuffer<T> {
    /// The current contents, oldest first.
    pub closed spec fn view(&self) -> Seq<T> {
        self.items@
    }

    pub closed spec fn cap(&self) -> nat {
        self.capacity as nat
    }

    pub open spec fn wf(&self) -> bool {
        self@.len() <= self.cap() && self.cap() >= 1
    }

    pub fn new(capacity: usize) -> (r: Self)
        requires
            capacity >= 1,
        ensures
            r.wf(),
            r@ == Seq::<T>::empty(),
            r.cap() == capacity,
    {
        RingBuffer { items: Vec::new(), capacity }
    }

    /// Appends an item; at capacity the oldest item is evicted first.
    pub fn append(&mut self, item: T)
        requires
            old(self).wf(),
        ensures
            final(self).wf(),
            final(self).cap() == old(self).cap(),
            final(self)@ == ring_append(old(self)@, old(self).cap(), item),
    {
        if self.items.len() == self.capacity {
            self.items.remove(0);
            proof {
                assert(self.items@ =~= old(self)@.drop_first());
            }
        }
        self.items.push(item);
    }

    /// The most recently appended item, if any.
    pub fn get_latest(&self) -> (r: Option<&T>)
        ensures
            match r {
                Some(x) => self@.len() > 0 && *x == self@.last(),
                None => self@.len() == 0,
            },
    {
        if self.items.len() == 0 {
            None
        } else {
            Some(&self.items[self.items.len() - 1])
        }
    }

    pub fn len(&self) -> (r: usize)
        ensures
            r == self@.len(),
    {
        self.items.len()
    }

    pub fn get(&self, i: usize) -> (r: &T)
        requires
            i < self@.len(),
        ensures
            *r == self@[i as int],
    {
        &self.items[i]
    }
}

/// Appending one sample to a history within capacity keeps it within
/// capacity, and a history already at capacity loses exactly its oldest
/// sample: afterwards the buffer starts with what used to be the second
/// item and ends with the new one.
pub proof fn lemma_ring_append_fifo<T>(s: Seq<T>, cap: nat, x: T)
    requires
        s.len() <= cap,
        cap >= 1,
    ensures
        ring_append(s, cap, x).len() <= cap,
        ring_append(s, cap, x).last() == x,
        s.len() < cap ==> ring_append(s, cap, x) == s.push(x),
        s.len() == cap ==> ring_append(s, cap, x).len() == cap
            && (forall|i: int| 0 <= i < cap - 1 ==> ring_append(s, cap, x)[i] == s[i + 1]),
{
    if s.len() < cap {
        assert(ring_append(s, cap, x) == s.push(x));
    } else {
        assert(forall|i: int|
            0 <= i < cap - 1 ==> ring_append(s, cap, x)[i] == s[i + 1]);
    }
}

} // verus!
