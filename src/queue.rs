//! A FIFO queue bounded by the total size of what it holds.

use crate::error::NetError;
use std::collections::VecDeque;
use vstd::prelude::*;

verus! {

/// An item whose size in bytes counts against a queue's capacity.
pub trait WireSized {
    /// The size in bytes.
    spec fn wire_size(&self) -> nat;

    /// The size in bytes, saturated at `u64::MAX`.
    fn byte_size(&self) -> (r: u64)
        ensures
            r as nat == saturate(self.wire_size()),
    ;
}

/// `n`, or `u64::MAX` where `n` is larger.
pub open spec fn saturate(n: nat) -> nat {
    if n <= u64::MAX {
        n
    } else {
        u64::MAX as nat
    }
}

/// The total size of a sequence of items.
pub open spec fn total_size<T: WireSized>(s: Seq<T>) -> nat
    decreases s.len(),
{
    if s.len() == 0 {
        0
    } else {
        s[0].wire_size() + total_size(s.drop_first())
    }
}

/// Appending an item adds its size to the total.
pub proof fn lemma_total_size_push<T: WireSized>(s: Seq<T>, x: T)
    ensures
        total_size(s.push(x)) == total_size(s) + x.wire_size(),
    decreases s.len(),
{
    if s.len() > 0 {
        assert(s.push(x).drop_first() =~= s.drop_first().push(x));
        assert(s.push(x)[0] == s[0]);
        lemma_total_size_push(s.drop_first(), x);
    } else {
        assert(s.push(x).drop_first() =~= Seq::<T>::empty());
        assert(s.push(x)[0] == x);
        assert(total_size(Seq::<T>::empty()) == 0);
    }
}

/// A FIFO queue whose items' sizes together never exceed its capacity in bytes.
pub struct Queue<T: WireSized> {
    elements: VecDeque<T>,
    capacity: u32,
    used: u64,
}

impl<T: WireSized> View for Queue<T> {
    type V = Seq<T>;

    /// The items, head first.
    closed spec fn view(&self) -> Seq<T> {
        self.elements@
    }
}

impl<T: WireSized> Queue<T> {
    /// The capacity in bytes.
    pub closed spec fn max_bytes(&self) -> nat {
        self.capacity as nat
    }

    /// The bytes that the items take up.
    pub open spec fn used_bytes(&self) -> nat {
        total_size(self@)
    }

    /// The running total matches the items, and stays within capacity.
    pub closed spec fn wf(&self) -> bool {
        &&& self.used as nat == total_size(self.elements@)
        &&& self.used <= self.capacity
    }

    /// The items never take up more than the capacity.
    pub proof fn lemma_within_capacity(&self)
        requires
            self.wf(),
        ensures
            self.used_bytes() <= self.max_bytes(),
            self.max_bytes() <= u32::MAX,
    {
    }

    /// An empty queue that holds at most `capacity` bytes.
    pub fn new(capacity: u32) -> (r: Queue<T>)
        ensures
            r@ == Seq::<T>::empty(),
            r.max_bytes() == capacity,
            r.used_bytes() == 0,
            r.wf(),
    {
        Queue { elements: VecDeque::new(), capacity, used: 0 }
    }

    /// The capacity in bytes.
    pub fn capacity(&self) -> (r: u32)
        ensures
            r == self.max_bytes(),
    {
        self.capacity
    }

    /// The bytes that the items take up.
    pub fn used(&self) -> (r: u64)
        requires
            self.wf(),
        ensures
            r == self.used_bytes(),
    {
        self.used
    }

    /// Adds `item` at the tail if its size fits in the room left; otherwise
    /// fails with `QueueFull` and leaves the queue as it was.
    pub fn enqueue(&mut self, item: T) -> (r: Result<(), NetError>)
        requires
            old(self).wf(),
        ensures
            final(self).wf(),
            final(self).max_bytes() == old(self).max_bytes(),
            old(self).used_bytes() + item.wire_size() <= old(self).max_bytes() ==> r is Ok
                && final(self)@ == old(self)@.push(item),
            old(self).used_bytes() + item.wire_size() > old(self).max_bytes() ==> r
                == Err::<(), NetError>(NetError::QueueFull) && final(self)@ == old(self)@,
    {
        let size = item.byte_size();
        let room: u64 = self.capacity as u64 - self.used;
        if size <= room {
            proof {
                lemma_total_size_push(self.elements@, item);
            }
            self.elements.push_back(item);
            self.used = self.used + size;
            Ok(())
        } else {
            Err(NetError::QueueFull)
        }
    }

    /// Removes and returns the head, if any.
    pub fn dequeue(&mut self) -> (r: Option<T>)
        requires
            old(self).wf(),
        ensures
            final(self).wf(),
            final(self).max_bytes() == old(self).max_bytes(),
            old(self)@.len() > 0 ==> r == Some(old(self)@[0]) && final(self)@ == old(self)@.drop_first(),
            old(self)@.len() == 0 ==> r is None && final(self)@ == old(self)@,
    {
        match self.elements.pop_front() {
            Some(item) => {
                let size = item.byte_size();
                self.used = self.used - size;
                Some(item)
            },
            None => None,
        }
    }

    /// Whether the queue holds no item.
    pub fn is_empty(&self) -> (r: bool)
        ensures
            r == (self@.len() == 0),
    {
        self.elements.len() == 0
    }

    /// The number of items.
    pub fn len(&self) -> (r: usize)
        ensures
            r == self@.len(),
    {
        self.elements.len()
    }

    /// The head, left in place.
    pub fn peek(&self) -> (r: Option<&T>)
        ensures
            self@.len() > 0 ==> r is Some && *r->0 == self@[0],
            self@.len() == 0 ==> r is None,
    {
        if self.elements.len() == 0 {
            None
        } else {
            Some(&self.elements[0])
        }
    }
}

} // verus!
