//! A bounded first-in first-out queue over a fixed ring of slots, used for the
//! callbacks pending on a process and for the interrupts pending on the chip.
use vstd::prelude::*;

verus! {

/// A ring of `slots.len()` slots holding up to that many items.
pub struct RingBuffer<T> {
    slots: Vec<Option<T>>,
    head: usize,
    count: usize,
}

impl<T: Copy> RingBuffer<T> {
    /// Index of the slot that holds the `i`-th queued item.
    pub closed spec fn slot_of(&self, i: int) -> int {
        if self.head + i < self.slots.len() {
            self.head + i
        } else {
            self.head + i - self.slots.len()
        }
    }

    /// The ring is well formed: the queued items occupy `count` consecutive
    /// slots (wrapping round) starting at `head`.
    pub closed spec fn wf(&self) -> bool {
        &&& self.slots.len() > 0
        &&& self.head < self.slots.len()
        &&& self.count <= self.slots.len()
        &&& forall|i: int| 0 <= i < self.count ==> (#[trigger] self.slots@[self.slot_of(i)]) is Some
    }

    /// The queued items, oldest first.
    pub closed spec fn view(&self) -> Seq<T> {
        Seq::new(self.count as nat, |i: int| self.slots@[self.slot_of(i)]->Some_0)
    }

    /// The most items the queue can hold.
    pub closed spec fn capacity(&self) -> nat {
        self.slots.len() as nat
    }

    /// An empty queue that can hold `capacity` items.
    pub fn new(capacity: usize) -> (q: Self)
        requires
            capacity > 0,
        ensures
            q.wf(),
            q@ == Seq::<T>::empty(),
            q.capacity() == capacity,
    {
        let mut slots: Vec<Option<T>> = Vec::new();
        let mut i: usize = 0;
        while i < capacity
            invariant
                i <= capacity,
                slots.len() == i,
            decreases capacity - i,
        {
            slots.push(None);
            i = i + 1;
        }
        let q = RingBuffer { slots, head: 0, count: 0 };
        assert(q@ =~= Seq::<T>::empty());
        q
    }

    /// Whether anything is queued.
    pub fn has_elements(&self) -> (b: bool)
        requires
            self.wf(),
        ensures
            b == (self@.len() > 0),
    {
        self.count > 0
    }

    /// Whether the queue holds as many items as it can.
    pub fn is_full(&self) -> (b: bool)
        requires
            self.wf(),
        ensures
            b == (self@.len() == self.capacity()),
    {
        self.count == self.slots.len()
    }

    /// Number of queued items.
    pub fn len(&self) -> (n: usize)
        requires
            self.wf(),
        ensures
            n == self@.len(),
    {
        self.count
    }

    /// Appends `val` at the back. Returns false, and changes nothing, when the
    /// queue is full.
    pub fn enqueue(&mut self, val: T) -> (ok: bool)
        requires
            old(self).wf(),
        ensures
            final(self).wf(),
            final(self).capacity() == old(self).capacity(),
            ok == (old(self)@.len() < old(self).capacity()),
            ok ==> final(self)@ == old(self)@.push(val),
            !ok ==> final(self)@ == old(self)@,
    {
        if self.count == self.slots.len() {
            return false;
        }
        let cap = self.slots.len();
        let tail: usize = if self.head < cap - self.count {
            self.head + self.count
        } else {
            self.head - (cap - self.count)
        };
        let ghost old_self = *self;
        self.slots.set(tail, Some(val));
        self.count = self.count + 1;
        assert forall|i: int| 0 <= i < self.count implies (#[trigger] self.slots@[self.slot_of(i)]) is Some by {
            if i < old_self.count {
                assert(self.slot_of(i) == old_self.slot_of(i));
                assert(old_self.slots@[old_self.slot_of(i)] is Some);
            }
        }
        assert(self@ =~= old_self@.push(val)) by {
            assert forall|i: int| 0 <= i < old_self.count implies self@[i] == old_self@[i] by {
                assert(self.slot_of(i) == old_self.slot_of(i));
            }
        }
        true
    }

    /// Removes and returns the front item, or `None` when the queue is empty.
    pub fn dequeue(&mut self) -> (r: Option<T>)
        requires
            old(self).wf(),
        ensures
            final(self).wf(),
            final(self).capacity() == old(self).capacity(),
            old(self)@.len() == 0 ==> r is None && final(self)@ == old(self)@,
            old(self)@.len() > 0 ==> r == Some(old(self)@[0]) && final(self)@ == old(self)@.drop_first(),
    {
        if self.count == 0 {
            return None;
        }
        let ghost old_self = *self;
        assert(self.slots@[self.slot_of(0)] is Some);
        let val = self.slots[self.head];
        let cap = self.slots.len();
        self.head = if self.head + 1 < cap { self.head + 1 } else { 0 };
        self.count = self.count - 1;
        assert forall|i: int| 0 <= i < self.count implies (#[trigger] self.slots@[self.slot_of(i)]) is Some by {
            assert(self.slot_of(i) == old_self.slot_of(i + 1));
            assert(old_self.slots@[old_self.slot_of(i + 1)] is Some);
        }
        assert(self@ =~= old_self@.drop_first()) by {
            assert forall|i: int| 0 <= i < self.count implies self@[i] == old_self@[i + 1] by {
                assert(self.slot_of(i) == old_self.slot_of(i + 1));
            }
        }
        val
    }
}

/// Law: the queue is first in, first out. Enqueueing `x` onto contents `s`
/// that are not full, then dequeueing, yields the front of `s`, or `x` itself
/// when `s` was empty; and what remains is `s` without its front, followed by
/// `x`.
pub proof fn lemma_fifo<T>(s: Seq<T>, x: T)
    ensures
        s.push(x)[0] == (if s.len() > 0 { s[0] } else { x }),
        s.push(x).drop_first() == (if s.len() > 0 { s.drop_first().push(x) } else { Seq::<T>::empty() }),
{
    if s.len() > 0 {
        assert(s.push(x).drop_first() =~= s.drop_first().push(x));
    } else {
        assert(s.push(x).drop_first() =~= Seq::<T>::empty());
    }
}

} // verus!
