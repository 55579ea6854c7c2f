//! A bounded first-in first-out queue with the two overflow policies of the
//! media pipeline: turn the newcomer away, or make room by dropping the oldest.

use vstd::prelude::*;
use std::collections::VecDeque;

verus! {

/// A queue that never holds more than `capacity` items.
#[derive(Debug)]
pub struct BoundedQueue<T> {
    items: VecDeque<T>,
    capacity: usize,
}

impl<T> View for BoundedQueue<T> {
    type V = Seq<T>;

    /// The queued items, oldest first.
    closed spec fn view(&self) -> Seq<T> {
        self.items@
    }
}

impl<T> BoundedQueue<T> {
    #[verifier::type_invariant]
    spec fn within_capacity(&self) -> bool {
        self.items@.len() <= self.capacity
    }

    /// The most items the queue holds at once.
    pub closed spec fn capacity(&self) -> nat {
        self.capacity as nat
    }

    /// An empty queue.
    pub fn new(capacity: usize) -> (q: Self)
        ensures
            q@ == Seq::<T>::empty(),
            q.capacity() == capacity,
    {
        BoundedQueue { items: VecDeque::new(), capacity }
    }

    /// The number of queued items, which is never more than the capacity.
    pub fn len(&self) -> (n: usize)
        ensures
            n == self@.len(),
            n <= self.capacity(),
    {
        proof {
            use_type_invariant(self);
        }
        self.items.len()
    }

    /// Whether nothing is queued.
    pub fn is_empty(&self) -> (b: bool)
        ensures
            b == (self@.len() == 0),
    {
        self.items.len() == 0
    }

    /// Whether the queue holds as much as it may.
    pub fn is_full(&self) -> (b: bool)
        ensures
            b == (self@.len() == self.capacity()),
            self@.len() <= self.capacity(),
    {
        proof {
            use_type_invariant(self);
        }
        self.items.len() == self.capacity
    }

    /// Queues `item` unless the queue is full; a full queue hands it back and
    /// stays as it is.
    pub fn try_push(&mut self, item: T) -> (r: Result<(), T>)
        ensures
            final(self).capacity() == old(self).capacity(),
            old(self)@.len() <= old(self).capacity(),
            old(self)@.len() < old(self).capacity() ==> r is Ok && final(self)@ == old(self)@.push(
                item,
            ),
            old(self)@.len() == old(self).capacity() ==> r == Err::<(), T>(item) && final(self)@
                == old(self)@,
    {
        proof {
            use_type_invariant(&*self);
        }
        if self.items.len() < self.capacity {
            let mut items: VecDeque<T> = VecDeque::new();
            std::mem::swap(&mut self.items, &mut items);
            items.push_back(item);
            std::mem::swap(&mut self.items, &mut items);
            Ok(())
        } else {
            Err(item)
        }
    }

    /// Queues `item`, dropping the oldest item first when the queue is full.
    /// Returns what was dropped. A queue of capacity 0 drops `item` itself.
    pub fn push_drop_oldest(&mut self, item: T) -> (dropped: Option<T>)
        ensures
            final(self).capacity() == old(self).capacity(),
            old(self)@.len() <= old(self).capacity(),
            old(self)@.len() < old(self).capacity() ==> dropped is None && final(self)@ == old(
                self,
            )@.push(item),
            old(self)@.len() == old(self).capacity() && old(self).capacity() > 0 ==> dropped
                == Some(old(self)@[0]) && final(self)@ == old(self)@.drop_first().push(item),
            old(self).capacity() == 0 ==> dropped == Some(item) && final(self)@ == old(self)@,
    {
        proof {
            use_type_invariant(&*self);
        }
        if self.capacity == 0 {
            return Some(item);
        }
        let mut items: VecDeque<T> = VecDeque::new();
        std::mem::swap(&mut self.items, &mut items);
        let dropped: Option<T> = if items.len() == self.capacity {
            let oldest = items.pop_front();
            assert(items@ =~= old(self)@.drop_first());
            oldest
        } else {
            None
        };
        items.push_back(item);
        std::mem::swap(&mut self.items, &mut items);
        dropped
    }

    /// The item at `index`, counted from the oldest.
    pub fn get(&self, index: usize) -> (item: Option<&T>)
        ensures
            index < self@.len() ==> item == Some(&self@[index as int]),
            index >= self@.len() ==> item is None,
    {
        if index < self.items.len() {
            Some(&self.items[index])
        } else {
            None
        }
    }

    /// Takes the item at `index` out; the items behind it move up.
    pub fn remove(&mut self, index: usize) -> (item: Option<T>)
        ensures
            final(self).capacity() == old(self).capacity(),
            index < old(self)@.len() ==> item == Some(old(self)@[index as int]) && final(self)@
                == old(self)@.remove(index as int),
            index >= old(self)@.len() ==> item is None && final(self)@ == old(self)@,
    {
        proof {
            use_type_invariant(&*self);
        }
        let mut items: VecDeque<T> = VecDeque::new();
        std::mem::swap(&mut self.items, &mut items);
        let item = items.remove(index);
        std::mem::swap(&mut self.items, &mut items);
        item
    }

    /// Takes the oldest item out.
    pub fn pop(&mut self) -> (item: Option<T>)
        ensures
            final(self).capacity() == old(self).capacity(),
            old(self)@.len() == 0 ==> item is None && final(self)@ == old(self)@,
            old(self)@.len() > 0 ==> item == Some(old(self)@[0]) && final(self)@ == old(
                self,
            )@.drop_first(),
    {
        proof {
            use_type_invariant(&*self);
        }
        let mut items: VecDeque<T> = VecDeque::new();
        std::mem::swap(&mut self.items, &mut items);
        let item = items.pop_front();
        proof {
            if old(self)@.len() > 0 {
                assert(items@ =~= old(self)@.drop_first());
            }
        }
        std::mem::swap(&mut self.items, &mut items);
        item
    }
}

} // verus!
