//! A bounded first-in first-out window.

use std::collections::VecDeque;
use vstd::prelude::*;

verus! {

/// A queue that holds at most `capacity` items (at least one): pushing onto a
/// full buffer drops the item at the head.
#[derive(Debug)]
pub struct RingBuffer<T> {
    queue: VecDeque<T>,
    capacity: usize,
}

impl<T> View for RingBuffer<T> {
    type V = Seq<T>;

    /// The items from head to tail.
    closed spec fn view(&self) -> Seq<T> {
        self.queue@
    }
}

/// `VecDeque::get_mut`: a mutable reference to the item at `index`, counted
/// from the head, or `None` when `index` is past the tail. The queue changes
/// only at that position, and only through the reference.
#[verifier::external_body]
fn deque_get_mut<T>(queue: &mut VecDeque<T>, index: usize) -> (r: Option<&mut T>)
    ensures
        match r {
            Some(item) => {
                &&& index < old(queue)@.len()
                &&& *item == old(queue)@[index as int]
                &&& final(queue)@ == old(queue)@.update(index as int, *final(item))
            },
            None => {
                &&& index >= old(queue)@.len()
                &&& final(queue)@ == old(queue)@
            },
        },
{
    queue.get_mut(index)
}

impl<T> RingBuffer<T> {
    /// The limit the buffer was made with.
    pub closed spec fn capacity(&self) -> nat {
        self.capacity as nat
    }

    /// The buffer never holds more than its limit, but for a limit of zero,
    /// under which it holds the latest item.
    pub open spec fn wf(&self) -> bool {
        self@.len() <= self.capacity() || self@.len() <= 1
    }

    /// What `push(value)` makes of the items `items` under the limit `capacity`.
    pub open spec fn pushed(items: Seq<T>, capacity: nat, value: T) -> Seq<T> {
        if items.len() >= capacity && items.len() > 0 {
            items.drop_first().push(value)
        } else {
            items.push(value)
        }
    }

    /// The position from the head of the `k`-th item from the tail, the tail
    /// itself being the first.
    pub open spec fn from_end(items: Seq<T>, k: int) -> int {
        items.len() - k
    }

    /// An empty buffer with the limit `capacity`.
    pub fn new(capacity: usize) -> (r: Self)
        ensures
            r@ == Seq::<T>::empty(),
            r.capacity() == capacity,
            r.wf(),
    {
        Self { queue: VecDeque::with_capacity(capacity), capacity }
    }

    /// The item at `index`, counted from the head.
    pub fn get(&self, index: usize) -> (r: Option<&T>)
        ensures
            index < self@.len() ==> r == Some(&self@[index as int]),
            index >= self@.len() ==> r is None,
    {
        if index < self.queue.len() {
            Some(&self.queue[index])
        } else {
            None
        }
    }

    /// The `k`-th item from the tail; the tail itself is the first.
    pub fn get_from_end(&self, k: usize) -> (r: Option<&T>)
        ensures
            1 <= k <= self@.len() ==> r == Some(&self@[Self::from_end(self@, k as int)]),
            k == 0 || k > self@.len() ==> r is None,
    {
        let len = self.queue.len();
        if 1 <= k && k <= len {
            Some(&self.queue[len - k])
        } else {
            None
        }
    }

    /// A mutable reference to the item at `index`, counted from the head.
    pub fn get_mut(&mut self, index: usize) -> (r: Option<&mut T>)
        ensures
            final(self).capacity() == old(self).capacity(),
            match r {
                Some(item) => {
                    &&& index < old(self)@.len()
                    &&& *item == old(self)@[index as int]
                    &&& final(self)@ == old(self)@.update(index as int, *final(item))
                },
                None => {
                    &&& index >= old(self)@.len()
                    &&& final(self)@ == old(self)@
                },
            },
    {
        deque_get_mut(&mut self.queue, index)
    }

    /// Appends `value` at the tail; a buffer that is full first drops its head.
    pub fn push(&mut self, value: T)
        ensures
            final(self)@ == Self::pushed(old(self)@, old(self).capacity(), value),
            final(self).capacity() == old(self).capacity(),
            old(self).wf() ==> final(self).wf(),
    {
        let len = self.queue.len();
        if len >= self.capacity {
            let _ = self.queue.pop_front();
        }
        self.queue.push_back(value);
    }

    /// Removes the item at the head and returns it.
    pub fn pop_front(&mut self) -> (r: Option<T>)
        ensures
            final(self).capacity() == old(self).capacity(),
            old(self)@.len() == 0 ==> r is None && final(self)@ == old(self)@,
            old(self)@.len() > 0 ==> r == Some(old(self)@[0]) && final(self)@ == old(
                self,
            )@.drop_first(),
    {
        self.queue.pop_front()
    }

    /// Removes the item at the tail and returns it.
    pub fn pop_back(&mut self) -> (r: Option<T>)
        ensures
            final(self).capacity() == old(self).capacity(),
            old(self)@.len() == 0 ==> r is None && final(self)@ == old(self)@,
            old(self)@.len() > 0 ==> r == Some(old(self)@.last()) && final(self)@ == old(
                self,
            )@.drop_last(),
    {
        self.queue.pop_back()
    }

    /// The number of items held.
    pub fn len(&self) -> (r: usize)
        ensures
            r == self@.len(),
    {
        self.queue.len()
    }

    /// Removes every item.
    pub fn clear(&mut self)
        ensures
            final(self)@ == Seq::<T>::empty(),
            final(self).capacity() == old(self).capacity(),
    {
        self.queue.clear()
    }
}

} // verus!
