//! A fixed-capacity FIFO ring buffer, the snake's body storage.
//!
//! One slot is kept free to tell a full buffer from an empty one, so a
//! buffer of capacity `CAP` holds at most `CAP - 1` elements. The view is
//! the queued elements in arrival order.

use vstd::prelude::*;

verus! {

/// Why a ring-buffer operation could not run.
#[derive(Debug, PartialEq, Eq, Structural)]
pub enum RbError {
    /// `put` on a buffer already holding `CAP - 1` elements.
    NoMoreSpace,
    /// `get` on an empty buffer.
    IsEmpty,
}

/// The buffer: a fixed backing store and two cursors. `head` is the slot
/// the next `put` fills, `tail` the slot the next `get` drains.
pub struct RingBuffer<T, const CAP: usize> {
    /// The backing store, always exactly `CAP` slots.
    pub rb: Vec<T>,
    /// Where the next element goes in.
    pub head: usize,
    /// Where the next element comes out.
    pub tail: usize,
}

impl<T, const CAP: usize> View for RingBuffer<T, CAP> {
    type V = Seq<T>;

    open spec fn view(&self) -> Seq<T> {
        if self.tail <= self.head {
            self.rb@.subrange(self.tail as int, self.head as int)
        } else {
            self.rb@.subrange(self.tail as int, CAP as int) + self.rb@.subrange(
                0,
                self.head as int,
            )
        }
    }
}

impl<T, const CAP: usize> RingBuffer<T, CAP> {
    /// The backing store is full-sized and both cursors point into it.
    pub open spec fn wf(&self) -> bool {
        &&& self.rb@.len() == CAP
        &&& self.head < CAP
        &&& self.tail < CAP
    }
}

impl<T, const CAP: usize> RingBuffer<T, CAP> where T: Default + Copy {
    /// An empty buffer with `CAP` slots.
    pub fn new() -> (r: Self)
        requires
            CAP >= 1,
        ensures
            r.wf(),
            r@ == Seq::<T>::empty(),
    {
        let mut rb: Vec<T> = Vec::new();
        while rb.len() < CAP
            invariant
                rb@.len() <= CAP,
            decreases CAP - rb@.len(),
        {
            rb.push(T::default());
        }
        let r = RingBuffer { rb, head: 0, tail: 0 };
        assert(r@ =~= Seq::<T>::empty());
        r
    }

    /// Append an element at the head, unless only the spare slot is left:
    /// a buffer holding `CAP - 1` elements reports `NoMoreSpace` unchanged.
    pub fn put(&mut self, elem: T) -> (r: Result<(), RbError>)
        requires
            old(self).wf(),
        ensures
            final(self).wf(),
            old(self)@.len() == CAP - 1 ==> r == Err::<(), RbError>(RbError::NoMoreSpace) && final(self)@ == old(self)@,
            old(self)@.len() < CAP - 1 ==> r == Ok::<(), RbError>(()) && final(self)@ == old(self)@.push(elem),
    {
        let next_head = if self.head + 1 == CAP {
            0
        } else {
            self.head + 1
        };
        if next_head == self.tail {
            Err(RbError::NoMoreSpace)
        } else {
            self.rb[self.head] = elem;
            self.head = next_head;
            proof {
                assert(self@ =~= old(self)@.push(elem));
            }
            Ok(())
        }
    }

    /// Drain the oldest element from the tail; an empty buffer reports
    /// `IsEmpty` unchanged.
    pub fn get(&mut self) -> (r: Result<T, RbError>)
        requires
            old(self).wf(),
        ensures
            final(self).wf(),
            old(self)@.len() == 0 ==> r == Err::<T, RbError>(RbError::IsEmpty) && final(self)@ == old(self)@,
            old(self)@.len() > 0 ==> r == Ok::<T, RbError>(old(self)@[0]) && final(self)@ == old(self)@.drop_first(),
    {
        if self.head == self.tail {
            Err(RbError::IsEmpty)
        } else {
            let elem = self.rb[self.tail];
            self.tail = if self.tail + 1 == CAP {
                0
            } else {
                self.tail + 1
            };
            proof {
                assert(self@ =~= old(self)@.drop_first());
            }
            Ok(elem)
        }
    }

    /// How many elements are queued.
    pub fn len(&self) -> (r: usize)
        requires
            self.wf(),
        ensures
            r == self@.len(),
    {
        if self.head >= self.tail {
            self.head - self.tail
        } else {
            CAP - (self.tail - self.head)
        }
    }

    /// How many slots the buffer was made with.
    pub fn capacity(&self) -> (r: usize)
        ensures
            r == CAP,
    {
        CAP
    }

    /// The element the last `put` appended.
    pub fn peek_head(&self) -> (r: T)
        requires
            self.wf(),
            self@.len() > 0,
        ensures
            r == self@.last(),
    {
        let idx = if self.head == 0 {
            CAP - 1
        } else {
            self.head - 1
        };
        self.rb[idx]
    }

    /// Walk the queued elements in arrival order, without draining them.
    pub fn iter<'a>(&'a self) -> (r: RingBufferIterator<'a, T, CAP>)
        requires
            self.wf(),
        ensures
            r.wf(),
            r.rb == self,
            r.remaining() == self@,
    {
        RingBufferIterator { rb: self, tail: self.tail }
    }
}

/// A cursor over a borrowed ring buffer, yielding the elements from the
/// oldest to the newest.
pub struct RingBufferIterator<'a, T, const CAP: usize> {
    /// The buffer being walked.
    pub rb: &'a RingBuffer<T, CAP>,
    /// The slot the next element comes from.
    pub tail: usize,
}

impl<'a, T, const CAP: usize> RingBufferIterator<'a, T, CAP> {
    /// The buffer is well formed and the cursor points into it.
    pub open spec fn wf(&self) -> bool {
        &&& self.rb.wf()
        &&& self.tail < CAP
    }

    /// The elements not yet yielded, in order.
    pub open spec fn remaining(&self) -> Seq<T> {
        if self.tail <= self.rb.head {
            self.rb.rb@.subrange(self.tail as int, self.rb.head as int)
        } else {
            self.rb.rb@.subrange(self.tail as int, CAP as int) + self.rb.rb@.subrange(
                0,
                self.rb.head as int,
            )
        }
    }
}

impl<'a, T, const CAP: usize> RingBufferIterator<'a, T, CAP> where T: Default + Copy {
    /// The next element, oldest first; `None` once all have been yielded.
    pub fn next(&mut self) -> (r: Option<T>)
        requires
            old(self).wf(),
        ensures
            final(self).wf(),
            final(self).rb == old(self).rb,
            old(self).remaining().len() == 0 ==> r is None && final(self).remaining() == old(self).remaining(),
            old(self).remaining().len() > 0 ==> r == Some(old(self).remaining()[0]) && final(self).remaining() == old(self).remaining().drop_first(),
    {
        if self.rb.head == self.tail {
            None
        } else {
            let elem = self.rb.rb[self.tail];
            self.tail = if self.tail + 1 == CAP {
                0
            } else {
                self.tail + 1
            };
            proof {
                assert(self.remaining() =~= old(self).remaining().drop_first());
            }
            Some(elem)
        }
    }
}

} // verus!
