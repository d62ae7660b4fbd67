//! Single-slot, overwrite-on-write, non-blocking-read handoff primitive.
//!
//! A `Mailbox` holds zero or one pending value. Writing always succeeds and
//! replaces any unconsumed value (latest wins, no queueing); reading is
//! non-blocking and clears the slot. Producers hand snapshots and button
//! events to their consumers through it; a consumer that finds the slot
//! empty simply goes on.

use vstd::prelude::*;

verus! {

/// One slot that a writer fills and a reader drains; the view is the
/// pending value, if any.
pub struct Mailbox<T> {
    /// The pending value, if any.
    pub slot: Option<T>,
}

impl<T> View for Mailbox<T> {
    type V = Option<T>;

    open spec fn view(&self) -> Option<T> {
        self.slot
    }
}

/// What a write leaves in the slot: the new value, whatever was pending.
pub open spec fn write_spec<T>(slot: Option<T>, value: T) -> Option<T> {
    Some(value)
}

/// What a read yields and what it leaves behind: the pending value (if any)
/// comes out, and the slot is empty afterwards.
pub open spec fn read_spec<T>(slot: Option<T>) -> (Option<T>, Option<T>) {
    (slot, None)
}

impl<T> Mailbox<T> {
    /// A fresh mailbox holds nothing.
    pub fn new() -> (r: Self)
        ensures
            r@ == Option::<T>::None,
    {
        Mailbox { slot: None }
    }

    /// Deposit a value, replacing any pending one. Never blocks, never fails.
    pub fn write(&mut self, value: T)
        ensures
            final(self)@ == write_spec(old(self)@, value),
    {
        self.slot = Some(value);
    }

    /// Take the pending value out, if one is there; the slot is empty
    /// afterwards either way.
    pub fn try_read(&mut self) -> (r: Option<T>)
        ensures
            r == read_spec(old(self)@).0,
            final(self)@ == read_spec(old(self)@).1,
    {
        self.slot.take()
    }
}

/// Latest wins: after two writes, one read yields exactly the second value
/// and empties the slot, and a further read yields nothing.
pub proof fn lemma_mailbox_latest_wins<T>(slot: Option<T>, first: T, second: T)
    ensures
        ({
            let after_writes = write_spec(write_spec(slot, first), second);
            let (got, drained) = read_spec(after_writes);
            let (again, _still) = read_spec(drained);
            got == Some(second) && again == Option::<T>::None && drained == Option::<T>::None
        }),
{
}

} // verus!
