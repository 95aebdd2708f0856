//! A single-slot, overwrite-on-put holder.
//!
//! It serves both as the detection cache (last write wins, consumed by
//! `take`) and as the actuator mailbox (a newer command displaces one that was
//! not received yet).
use vstd::prelude::*;

verus! {

/// The contents of a slot after `put(v)`.
pub open spec fn slot_put<T>(s: Option<T>, v: T) -> Option<T> {
    Some(v)
}

/// What `take` returns from a slot holding `s`, and the slot afterwards.
pub open spec fn slot_take<T>(s: Option<T>) -> (Option<T>, Option<T>) {
    (s, None)
}

/// Holds at most one value; a `put` replaces what is there.
pub struct SingleSlot<T> {
    value: Option<T>,
}

impl<T> View for SingleSlot<T> {
    type V = Option<T>;

    closed spec fn view(&self) -> Option<T> {
        self.value
    }
}

impl<T> SingleSlot<T> {
    /// An empty slot.
    pub fn new() -> (r: Self)
        ensures
            r@ == None::<T>,
    {
        SingleSlot { value: None }
    }

    /// Stores `v`, overwriting any held value, and hands back the value that
    /// was displaced (it is never delivered).
    pub fn put(&mut self, v: T) -> (displaced: Option<T>)
        ensures
            final(self)@ == slot_put(old(self)@, v),
            displaced == old(self)@,
    {
        let displaced = self.value.take();
        self.value = Some(v);
        displaced
    }

    /// Removes and returns the held value, leaving the slot empty.
    pub fn take(&mut self) -> (r: Option<T>)
        ensures
            (r, final(self)@) == slot_take(old(self)@),
    {
        self.value.take()
    }

    /// Whether nothing is held.
    pub fn is_empty(&self) -> (r: bool)
        ensures
            r == (self@ is None),
    {
        self.value.is_none()
    }
}

/// Of two values put before any `take`, only the second is delivered, and
/// the slot is empty after that delivery.
pub proof fn lemma_newest_put_wins<T>(s: Option<T>, first: T, second: T)
    ensures
        slot_take(slot_put(slot_put(s, first), second)) == (Some(second), None::<T>),
{
}

/// A value put once is taken once: the first `take` yields it and a second
/// `take` before any new `put` yields nothing.
pub proof fn lemma_take_at_most_once<T>(s: Option<T>, v: T)
    ensures
        slot_take(slot_put(s, v)).0 == Some(v),
        slot_take(slot_take(slot_put(s, v)).1).0 == None::<T>,
{
}

} // verus!
