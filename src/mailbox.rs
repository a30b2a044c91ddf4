use vstd::prelude::*;

verus! {

/// A single-slot channel between one producer and one consumer: a publish
/// replaces any value not yet taken, so the consumer sees the newest one only.
pub struct Mailbox<T> {
    slot: Option<T>,
}

/// The slot after `value` is published into `slot`.
pub open spec fn published<T>(slot: Option<T>, value: T) -> Option<T> {
    Some(value)
}

/// What a take hands out, and the slot it leaves.
pub open spec fn taken<T>(slot: Option<T>) -> (Option<T>, Option<T>) {
    (slot, None)
}

impl<T> View for Mailbox<T> {
    type V = Option<T>;

    /// The value waiting to be taken, if any.
    closed spec fn view(&self) -> Option<T> {
        self.slot
    }
}

impl<T> Mailbox<T> {
    /// An empty mailbox.
    pub fn new() -> (r: Mailbox<T>)
        ensures
            r@ == None::<T>,
    {
        Mailbox { slot: None }
    }

    /// Puts `value` in the slot, dropping whatever was there.
    pub fn publish(&mut self, value: T)
        ensures
            final(self)@ == published(old(self)@, value),
    {
        self.slot = Some(value);
    }

    /// Takes the waiting value, if any, and empties the slot.
    pub fn try_take(&mut self) -> (r: Option<T>)
        ensures
            (r, final(self)@) == taken(old(self)@),
    {
        self.slot.take()
    }

    /// Whether a value is waiting.
    pub fn signaled(&self) -> (r: bool)
        ensures
            r == self@.is_some(),
    {
        self.slot.is_some()
    }
}

/// Two publishes before a take: the take yields the second value, the first
/// is never seen, and the slot is left empty.
pub proof fn lemma_latest_value_wins<T>(slot: Option<T>, v1: T, v2: T)
    ensures
        taken(published(published(slot, v1), v2)) == (Some(v2), None::<T>),
        v1 != v2 ==> taken(published(published(slot, v1), v2)).0 != Some(v1),
{
}

} // verus!
