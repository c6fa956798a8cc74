//! Watched values: a value together with a count of its changes. A reader
//! takes the value and the count in one look; the value has changed again
//! once the count differs from the one taken. This is all that the tasks of a
//! connection use to tell each other anything.

use vstd::prelude::*;

verus! {

/// The watched values of a control block.
#[derive(Clone, Copy, Debug, PartialEq, Eq, Structural)]
pub enum Watch {
    ReceiverState,
    AckSeqNo,
    RecvSeqNo,
    SenderState,
    SentSeqNo,
    UnsentSeqNo,
    WindowSize,
}

/// The count of changes after one more change. It wraps at `2^64`.
pub open spec fn next_change(changes: u64) -> u64 {
    if changes == u64::MAX {
        0
    } else {
        (changes + 1) as u64
    }
}

/// A value and the number of times it has been set.
#[derive(Clone, Copy, Debug)]
pub struct WatchedValue<T> {
    value: T,
    changes: u64,
}

impl<T: Copy> WatchedValue<T> {
    /// The current value.
    pub closed spec fn value(&self) -> T {
        self.value
    }

    /// The number of times the value has been set, modulo `2^64`.
    pub closed spec fn changes(&self) -> u64 {
        self.changes
    }

    pub fn new(value: T) -> (r: Self)
        ensures
            r.value() == value,
            r.changes() == 0,
    {
        WatchedValue { value, changes: 0 }
    }

    /// The current value.
    pub fn get(&self) -> (r: T)
        ensures
            r == self.value(),
    {
        self.value
    }

    /// The current value, and the ticket by which `changed_since` tells
    /// whether it has been set again.
    pub fn watch(&self) -> (r: (T, u64))
        ensures
            r == (self.value(), self.changes()),
    {
        (self.value, self.changes)
    }

    /// Whether the value has been set since `ticket` was taken.
    pub fn changed_since(&self, ticket: u64) -> (r: bool)
        ensures
            r == (self.changes() != ticket),
    {
        self.changes != ticket
    }

    /// Sets the value and counts the change.
    pub fn set(&mut self, value: T)
        ensures
            final(self).value() == value,
            final(self).changes() == next_change(old(self).changes()),
        no_unwind
    {
        self.value = value;
        self.changes = if self.changes == u64::MAX {
            0
        } else {
            self.changes + 1
        };
    }
}

/// Whoever watches a value sees its next change: a ticket taken before a
/// change never equals the count after it.
pub proof fn lemma_change_is_seen(ticket: u64)
    ensures
        next_change(ticket) != ticket,
{
}

} // verus!
