//! The receive half of a connection: sequence counters, the local window and
//! the close state of the inbound direction.

use vstd::prelude::*;
use crate::sequence::{distance, forward_distance, spec_add, spec_compare, SeqNumber, SeqOrder, SEQ_HALF};
use crate::watched::{next_change, WatchedValue};

verus! {

/// The close state of the inbound direction.
#[derive(Clone, Copy, Debug, PartialEq, Eq, Structural)]
pub enum ReceiverState {
    /// The peer may still send.
    Open,
    /// The peer's FIN has arrived.
    ReceivedFin,
    /// The peer's FIN has been acknowledged.
    AckdFin,
}

impl ReceiverState {
    /// The position of the state on the one path that a receiver walks.
    pub open spec fn rank(self) -> int {
        match self {
            ReceiverState::Open => 0,
            ReceiverState::ReceivedFin => 1,
            ReceiverState::AckdFin => 2,
        }
    }

    /// `next` is the state that directly follows `self`.
    pub open spec fn precedes(self, next: ReceiverState) -> bool {
        next.rank() == self.rank() + 1
    }

    /// Whether `next` is the state that directly follows `self`.
    pub fn is_followed_by(self, next: ReceiverState) -> (r: bool)
        ensures
            r == self.precedes(next),
    {
        match (self, next) {
            (ReceiverState::Open, ReceiverState::ReceivedFin) => true,
            (ReceiverState::ReceivedFin, ReceiverState::AckdFin) => true,
            _ => false,
        }
    }
}

/// How often each watched value of a receiver has been set.
pub struct ReceiverChanges {
    pub recv_seq_no: u64,
    pub ack_seq_no: u64,
    pub state: u64,
}

/// What a receiver holds, as plain values.
pub struct ReceiverView {
    pub recv_seq_no: SeqNumber,
    pub ack_seq_no: SeqNumber,
    pub window_size: u32,
    pub state: ReceiverState,
    pub changes: ReceiverChanges,
}

impl ReceiverView {
    /// Nothing is acknowledged before it arrived: `ack_seq_no` does not lie
    /// ahead of `recv_seq_no`.
    pub open spec fn wf(self) -> bool {
        spec_compare(self.ack_seq_no, self.recv_seq_no) != SeqOrder::Greater
    }

    /// The number of sequence positions received and not yet acknowledged.
    pub open spec fn unacknowledged(self) -> int {
        distance(self.ack_seq_no, self.recv_seq_no)
    }

    /// The receiver as the handshake leaves it: nothing pending, the direction
    /// open.
    pub open spec fn initial(seq_no: SeqNumber, window_size: u32) -> ReceiverView {
        ReceiverView {
            recv_seq_no: seq_no,
            ack_seq_no: seq_no,
            window_size,
            state: ReceiverState::Open,
            changes: ReceiverChanges { recv_seq_no: 0, ack_seq_no: 0, state: 0 },
        }
    }

    /// The effect of `len` more positions arriving: accepted while the
    /// direction is open and the backlog stays within half of the sequence
    /// space.
    pub open spec fn receive(self, len: u32) -> Option<ReceiverView> {
        if self.state == ReceiverState::Open && self.unacknowledged() + len <= 0x8000_0000 {
            Some(
                ReceiverView {
                    recv_seq_no: spec_add(self.recv_seq_no, len),
                    changes: ReceiverChanges { recv_seq_no: next_change(self.changes.recv_seq_no), ..self.changes },
                    ..self
                },
            )
        } else {
            None
        }
    }

    /// The effect of acknowledging `len` received positions: accepted while
    /// that many are pending.
    pub open spec fn acknowledge(self, len: u32) -> Option<ReceiverView> {
        if len <= self.unacknowledged() {
            Some(
                ReceiverView {
                    ack_seq_no: spec_add(self.ack_seq_no, len),
                    changes: ReceiverChanges { ack_seq_no: next_change(self.changes.ack_seq_no), ..self.changes },
                    ..self
                },
            )
        } else {
            None
        }
    }

    /// The effect of asking for state `next`: accepted when `next` directly
    /// follows the current state.
    pub open spec fn advance(self, next: ReceiverState) -> Option<ReceiverView> {
        if self.state.precedes(next) {
            Some(
                ReceiverView {
                    state: next,
                    changes: ReceiverChanges { state: next_change(self.changes.state), ..self.changes },
                    ..self
                },
            )
        } else {
            None
        }
    }
}

/// The receive half of a connection.
#[derive(Clone, Copy, Debug)]
pub struct Receiver {
    recv_seq_no: WatchedValue<SeqNumber>,
    ack_seq_no: WatchedValue<SeqNumber>,
    window_size: u32,
    state: WatchedValue<ReceiverState>,
}

impl Receiver {
    pub closed spec fn view(&self) -> ReceiverView {
        ReceiverView {
            recv_seq_no: self.recv_seq_no.value(),
            ack_seq_no: self.ack_seq_no.value(),
            window_size: self.window_size,
            state: self.state.value(),
            changes: ReceiverChanges {
                recv_seq_no: self.recv_seq_no.changes(),
                ack_seq_no: self.ack_seq_no.changes(),
                state: self.state.changes(),
            },
        }
    }

    /// Holds of every value of this type.
    #[verifier::type_invariant]
    pub open spec fn inv(&self) -> bool {
        self.view().wf()
    }

    /// A receiver with nothing pending, expecting `seq_no` next.
    pub fn new(seq_no: SeqNumber, window_size: u32) -> (r: Receiver)
        ensures
            r@ == ReceiverView::initial(seq_no, window_size),
            r@.wf(),
    {
        Receiver {
            recv_seq_no: WatchedValue::new(seq_no),
            ack_seq_no: WatchedValue::new(seq_no),
            window_size,
            state: WatchedValue::new(ReceiverState::Open),
        }
    }

    /// The next sequence number expected from the peer. It never lies behind
    /// `ack_seq_no`.
    pub fn recv_seq_no(&self) -> (r: SeqNumber)
        ensures
            r == self@.recv_seq_no,
            self@.wf(),
    {
        proof {
            use_type_invariant(self);
        }
        self.recv_seq_no.get()
    }

    /// The sequence number up to which the peer has been acknowledged. It
    /// never lies ahead of `recv_seq_no`.
    pub fn ack_seq_no(&self) -> (r: SeqNumber)
        ensures
            r == self@.ack_seq_no,
            self@.wf(),
    {
        proof {
            use_type_invariant(self);
        }
        self.ack_seq_no.get()
    }

    pub fn window_size(&self) -> (r: u32)
        ensures
            r == self@.window_size,
    {
        self.window_size
    }

    pub fn state(&self) -> (r: ReceiverState)
        ensures
            r == self@.state,
    {
        self.state.get()
    }

    /// The receive position, to be watched.
    pub fn watch_recv_seq_no(&self) -> (r: &WatchedValue<SeqNumber>)
        ensures
            r.value() == self@.recv_seq_no,
            r.changes() == self@.changes.recv_seq_no,
    {
        &self.recv_seq_no
    }

    /// The acknowledged position, to be watched.
    pub fn watch_ack_seq_no(&self) -> (r: &WatchedValue<SeqNumber>)
        ensures
            r.value() == self@.ack_seq_no,
            r.changes() == self@.changes.ack_seq_no,
    {
        &self.ack_seq_no
    }

    /// The close state, to be watched.
    pub fn watch_state(&self) -> (r: &WatchedValue<ReceiverState>)
        ensures
            r.value() == self@.state,
            r.changes() == self@.changes.state,
    {
        &self.state
    }

    /// Records the arrival of `len` more sequence positions. Returns whether
    /// they were accepted; a refusal changes nothing.
    pub fn receive(&mut self, len: u32) -> (accepted: bool)
        ensures
            accepted == old(self)@.receive(len).is_some(),
            accepted ==> final(self)@ == old(self)@.receive(len).unwrap(),
            !accepted ==> final(self)@ == old(self)@,
            final(self)@.wf(),
    {
        proof {
            use_type_invariant(&*self);
        }
        let pending: u32 = forward_distance(self.ack_seq_no.get(), self.recv_seq_no.get());
        let open: bool = match self.state.get() {
            ReceiverState::Open => true,
            _ => false,
        };
        if open && len <= SEQ_HALF - pending {
            let next: SeqNumber = crate::sequence::add(self.recv_seq_no.get(), len);
            self.recv_seq_no.set(next);
            true
        } else {
            false
        }
    }

    /// Records that `len` received positions have been acknowledged to the
    /// peer. Returns whether that many were pending; a refusal changes nothing.
    pub fn acknowledge(&mut self, len: u32) -> (accepted: bool)
        ensures
            accepted == old(self)@.acknowledge(len).is_some(),
            accepted ==> final(self)@ == old(self)@.acknowledge(len).unwrap(),
            !accepted ==> final(self)@ == old(self)@,
            final(self)@.wf(),
    {
        proof {
            use_type_invariant(&*self);
        }
        let pending: u32 = forward_distance(self.ack_seq_no.get(), self.recv_seq_no.get());
        if len <= pending {
            let next: SeqNumber = crate::sequence::add(self.ack_seq_no.get(), len);
            self.ack_seq_no.set(next);
            true
        } else {
            false
        }
    }

    /// Moves to `next` if it directly follows the current state. Returns
    /// whether it did; a refusal changes nothing. The state therefore never
    /// moves backward and never skips a step.
    pub fn set_state(&mut self, next: ReceiverState) -> (accepted: bool)
        ensures
            accepted == old(self)@.advance(next).is_some(),
            accepted ==> final(self)@ == old(self)@.advance(next).unwrap(),
            !accepted ==> final(self)@ == old(self)@,
            final(self)@.state == old(self)@.state || old(self)@.state.precedes(final(self)@.state),
    {
        proof {
            use_type_invariant(&*self);
        }
        if self.state.get().is_followed_by(next) {
            self.state.set(next);
            true
        } else {
            false
        }
    }
}

} // verus!
