//! The transmit half of a connection: sequence counters, the peer's window and
//! the close state of the outbound direction.

use vstd::prelude::*;
use crate::sequence::{distance, forward_distance, spec_add, spec_compare, SeqNumber, SeqOrder, SEQ_HALF};
use crate::watched::{next_change, WatchedValue};

verus! {

/// The close state of the outbound direction.
#[derive(Clone, Copy, Debug, PartialEq, Eq, Structural)]
pub enum SenderState {
    /// The application may still send.
    Open,
    /// The application has closed its side; queued data may still be leaving.
    Closed,
    /// The FIN has been transmitted.
    SentFin,
    /// The peer has acknowledged the FIN.
    FinAckd,
}

impl SenderState {
    /// The position of the state on the one path that a sender walks.
    pub open spec fn rank(self) -> int {
        match self {
            SenderState::Open => 0,
            SenderState::Closed => 1,
            SenderState::SentFin => 2,
            SenderState::FinAckd => 3,
        }
    }

    /// `next` is the state that directly follows `self`.
    pub open spec fn precedes(self, next: SenderState) -> bool {
        next.rank() == self.rank() + 1
    }

    /// Whether `next` is the state that directly follows `self`.
    pub fn is_followed_by(self, next: SenderState) -> (r: bool)
        ensures
            r == self.precedes(next),
    {
        match (self, next) {
            (SenderState::Open, SenderState::Closed) => true,
            (SenderState::Closed, SenderState::SentFin) => true,
            (SenderState::SentFin, SenderState::FinAckd) => true,
            _ => false,
        }
    }
}

/// How often each watched value of a sender has been set.
pub struct SenderChanges {
    pub unsent_seq_no: u64,
    pub sent_seq_no: u64,
    pub window_size: u64,
    pub state: u64,
}

/// What a sender holds, as plain values.
pub struct SenderView {
    pub unsent_seq_no: SeqNumber,
    pub sent_seq_no: SeqNumber,
    pub window_size: u32,
    pub window_scale: u8,
    pub mss: u16,
    pub state: SenderState,
    pub changes: SenderChanges,
}

impl SenderView {
    /// Nothing is reported sent before it was queued: `sent_seq_no` does not
    /// lie ahead of `unsent_seq_no`.
    pub open spec fn wf(self) -> bool {
        spec_compare(self.sent_seq_no, self.unsent_seq_no) != SeqOrder::Greater
    }

    /// The number of sequence positions queued and not yet transmitted.
    pub open spec fn outstanding(self) -> int {
        distance(self.sent_seq_no, self.unsent_seq_no)
    }

    /// The sender as the handshake leaves it: nothing queued, the direction open.
    pub open spec fn initial(seq_no: SeqNumber, window_size: u32, window_scale: u8, mss: u16) -> SenderView {
        SenderView {
            unsent_seq_no: seq_no,
            sent_seq_no: seq_no,
            window_size,
            window_scale,
            mss,
            state: SenderState::Open,
            changes: SenderChanges { unsent_seq_no: 0, sent_seq_no: 0, window_size: 0, state: 0 },
        }
    }

    /// The effect of queueing `len` more positions: accepted while the
    /// direction is open and the queue stays within half of the sequence space.
    pub open spec fn enqueue(self, len: u32) -> Option<SenderView> {
        if self.state == SenderState::Open && self.outstanding() + len <= 0x8000_0000 {
            Some(
                SenderView {
                    unsent_seq_no: spec_add(self.unsent_seq_no, len),
                    changes: SenderChanges {
                        unsent_seq_no: next_change(self.changes.unsent_seq_no),
                        ..self.changes
                    },
                    ..self
                },
            )
        } else {
            None
        }
    }

    /// The effect of transmitting `len` queued positions: accepted while that
    /// many are queued.
    pub open spec fn transmit(self, len: u32) -> Option<SenderView> {
        if len <= self.outstanding() {
            Some(
                SenderView {
                    sent_seq_no: spec_add(self.sent_seq_no, len),
                    changes: SenderChanges { sent_seq_no: next_change(self.changes.sent_seq_no), ..self.changes },
                    ..self
                },
            )
        } else {
            None
        }
    }

    /// The effect of the peer advertising a new window.
    pub open spec fn with_window(self, window_size: u32) -> SenderView {
        SenderView {
            window_size,
            changes: SenderChanges { window_size: next_change(self.changes.window_size), ..self.changes },
            ..self
        }
    }

    /// The effect of asking for state `next`: accepted when `next` directly
    /// follows the current state.
    pub open spec fn advance(self, next: SenderState) -> Option<SenderView> {
        if self.state.precedes(next) {
            Some(
                SenderView {
                    state: next,
                    changes: SenderChanges { state: next_change(self.changes.state), ..self.changes },
                    ..self
                },
            )
        } else {
            None
        }
    }
}

/// The transmit half of a connection.
#[derive(Clone, Copy, Debug)]
pub struct Sender {
    unsent_seq_no: WatchedValue<SeqNumber>,
    sent_seq_no: WatchedValue<SeqNumber>,
    window_size: WatchedValue<u32>,
    window_scale: u8,
    mss: u16,
    state: WatchedValue<SenderState>,
}

impl Sender {
    pub closed spec fn view(&self) -> SenderView {
        SenderView {
            unsent_seq_no: self.unsent_seq_no.value(),
            sent_seq_no: self.sent_seq_no.value(),
            window_size: self.window_size.value(),
            window_scale: self.window_scale,
            mss: self.mss,
            state: self.state.value(),
            changes: SenderChanges {
                unsent_seq_no: self.unsent_seq_no.changes(),
                sent_seq_no: self.sent_seq_no.changes(),
                window_size: self.window_size.changes(),
                state: self.state.changes(),
            },
        }
    }

    /// Holds of every value of this type.
    #[verifier::type_invariant]
    pub open spec fn inv(&self) -> bool {
        self.view().wf()
    }

    /// A sender with nothing queued, starting at `seq_no`.
    pub fn new(seq_no: SeqNumber, window_size: u32, window_scale: u8, mss: u16) -> (r: Sender)
        ensures
            r@ == SenderView::initial(seq_no, window_size, window_scale, mss),
            r@.wf(),
    {
        Sender {
            unsent_seq_no: WatchedValue::new(seq_no),
            sent_seq_no: WatchedValue::new(seq_no),
            window_size: WatchedValue::new(window_size),
            window_scale,
            mss,
            state: WatchedValue::new(SenderState::Open),
        }
    }

    /// The next sequence number not yet handed to the network. It never lies
    /// behind `sent_seq_no`.
    pub fn unsent_seq_no(&self) -> (r: SeqNumber)
        ensures
            r == self@.unsent_seq_no,
            self@.wf(),
    {
        proof {
            use_type_invariant(self);
        }
        self.unsent_seq_no.get()
    }

    /// The next sequence number not yet transmitted. It never lies ahead of
    /// `unsent_seq_no`.
    pub fn sent_seq_no(&self) -> (r: SeqNumber)
        ensures
            r == self@.sent_seq_no,
            self@.wf(),
    {
        proof {
            use_type_invariant(self);
        }
        self.sent_seq_no.get()
    }

    pub fn window_size(&self) -> (r: u32)
        ensures
            r == self@.window_size,
    {
        self.window_size.get()
    }

    pub fn window_scale(&self) -> (r: u8)
        ensures
            r == self@.window_scale,
    {
        self.window_scale
    }

    pub fn mss(&self) -> (r: u16)
        ensures
            r == self@.mss,
    {
        self.mss
    }

    pub fn state(&self) -> (r: SenderState)
        ensures
            r == self@.state,
    {
        self.state.get()
    }

    /// The queue position, to be watched.
    pub fn watch_unsent_seq_no(&self) -> (r: &WatchedValue<SeqNumber>)
        ensures
            r.value() == self@.unsent_seq_no,
            r.changes() == self@.changes.unsent_seq_no,
    {
        &self.unsent_seq_no
    }

    /// The transmit position, to be watched.
    pub fn watch_sent_seq_no(&self) -> (r: &WatchedValue<SeqNumber>)
        ensures
            r.value() == self@.sent_seq_no,
            r.changes() == self@.changes.sent_seq_no,
    {
        &self.sent_seq_no
    }

    /// The peer's window, to be watched.
    pub fn watch_window_size(&self) -> (r: &WatchedValue<u32>)
        ensures
            r.value() == self@.window_size,
            r.changes() == self@.changes.window_size,
    {
        &self.window_size
    }

    /// The close state, to be watched.
    pub fn watch_state(&self) -> (r: &WatchedValue<SenderState>)
        ensures
            r.value() == self@.state,
            r.changes() == self@.changes.state,
    {
        &self.state
    }

    /// Queues `len` more sequence positions for transmission. Returns whether
    /// they were accepted; a refusal changes nothing.
    pub fn enqueue(&mut self, len: u32) -> (accepted: bool)
        ensures
            accepted == old(self)@.enqueue(len).is_some(),
            accepted ==> final(self)@ == old(self)@.enqueue(len).unwrap(),
            !accepted ==> final(self)@ == old(self)@,
            final(self)@.wf(),
    {
        proof {
            use_type_invariant(&*self);
        }
        let queued: u32 = forward_distance(self.sent_seq_no.get(), self.unsent_seq_no.get());
        let open: bool = match self.state.get() {
            SenderState::Open => true,
            _ => false,
        };
        if open && len <= SEQ_HALF - queued {
            let next: SeqNumber = crate::sequence::add(self.unsent_seq_no.get(), len);
            self.unsent_seq_no.set(next);
            true
        } else {
            false
        }
    }

    /// Records that `len` queued positions have been handed to the network.
    /// Returns whether that many were queued; a refusal changes nothing.
    pub fn transmit(&mut self, len: u32) -> (accepted: bool)
        ensures
            accepted == old(self)@.transmit(len).is_some(),
            accepted ==> final(self)@ == old(self)@.transmit(len).unwrap(),
            !accepted ==> final(self)@ == old(self)@,
            final(self)@.wf(),
    {
        proof {
            use_type_invariant(&*self);
        }
        let queued: u32 = forward_distance(self.sent_seq_no.get(), self.unsent_seq_no.get());
        if len <= queued {
            let next: SeqNumber = crate::sequence::add(self.sent_seq_no.get(), len);
            self.sent_seq_no.set(next);
            true
        } else {
            false
        }
    }

    /// Records the window that the peer last advertised.
    pub fn set_window_size(&mut self, window_size: u32)
        ensures
            final(self)@ == old(self)@.with_window(window_size),
    {
        proof {
            use_type_invariant(&*self);
        }
        self.window_size.set(window_size);
    }

    /// Moves to `next` if it directly follows the current state. Returns
    /// whether it did; a refusal changes nothing. The state therefore never
    /// moves backward and never skips a step.
    pub fn set_state(&mut self, next: SenderState) -> (accepted: bool)
        ensures
            accepted == old(self)@.advance(next).is_some(),
            accepted ==> final(self)@ == old(self)@.advance(next).unwrap(),
            !accepted ==> final(self)@ == old(self)@,
            final(self)@.state == old(self)@.state || old(self)@.state.precedes(final(self)@.state),
    {
        proof {
            use_type_invariant(&*self);
        }
        if self.state.get().is_followed_by(next) {
            self.state.set(next);
            true
        } else {
            false
        }
    }
}

/// Step `i` of the history `h` keeps the state or moves it to its direct
/// successor.
pub open spec fn history_step(h: Seq<SenderState>, i: int) -> bool {
    h[i] == h[i + 1] || h[i].precedes(h[i + 1])
}

/// `h` is a history of one sender: each state in it is the one before it or
/// that state's direct successor, which is all that `set_state` allows.
pub open spec fn is_history(h: Seq<SenderState>) -> bool {
    forall|i: int| 0 <= i < h.len() - 1 ==> #[trigger] history_step(h, i)
}

/// Over any stretch of a sender's history the state never moves backward, and
/// it moves forward by at most one state per step: it walks
/// `Open`, `Closed`, `SentFin`, `FinAckd` in this order and skips none.
pub proof fn lemma_history_advances(h: Seq<SenderState>, i: int, j: int)
    requires
        is_history(h),
        0 <= i <= j < h.len(),
    ensures
        h[i].rank() <= h[j].rank() <= h[i].rank() + (j - i),
    decreases j - i,
{
    if i < j {
        lemma_history_advances(h, i, j - 1);
        assert(history_step(h, j - 1));
    }
}

} // verus!
