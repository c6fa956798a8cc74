//! The close protocol: three sub-tasks that acknowledge the peer's FIN, send
//! the local FIN and watch for both directions to be closed, and the race that
//! runs them together. Each is a step from the control block and an event to
//! the control block afterwards and what the runtime is to do next.

use vstd::prelude::*;
use crate::control_block::{ControlBlock, ControlBlockView};
use crate::fail::Fail;
use crate::receiver::ReceiverState;
use crate::segment::{Frame, Ipv4Address, MacAddress, TcpSegment};
use crate::sender::SenderState;
use crate::sequence::{spec_add, SeqNumber};
use crate::watched::Watch;

verus! {

/// What the runtime reports to a sub-task.
#[derive(Clone, Copy, Debug, PartialEq, Eq, Structural)]
pub enum CloseEvent {
    /// The sub-task starts, the value it waited on has changed, or the frame
    /// it handed out has been taken.
    Wake,
    /// The resolution it asked for has ended, with the link address or without.
    Resolved(Option<MacAddress>),
}

/// What a sub-task asks of the runtime.
#[derive(Clone, Copy, Debug, PartialEq, Eq)]
pub enum CloseAction {
    /// The sub-task was not run.
    Idle,
    /// Wait until this value has been set again after the ticket was taken,
    /// then report `Wake`.
    Await(Watch, u64),
    /// Resolve this address, then report `Resolved`.
    Resolve(Ipv4Address),
    /// Transmit this frame, then report `Wake`.
    Emit(Frame),
    /// The sub-task has ended with this failure.
    Finish(Fail),
}

/// The ACK that answers the peer's FIN: it acknowledges the sequence number
/// after `recv_seq_no`.
pub open spec fn fin_ack_frame(cb: ControlBlockView, link: MacAddress) -> Frame {
    cb.emit(TcpSegment { ack: true, ack_num: spec_add(cb.receiver.recv_seq_no, 1), ..cb.tcp_segment() }, link)
}

/// The local FIN: it carries the sequence number after `sent_seq_no`.
pub open spec fn fin_frame(cb: ControlBlockView, link: MacAddress) -> Frame {
    cb.emit(TcpSegment { seq_num: spec_add(cb.sender.sent_seq_no, 1), fin: true, ..cb.tcp_segment() }, link)
}

/// One step of the sub-task that acknowledges the peer's FIN.
///
/// A failed resolution ends it. Otherwise it waits for the receiver to have
/// seen the FIN, then for every position before the FIN to be acknowledged;
/// then it asks for the peer's link address, and with the address in hand it
/// emits the ACK and moves the receiver to `AckdFin`.
pub open spec fn spec_rx_ack_sender(cb: ControlBlockView, event: CloseEvent) -> (ControlBlockView, CloseAction) {
    if event == CloseEvent::Resolved(None) {
        (cb, CloseAction::Finish(Fail::ResolutionFailed))
    } else if cb.receiver.state != ReceiverState::ReceivedFin {
        (cb, CloseAction::Await(Watch::ReceiverState, cb.receiver.changes.state))
    } else if cb.receiver.ack_seq_no != cb.receiver.recv_seq_no {
        (cb, CloseAction::Await(Watch::AckSeqNo, cb.receiver.changes.ack_seq_no))
    } else {
        match event {
            CloseEvent::Resolved(Some(link)) => (
                ControlBlockView { receiver: cb.receiver.advance(ReceiverState::AckdFin).unwrap(), ..cb },
                CloseAction::Emit(fin_ack_frame(cb, link)),
            ),
            _ => (cb, CloseAction::Resolve(cb.remote.addr)),
        }
    }
}

/// One step of the sub-task that sends the local FIN.
///
/// A failed resolution ends it. Otherwise it waits for the sender to be
/// closed, then for everything queued to have been transmitted; then it asks
/// for the peer's link address, and with the address in hand it emits the FIN
/// and moves the sender to `SentFin`.
pub open spec fn spec_tx_fin_sender(cb: ControlBlockView, event: CloseEvent) -> (ControlBlockView, CloseAction) {
    if event == CloseEvent::Resolved(None) {
        (cb, CloseAction::Finish(Fail::ResolutionFailed))
    } else if cb.sender.state != SenderState::Closed {
        (cb, CloseAction::Await(Watch::SenderState, cb.sender.changes.state))
    } else if cb.sender.sent_seq_no != cb.sender.unsent_seq_no {
        (cb, CloseAction::Await(Watch::SentSeqNo, cb.sender.changes.sent_seq_no))
    } else {
        match event {
            CloseEvent::Resolved(Some(link)) => (
                ControlBlockView { sender: cb.sender.advance(SenderState::SentFin).unwrap(), ..cb },
                CloseAction::Emit(fin_frame(cb, link)),
            ),
            _ => (cb, CloseAction::Resolve(cb.remote.addr)),
        }
    }
}

/// One look of the sub-task that watches for the mutual close: it waits for
/// the sender to reach `FinAckd`, then for the receiver to reach `AckdFin`,
/// and ends with `ConnectionAborted` once both hold.
pub open spec fn spec_close_wait(cb: ControlBlockView) -> CloseAction {
    if cb.sender.state != SenderState::FinAckd {
        CloseAction::Await(Watch::SenderState, cb.sender.changes.state)
    } else if cb.receiver.state != ReceiverState::AckdFin {
        CloseAction::Await(Watch::ReceiverState, cb.receiver.changes.state)
    } else {
        CloseAction::Finish(Fail::ConnectionAborted)
    }
}

/// What one round of the closer leaves: what each sub-task asks for, and the
/// outcome of the connection if there is one by now.
#[derive(Clone, Copy, Debug, PartialEq, Eq)]
pub struct CloserRound {
    pub rx: CloseAction,
    pub tx: CloseAction,
    pub wait: CloseAction,
    pub outcome: Option<Fail>,
}

/// One round of the closer: the sub-tasks run in a fixed order, each with its
/// event if it has one, and the first that ends decides the outcome; those
/// after it are not run. With an outcome already there nothing is run at all.
pub open spec fn spec_closer(
    cb: ControlBlockView,
    outcome: Option<Fail>,
    rx_event: Option<CloseEvent>,
    tx_event: Option<CloseEvent>,
) -> (ControlBlockView, CloserRound) {
    let idle = CloseAction::Idle;
    let (after_rx, rx) = match rx_event {
        Some(event) => spec_rx_ack_sender(cb, event),
        None => (cb, idle),
    };
    let (after_tx, tx) = match tx_event {
        Some(event) => spec_tx_fin_sender(after_rx, event),
        None => (after_rx, idle),
    };
    let wait = spec_close_wait(after_tx);
    if outcome.is_some() {
        (cb, CloserRound { rx: idle, tx: idle, wait: idle, outcome })
    } else if let CloseAction::Finish(fail) = rx {
        (after_rx, CloserRound { rx, tx: idle, wait: idle, outcome: Some(fail) })
    } else if let CloseAction::Finish(fail) = tx {
        (after_tx, CloserRound { rx, tx, wait: idle, outcome: Some(fail) })
    } else if let CloseAction::Finish(fail) = wait {
        (after_tx, CloserRound { rx, tx, wait, outcome: Some(fail) })
    } else {
        (after_tx, CloserRound { rx, tx, wait, outcome: None })
    }
}

/// Runs one step of the sub-task that acknowledges the peer's FIN.
pub fn rx_ack_sender(cb: &mut ControlBlock, event: CloseEvent) -> (action: CloseAction)
    ensures
        (final(cb)@, action) == spec_rx_ack_sender(old(cb)@, event),
{
    let link: Option<MacAddress> = match event {
        CloseEvent::Resolved(None) => {
            return CloseAction::Finish(Fail::ResolutionFailed);
        },
        CloseEvent::Resolved(Some(link)) => Some(link),
        CloseEvent::Wake => None,
    };
    let (receiver_st, receiver_st_ticket): (ReceiverState, u64) = cb.receiver().watch_state().watch();
    if receiver_st != ReceiverState::ReceivedFin {
        return CloseAction::Await(Watch::ReceiverState, receiver_st_ticket);
    }
    // Wait for all data to be acknowledged.
    let (ack_seq, ack_seq_ticket): (SeqNumber, u64) = cb.receiver().watch_ack_seq_no().watch();
    let recv_seq: SeqNumber = cb.receiver().recv_seq_no();
    if ack_seq != recv_seq {
        return CloseAction::Await(Watch::AckSeqNo, ack_seq_ticket);
    }
    match link {
        None => CloseAction::Resolve(cb.remote().address()),
        Some(link) => {
            let segment: TcpSegment = cb.tcp_segment().ack(crate::sequence::add(recv_seq, 1));
            let frame: Frame = cb.emit(segment, link);
            let _ = cb.set_receiver_state(ReceiverState::AckdFin);
            CloseAction::Emit(frame)
        },
    }
}

/// Runs one step of the sub-task that sends the local FIN.
pub fn tx_fin_sender(cb: &mut ControlBlock, event: CloseEvent) -> (action: CloseAction)
    ensures
        (final(cb)@, action) == spec_tx_fin_sender(old(cb)@, event),
{
    let link: Option<MacAddress> = match event {
        CloseEvent::Resolved(None) => {
            return CloseAction::Finish(Fail::ResolutionFailed);
        },
        CloseEvent::Resolved(Some(link)) => Some(link),
        CloseEvent::Wake => None,
    };
    let (sender_st, sender_st_ticket): (SenderState, u64) = cb.sender().watch_state().watch();
    if sender_st != SenderState::Closed {
        return CloseAction::Await(Watch::SenderState, sender_st_ticket);
    }
    // Wait for `sent_seq_no` to catch up to `unsent_seq_no`.
    let (sent_seq, sent_seq_ticket): (SeqNumber, u64) = cb.sender().watch_sent_seq_no().watch();
    if sent_seq != cb.sender().unsent_seq_no() {
        return CloseAction::Await(Watch::SentSeqNo, sent_seq_ticket);
    }
    match link {
        None => CloseAction::Resolve(cb.remote().address()),
        Some(link) => {
            let segment: TcpSegment = cb.tcp_segment().seq_num(crate::sequence::add(sent_seq, 1)).fin();
            let frame: Frame = cb.emit(segment, link);
            let _ = cb.set_sender_state(SenderState::SentFin);
            CloseAction::Emit(frame)
        },
    }
}

/// Looks whether both directions are closed.
pub fn close_wait(cb: &ControlBlock) -> (action: CloseAction)
    ensures
        action == spec_close_wait(cb@),
{
    let (sender_st, sender_st_ticket): (SenderState, u64) = cb.sender().watch_state().watch();
    let (receiver_st, receiver_st_ticket): (ReceiverState, u64) = cb.receiver().watch_state().watch();
    if sender_st != SenderState::FinAckd {
        CloseAction::Await(Watch::SenderState, sender_st_ticket)
    } else if receiver_st != ReceiverState::AckdFin {
        CloseAction::Await(Watch::ReceiverState, receiver_st_ticket)
    } else {
        // Both directions are closed: the connection is over.
        CloseAction::Finish(Fail::ConnectionAborted)
    }
}

/// Runs one round of the closer. `outcome` is the outcome so far; each event
/// is what the runtime has to report to that sub-task, if anything.
pub fn closer(
    cb: &mut ControlBlock,
    outcome: Option<Fail>,
    rx_event: Option<CloseEvent>,
    tx_event: Option<CloseEvent>,
) -> (round: CloserRound)
    ensures
        (final(cb)@, round) == spec_closer(old(cb)@, outcome, rx_event, tx_event),
{
    if outcome.is_some() {
        return CloserRound { rx: CloseAction::Idle, tx: CloseAction::Idle, wait: CloseAction::Idle, outcome };
    }
    let rx: CloseAction = match rx_event {
        Some(event) => rx_ack_sender(cb, event),
        None => CloseAction::Idle,
    };
    if let CloseAction::Finish(fail) = rx {
        return CloserRound { rx, tx: CloseAction::Idle, wait: CloseAction::Idle, outcome: Some(fail) };
    }
    let tx: CloseAction = match tx_event {
        Some(event) => tx_fin_sender(cb, event),
        None => CloseAction::Idle,
    };
    if let CloseAction::Finish(fail) = tx {
        return CloserRound { rx, tx, wait: CloseAction::Idle, outcome: Some(fail) };
    }
    let wait: CloseAction = close_wait(cb);
    let outcome: Option<Fail> = match wait {
        CloseAction::Finish(fail) => Some(fail),
        _ => None,
    };
    CloserRound { rx, tx, wait, outcome }
}

/// Once the sender has reached `FinAckd` and the receiver `AckdFin`, in
/// whichever order, a round of the closer in which no resolution fails ends
/// the connection with `ConnectionAborted`, emits nothing and leaves the
/// control block as it was.
pub proof fn lemma_mutual_close_aborts(
    cb: ControlBlockView,
    rx_event: Option<CloseEvent>,
    tx_event: Option<CloseEvent>,
)
    requires
        cb.sender.state == SenderState::FinAckd,
        cb.receiver.state == ReceiverState::AckdFin,
        rx_event != Some(CloseEvent::Resolved(None)),
        tx_event != Some(CloseEvent::Resolved(None)),
    ensures
        spec_closer(cb, None, rx_event, tx_event).0 == cb,
        spec_closer(cb, None, rx_event, tx_event).1.outcome == Some(Fail::ConnectionAborted),
        !(spec_closer(cb, None, rx_event, tx_event).1.rx is Emit),
        !(spec_closer(cb, None, rx_event, tx_event).1.tx is Emit),
{
}

/// The closer resolves once: with an outcome there, a round keeps it, runs no
/// sub-task, emits nothing and leaves the control block as it was.
pub proof fn lemma_outcome_is_final(
    cb: ControlBlockView,
    fail: Fail,
    rx_event: Option<CloseEvent>,
    tx_event: Option<CloseEvent>,
)
    ensures
        spec_closer(cb, Some(fail), rx_event, tx_event) == (
            cb,
            CloserRound { rx: CloseAction::Idle, tx: CloseAction::Idle, wait: CloseAction::Idle, outcome: Some(fail) },
        ),
{
}

/// The two closing states are reached independently: moving the sender and
/// then the receiver gives the control block that moving the receiver and then
/// the sender gives.
pub proof fn lemma_close_order_is_irrelevant(cb: ControlBlockView, sender: SenderState, receiver: ReceiverState)
    requires
        cb.sender.advance(sender).is_some(),
        cb.receiver.advance(receiver).is_some(),
    ensures
        ({
            let sender_first = ControlBlockView { sender: cb.sender.advance(sender).unwrap(), ..cb };
            let receiver_first = ControlBlockView { receiver: cb.receiver.advance(receiver).unwrap(), ..cb };
            (ControlBlockView { receiver: sender_first.receiver.advance(receiver).unwrap(), ..sender_first })
                == (ControlBlockView { sender: receiver_first.sender.advance(sender).unwrap(), ..receiver_first })
        }),
{
}

/// A round of the closer leaves each half as it was or moves its state to the
/// next one, touching nothing else, and keeps both halves well formed.
pub proof fn lemma_closer_only_advances(
    cb: ControlBlockView,
    outcome: Option<Fail>,
    rx_event: Option<CloseEvent>,
    tx_event: Option<CloseEvent>,
)
    requires
        cb.wf(),
    ensures
        ({
            let after = spec_closer(cb, outcome, rx_event, tx_event).0;
            &&& after.wf()
            &&& after.sender == cb.sender || cb.sender.advance(after.sender.state) == Some(after.sender)
            &&& after.receiver == cb.receiver || cb.receiver.advance(after.receiver.state) == Some(
                after.receiver,
            )
            &&& after.sender.state == cb.sender.state || cb.sender.state.precedes(after.sender.state)
            &&& after.receiver.state == cb.receiver.state || cb.receiver.state.precedes(after.receiver.state)
        }),
{
}

/// A closed sender with nothing left to transmit gets its FIN out as soon as
/// the peer's link address is there: the FIN carries the sequence number after
/// `sent_seq_no`, and the sender moves to `SentFin`.
pub proof fn lemma_closed_sender_sends_fin(cb: ControlBlockView, link: MacAddress)
    requires
        cb.sender.state == SenderState::Closed,
        cb.sender.sent_seq_no == cb.sender.unsent_seq_no,
    ensures
        spec_tx_fin_sender(cb, CloseEvent::Wake) == (cb, CloseAction::Resolve(cb.remote.addr)),
        spec_tx_fin_sender(cb, CloseEvent::Resolved(Some(link))).0.sender.state == SenderState::SentFin,
        spec_tx_fin_sender(cb, CloseEvent::Resolved(Some(link))).1 == CloseAction::Emit(fin_frame(cb, link)),
        fin_frame(cb, link).segment.fin,
        fin_frame(cb, link).segment.seq_num == spec_add(cb.sender.sent_seq_no, 1),
{
}

} // verus!
