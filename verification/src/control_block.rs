//! The state of one established connection, shared by everything that works
//! on it: who the two ends are, how this host addresses its frames, and the
//! sender and receiver halves.

use vstd::prelude::*;
use crate::receiver::{Receiver, ReceiverState, ReceiverView};
use crate::segment::{empty_segment, spec_frame, Endpoint, Frame, Ipv4Address, MacAddress, TcpSegment};
use crate::sender::{Sender, SenderState, SenderView};
use crate::watched::Watch;

verus! {

/// What this host is configured with.
#[derive(Clone, Copy, Debug, PartialEq, Eq, Structural)]
pub struct Options {
    /// The IPv4 address that outgoing segments carry as their source.
    pub my_ipv4_addr: Ipv4Address,
    /// The link address that outgoing frames carry as their source.
    pub my_link_addr: MacAddress,
    /// The window that a new receiver starts with.
    pub receive_window_size: u32,
    /// The MSS that a SYN advertises.
    pub advertised_mss: u16,
}

/// What a control block holds, as plain values.
pub struct ControlBlockView {
    pub local: Endpoint,
    pub remote: Endpoint,
    pub options: Options,
    pub sender: SenderView,
    pub receiver: ReceiverView,
}

impl ControlBlockView {
    /// Both halves are well formed.
    pub open spec fn wf(self) -> bool {
        self.sender.wf() && self.receiver.wf()
    }

    /// The segment that every outgoing segment of this connection starts
    /// from: both endpoints filled in, nothing else set.
    pub open spec fn tcp_segment(self) -> TcpSegment {
        TcpSegment {
            src_ipv4_addr: Some(self.local.addr),
            src_port: Some(self.local.port_no),
            dest_ipv4_addr: Some(self.remote.addr),
            dest_port: Some(self.remote.port_no),
            ..empty_segment()
        }
    }

    /// How often the watched value `watch` has been set.
    pub open spec fn changes(self, watch: Watch) -> u64 {
        match watch {
            Watch::ReceiverState => self.receiver.changes.state,
            Watch::AckSeqNo => self.receiver.changes.ack_seq_no,
            Watch::RecvSeqNo => self.receiver.changes.recv_seq_no,
            Watch::SenderState => self.sender.changes.state,
            Watch::SentSeqNo => self.sender.changes.sent_seq_no,
            Watch::UnsentSeqNo => self.sender.changes.unsent_seq_no,
            Watch::WindowSize => self.sender.changes.window_size,
        }
    }

    /// `segment` as it leaves this host towards `dest_link_addr`.
    pub open spec fn emit(self, segment: TcpSegment, dest_link_addr: MacAddress) -> Frame {
        spec_frame(segment, self.options.my_ipv4_addr, self.options.my_link_addr, dest_link_addr)
    }
}

/// The state of one established connection.
#[derive(Clone, Copy, Debug)]
pub struct ControlBlock {
    local: Endpoint,
    remote: Endpoint,
    options: Options,
    sender: Sender,
    receiver: Receiver,
}

impl ControlBlock {
    pub closed spec fn view(&self) -> ControlBlockView {
        ControlBlockView {
            local: self.local,
            remote: self.remote,
            options: self.options,
            sender: self.sender@,
            receiver: self.receiver@,
        }
    }

    pub fn new(local: Endpoint, remote: Endpoint, options: Options, sender: Sender, receiver: Receiver) -> (r:
        ControlBlock)
        ensures
            r@ == (ControlBlockView { local, remote, options, sender: sender@, receiver: receiver@ }),
            r@.wf(),
    {
        proof {
            use_type_invariant(&sender);
            use_type_invariant(&receiver);
        }
        ControlBlock { local, remote, options, sender, receiver }
    }

    pub fn local(&self) -> (r: Endpoint)
        ensures
            r == self@.local,
    {
        self.local
    }

    pub fn remote(&self) -> (r: Endpoint)
        ensures
            r == self@.remote,
    {
        self.remote
    }

    pub fn options(&self) -> (r: Options)
        ensures
            r == self@.options,
    {
        self.options
    }

    pub fn sender(&self) -> (r: &Sender)
        ensures
            r@ == self@.sender,
            r@.wf(),
    {
        proof {
            use_type_invariant(&self.sender);
        }
        &self.sender
    }

    pub fn receiver(&self) -> (r: &Receiver)
        ensures
            r@ == self@.receiver,
            r@.wf(),
    {
        proof {
            use_type_invariant(&self.receiver);
        }
        &self.receiver
    }

    /// Whether the watched value `watch` has been set since `ticket` was
    /// taken.
    pub fn changed_since(&self, watch: Watch, ticket: u64) -> (r: bool)
        ensures
            r == (self@.changes(watch) != ticket),
    {
        match watch {
            Watch::ReceiverState => self.receiver.watch_state().changed_since(ticket),
            Watch::AckSeqNo => self.receiver.watch_ack_seq_no().changed_since(ticket),
            Watch::RecvSeqNo => self.receiver.watch_recv_seq_no().changed_since(ticket),
            Watch::SenderState => self.sender.watch_state().changed_since(ticket),
            Watch::SentSeqNo => self.sender.watch_sent_seq_no().changed_since(ticket),
            Watch::UnsentSeqNo => self.sender.watch_unsent_seq_no().changed_since(ticket),
            Watch::WindowSize => self.sender.watch_window_size().changed_since(ticket),
        }
    }

    /// A segment pre-filled with the two endpoints of this connection.
    pub fn tcp_segment(&self) -> (r: TcpSegment)
        ensures
            r == self@.tcp_segment(),
    {
        TcpSegment::default()
            .src_ipv4_addr(self.local.address())
            .src_port(self.local.port())
            .dest_ipv4_addr(self.remote.address())
            .dest_port(self.remote.port())
    }

    /// Addresses `segment` for the hop to `dest_link_addr`. The frame that
    /// comes back is what the transport is to transmit.
    pub fn emit(&self, segment: TcpSegment, dest_link_addr: MacAddress) -> (r: Frame)
        ensures
            r == self@.emit(segment, dest_link_addr),
    {
        crate::segment::frame(segment, self.options.my_ipv4_addr, self.options.my_link_addr, dest_link_addr)
    }

    /// Queues `len` sequence positions on the sender.
    pub fn enqueue(&mut self, len: u32) -> (accepted: bool)
        ensures
            accepted == old(self)@.sender.enqueue(len).is_some(),
            accepted ==> final(self)@ == (ControlBlockView {
                sender: old(self)@.sender.enqueue(len).unwrap(),
                ..old(self)@
            }),
            !accepted ==> final(self)@ == old(self)@,
    {
        self.sender.enqueue(len)
    }

    /// Records `len` sequence positions as transmitted by the sender.
    pub fn transmit(&mut self, len: u32) -> (accepted: bool)
        ensures
            accepted == old(self)@.sender.transmit(len).is_some(),
            accepted ==> final(self)@ == (ControlBlockView {
                sender: old(self)@.sender.transmit(len).unwrap(),
                ..old(self)@
            }),
            !accepted ==> final(self)@ == old(self)@,
    {
        self.sender.transmit(len)
    }

    /// Records `len` sequence positions as arrived at the receiver.
    pub fn receive(&mut self, len: u32) -> (accepted: bool)
        ensures
            accepted == old(self)@.receiver.receive(len).is_some(),
            accepted ==> final(self)@ == (ControlBlockView {
                receiver: old(self)@.receiver.receive(len).unwrap(),
                ..old(self)@
            }),
            !accepted ==> final(self)@ == old(self)@,
    {
        self.receiver.receive(len)
    }

    /// Records `len` sequence positions as acknowledged by the receiver.
    pub fn acknowledge(&mut self, len: u32) -> (accepted: bool)
        ensures
            accepted == old(self)@.receiver.acknowledge(len).is_some(),
            accepted ==> final(self)@ == (ControlBlockView {
                receiver: old(self)@.receiver.acknowledge(len).unwrap(),
                ..old(self)@
            }),
            !accepted ==> final(self)@ == old(self)@,
    {
        self.receiver.acknowledge(len)
    }

    /// Records the window that the peer last advertised.
    pub fn set_window_size(&mut self, window_size: u32)
        ensures
            final(self)@ == (ControlBlockView { sender: old(self)@.sender.with_window(window_size), ..old(self)@ }),
    {
        self.sender.set_window_size(window_size)
    }

    /// Moves the sender to `next` if that is its next state.
    pub fn set_sender_state(&mut self, next: SenderState) -> (accepted: bool)
        ensures
            accepted == old(self)@.sender.advance(next).is_some(),
            accepted ==> final(self)@ == (ControlBlockView {
                sender: old(self)@.sender.advance(next).unwrap(),
                ..old(self)@
            }),
            !accepted ==> final(self)@ == old(self)@,
    {
        self.sender.set_state(next)
    }

    /// Moves the receiver to `next` if that is its next state.
    pub fn set_receiver_state(&mut self, next: ReceiverState) -> (accepted: bool)
        ensures
            accepted == old(self)@.receiver.advance(next).is_some(),
            accepted ==> final(self)@ == (ControlBlockView {
                receiver: old(self)@.receiver.advance(next).unwrap(),
                ..old(self)@
            }),
            !accepted ==> final(self)@ == old(self)@,
    {
        self.receiver.set_state(next)
    }
}

/// A connection whose handshake has completed.
#[derive(Clone, Copy, Debug)]
pub struct EstablishedSocket {
    cb: ControlBlock,
}

impl EstablishedSocket {
    pub closed spec fn view(&self) -> ControlBlockView {
        self.cb@
    }

    pub fn new(cb: ControlBlock) -> (r: EstablishedSocket)
        ensures
            r@ == cb@,
    {
        EstablishedSocket { cb }
    }

    pub fn control_block(&self) -> (r: &ControlBlock)
        ensures
            r@ == self@,
    {
        &self.cb
    }

    pub fn into_control_block(self) -> (r: ControlBlock)
        ensures
            r@ == self@,
    {
        self.cb
    }
}

} // verus!
