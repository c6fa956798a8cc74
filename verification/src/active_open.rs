//! The active open: the three-way handshake for an outbound connection, as a
//! state machine. The runtime around it resolves addresses, transmits frames
//! and keeps time; the socket decides what to ask for next and what each
//! inbound segment means.

use vstd::prelude::*;
use crate::control_block::{ControlBlock, ControlBlockView, EstablishedSocket, Options};
use crate::fail::Fail;
use crate::receiver::{Receiver, ReceiverView};
use crate::segment::{empty_segment, spec_frame, Endpoint, Frame, Ipv4Address, MacAddress, TcpSegment};
use crate::sender::{Sender, SenderView};
use crate::sequence::{spec_add, SeqNumber};

verus! {

/// How many times the handshake sends its SYN before it gives up.
pub const HANDSHAKE_RETRIES: u8 = 3;

/// How long, in seconds, each attempt waits for the peer's answer.
pub const HANDSHAKE_TIMEOUT_SECS: u64 = 5;

/// The window that a SYN advertises.
pub const MAX_WINDOW_SIZE: u16 = 1024;

/// The MSS assumed of a peer that names none.
pub const FALLBACK_MSS: u16 = 536;

/// The window scale recorded for a peer that names none.
pub const DEFAULT_WINDOW_SCALE: u8 = 1;

/// The window that a peer advertises: its 16-bit window shifted left by the
/// scale it named, or taken as it stands when it named none. `None` when the
/// shift is 32 bits or more, or the result does not fit in 32 bits.
pub open spec fn spec_peer_window(window_size: u16, window_scale: Option<u8>) -> Option<u32> {
    match window_scale {
        None => Some(window_size as u32),
        Some(scale) => if scale < 32 && ((window_size as u64) << (scale as u64)) <= 0xffff_ffff {
            Some(((window_size as u64) << (scale as u64)) as u32)
        } else {
            None
        },
    }
}

/// Computes the window that a peer advertises.
pub fn peer_window(window_size: u16, window_scale: Option<u8>) -> (r: Option<u32>)
    ensures
        r == spec_peer_window(window_size, window_scale),
{
    match window_scale {
        None => Some(window_size as u32),
        Some(scale) => {
            if scale >= 32 {
                None
            } else {
                let shifted: u64 = (window_size as u64) << (scale as u64);
                if shifted <= 0xffff_ffff {
                    Some(shifted as u32)
                } else {
                    None
                }
            }
        },
    }
}

/// Where the retry loop of the handshake stands.
#[derive(Clone, Copy, Debug, PartialEq, Eq, Structural)]
pub enum HandshakePhase {
    /// Nothing has been asked for yet.
    Created,
    /// The link address of the peer is being resolved.
    Resolving,
    /// A SYN is out and the attempt's timer is running.
    Waiting,
    /// The retry loop has ended.
    Finished,
}

/// What the runtime reports to the retry loop.
#[derive(Clone, Copy, Debug, PartialEq, Eq, Structural)]
pub enum HandshakeEvent {
    /// The loop is to begin.
    Start,
    /// The resolution asked for has ended, with the link address or without.
    Resolved(Option<MacAddress>),
    /// The timer of the current attempt has run out.
    TimerExpired,
}

/// What the retry loop asks of the runtime.
#[derive(Clone, Copy, Debug, PartialEq, Eq)]
pub enum HandshakeAction {
    /// Nothing: the event did not belong to the current phase.
    Idle,
    /// Resolve this address and report back with `Resolved`.
    Resolve(Ipv4Address),
    /// Transmit this SYN, wait for this many seconds and report back with
    /// `TimerExpired`.
    Transmit(Frame, u64),
    /// The loop has ended; the outcome is in the socket.
    Done,
}

/// What an active-open socket holds, as plain values.
pub struct ActiveOpenView {
    pub local_isn: SeqNumber,
    pub local: Endpoint,
    pub remote: Endpoint,
    pub options: Options,
    /// The number of attempts begun so far.
    pub attempts: u8,
    pub phase: HandshakePhase,
    /// The outcome, once there is one.
    pub result: Option<Result<ControlBlockView, Fail>>,
}

impl ActiveOpenView {
    /// A socket on which nothing has happened yet.
    pub open spec fn initial(local_isn: SeqNumber, local: Endpoint, remote: Endpoint, options: Options) -> ActiveOpenView {
        ActiveOpenView {
            local_isn,
            local,
            remote,
            options,
            attempts: 0,
            phase: HandshakePhase::Created,
            result: None,
        }
    }

    /// What holds of a socket at every moment: no more attempts are begun than
    /// the retry budget allows, none before the loop starts and at least one
    /// once it runs; a loop that has ended has left an outcome; and an
    /// established connection is well formed.
    pub open spec fn wf(self) -> bool {
        &&& self.attempts <= HANDSHAKE_RETRIES
        &&& self.phase == HandshakePhase::Created ==> self.attempts == 0
        &&& (self.phase == HandshakePhase::Resolving || self.phase == HandshakePhase::Waiting) ==> self.attempts
            >= 1
        &&& self.phase == HandshakePhase::Finished ==> self.result.is_some()
        &&& self.result matches Some(Ok(cb)) ==> cb.wf()
    }

    /// The segment that every segment of the handshake starts from.
    pub open spec fn template(self) -> TcpSegment {
        TcpSegment {
            src_ipv4_addr: Some(self.local.addr),
            src_port: Some(self.local.port_no),
            dest_ipv4_addr: Some(self.remote.addr),
            dest_port: Some(self.remote.port_no),
            ..empty_segment()
        }
    }

    /// The SYN of one attempt, addressed to `link`.
    pub open spec fn syn_frame(self, link: MacAddress) -> Frame {
        spec_frame(
            TcpSegment {
                seq_num: self.local_isn,
                window_size: MAX_WINDOW_SIZE,
                mss: Some(self.options.advertised_mss),
                syn: true,
                ..self.template()
            },
            self.options.my_ipv4_addr,
            self.options.my_link_addr,
            link,
        )
    }

    /// The ACK that completes the handshake: it acknowledges the sequence
    /// number after the peer's.
    pub open spec fn ack_frame(self, peer_seq_num: SeqNumber, link: MacAddress) -> Frame {
        spec_frame(
            TcpSegment { ack: true, ack_num: spec_add(peer_seq_num, 1), ..self.template() },
            self.options.my_ipv4_addr,
            self.options.my_link_addr,
            link,
        )
    }

    /// `segment` is the answer that the handshake waits for: SYN and ACK set,
    /// no reset, acknowledging the sequence number after the local ISN.
    pub open spec fn is_syn_ack(self, segment: TcpSegment) -> bool {
        !segment.rst && segment.syn && segment.ack && segment.ack_num == spec_add(self.local_isn, 1)
    }

    /// The connection that `segment`, a SYN-ACK whose window came to `window`,
    /// establishes: the sender starts after the local ISN, the receiver after
    /// the peer's sequence number.
    pub open spec fn established(self, segment: TcpSegment, window: u32) -> ControlBlockView {
        ControlBlockView {
            local: self.local,
            remote: self.remote,
            options: self.options,
            sender: SenderView::initial(
                spec_add(self.local_isn, 1),
                window,
                match segment.window_scale {
                    Some(scale) => scale,
                    None => DEFAULT_WINDOW_SCALE,
                },
                match segment.mss {
                    Some(mss) => mss,
                    None => FALLBACK_MSS,
                },
            ),
            receiver: ReceiverView::initial(spec_add(segment.seq_num, 1), self.options.receive_window_size),
        }
    }

    /// The socket after an inbound segment, and the frame to transmit if there
    /// is one. `link` is the cached link address of the peer, if it is cached.
    ///
    /// A reset refuses the connection, whatever came before. A SYN-ACK on a
    /// socket without an outcome establishes the connection and is answered
    /// with an ACK; it fails the handshake instead, with nothing transmitted,
    /// when the link address is not cached or the window overflows. Anything
    /// else changes nothing.
    pub open spec fn receive(self, segment: TcpSegment, link: Option<MacAddress>) -> (ActiveOpenView, Option<Frame>) {
        if segment.rst {
            (ActiveOpenView { result: Some(Err(Fail::ConnectionRefused)), ..self }, None)
        } else if self.result.is_none() && self.is_syn_ack(segment) {
            match (link, spec_peer_window(segment.window_size, segment.window_scale)) {
                (None, _) => (ActiveOpenView { result: Some(Err(Fail::ResolutionFailed)), ..self }, None),
                (Some(_), None) => (ActiveOpenView { result: Some(Err(Fail::WindowOverflow)), ..self }, None),
                (Some(addr), Some(window)) => (
                    ActiveOpenView { result: Some(Ok(self.established(segment, window))), ..self },
                    Some(self.ack_frame(segment.seq_num, addr)),
                ),
            }
        } else {
            (self, None)
        }
    }

    /// The start of the next attempt, or the end of the loop: with an outcome
    /// already there the loop just ends; with attempts left the next one
    /// begins by resolving the peer; with none left the handshake times out.
    pub open spec fn next_attempt(self) -> (ActiveOpenView, HandshakeAction) {
        if self.result.is_some() {
            (ActiveOpenView { phase: HandshakePhase::Finished, ..self }, HandshakeAction::Done)
        } else if self.attempts < HANDSHAKE_RETRIES {
            (
                ActiveOpenView { attempts: (self.attempts + 1) as u8, phase: HandshakePhase::Resolving, ..self },
                HandshakeAction::Resolve(self.remote.addr),
            )
        } else {
            (
                ActiveOpenView { phase: HandshakePhase::Finished, result: Some(Err(Fail::Timeout)), ..self },
                HandshakeAction::Done,
            )
        }
    }

    /// The socket after an event of the retry loop, and what the loop asks
    /// for next. A failed resolution uses up its attempt at once; a resolved
    /// address has the SYN transmitted and the timer started; an expired timer
    /// moves on to the next attempt. An event that the current phase does not
    /// wait for changes nothing.
    pub open spec fn step(self, event: HandshakeEvent) -> (ActiveOpenView, HandshakeAction) {
        match (self.phase, event) {
            (HandshakePhase::Created, HandshakeEvent::Start) => self.next_attempt(),
            (HandshakePhase::Resolving, HandshakeEvent::Resolved(None)) => self.next_attempt(),
            (HandshakePhase::Resolving, HandshakeEvent::Resolved(Some(link))) => if self.result.is_some() {
                (ActiveOpenView { phase: HandshakePhase::Finished, ..self }, HandshakeAction::Done)
            } else {
                (
                    ActiveOpenView { phase: HandshakePhase::Waiting, ..self },
                    HandshakeAction::Transmit(self.syn_frame(link), HANDSHAKE_TIMEOUT_SECS),
                )
            },
            (HandshakePhase::Waiting, HandshakeEvent::TimerExpired) => self.next_attempt(),
            _ => (self, HandshakeAction::Idle),
        }
    }

    /// One whole attempt without an answer from the peer: the resolution ends
    /// with `link`, and where it gave an address the timer then runs out.
    pub open spec fn unanswered_attempt(self, link: Option<MacAddress>) -> ActiveOpenView {
        let resolved = self.step(HandshakeEvent::Resolved(link)).0;
        if link.is_some() {
            resolved.step(HandshakeEvent::TimerExpired).0
        } else {
            resolved
        }
    }
}

/// The outcome of a handshake, with the established connection as plain values.
pub open spec fn outcome_view(result: Option<Result<EstablishedSocket, Fail>>) -> Option<Result<ControlBlockView, Fail>> {
    match result {
        None => None,
        Some(Err(fail)) => Some(Err(fail)),
        Some(Ok(socket)) => Some(Ok(socket@)),
    }
}

/// An outbound connection in the making.
#[derive(Clone, Copy, Debug)]
pub struct ActiveOpenSocket {
    local_isn: SeqNumber,
    local: Endpoint,
    remote: Endpoint,
    options: Options,
    attempts: u8,
    phase: HandshakePhase,
    result: Option<Result<EstablishedSocket, Fail>>,
}

impl ActiveOpenSocket {
    pub closed spec fn view(&self) -> ActiveOpenView {
        ActiveOpenView {
            local_isn: self.local_isn,
            local: self.local,
            remote: self.remote,
            options: self.options,
            attempts: self.attempts,
            phase: self.phase,
            result: outcome_view(self.result),
        }
    }

    /// A socket for a connection from `local` to `remote` that starts at
    /// `local_isn`. Its retry loop begins with the event `Start`.
    pub fn new(local_isn: SeqNumber, local: Endpoint, remote: Endpoint, options: Options) -> (r: ActiveOpenSocket)
        ensures
            r@ == ActiveOpenView::initial(local_isn, local, remote, options),
            r@.wf(),
    {
        ActiveOpenSocket {
            local_isn,
            local,
            remote,
            options,
            attempts: 0,
            phase: HandshakePhase::Created,
            result: None,
        }
    }

    /// The outcome of the handshake, once there is one.
    pub fn result(&self) -> (r: Option<Result<EstablishedSocket, Fail>>)
        ensures
            outcome_view(r) == self@.result,
    {
        self.result
    }

    pub fn local_isn(&self) -> (r: SeqNumber)
        ensures
            r == self@.local_isn,
    {
        self.local_isn
    }

    pub fn local(&self) -> (r: Endpoint)
        ensures
            r == self@.local,
    {
        self.local
    }

    pub fn remote(&self) -> (r: Endpoint)
        ensures
            r == self@.remote,
    {
        self.remote
    }

    pub fn options(&self) -> (r: Options)
        ensures
            r == self@.options,
    {
        self.options
    }

    pub fn phase(&self) -> (r: HandshakePhase)
        ensures
            r == self@.phase,
    {
        self.phase
    }

    /// The number of attempts begun so far.
    pub fn attempts(&self) -> (r: u8)
        ensures
            r == self@.attempts,
    {
        self.attempts
    }

    fn template(&self) -> (r: TcpSegment)
        ensures
            r == self@.template(),
    {
        TcpSegment::default()
            .src_ipv4_addr(self.local.address())
            .src_port(self.local.port())
            .dest_ipv4_addr(self.remote.address())
            .dest_port(self.remote.port())
    }

    /// Takes in a segment addressed to this half-open connection.
    /// `remote_link_addr` is the link address of the peer as the resolver has
    /// it cached. The frame that comes back, if any, is to be transmitted.
    pub fn receive_segment(&mut self, segment: TcpSegment, remote_link_addr: Option<MacAddress>) -> (frame: Option<
        Frame,
    >)
        ensures
            (final(self)@, frame) == old(self)@.receive(segment, remote_link_addr),
    {
        if segment.rst {
            self.result = Some(Err(Fail::ConnectionRefused));
            return None;
        }
        let expected_seq: SeqNumber = crate::sequence::add(self.local_isn, 1);
        if self.result.is_none() && segment.ack && segment.syn && segment.ack_num == expected_seq {
            let link: MacAddress = match remote_link_addr {
                Some(link) => link,
                None => {
                    self.result = Some(Err(Fail::ResolutionFailed));
                    return None;
                },
            };
            let window_size: u32 = match peer_window(segment.window_size, segment.window_scale) {
                Some(window_size) => window_size,
                None => {
                    self.result = Some(Err(Fail::WindowOverflow));
                    return None;
                },
            };
            let remote_seq_num: SeqNumber = crate::sequence::add(segment.seq_num, 1);
            let ack_segment: TcpSegment = self.template().ack(remote_seq_num);
            let frame: Frame = crate::segment::frame(
                ack_segment,
                self.options.my_ipv4_addr,
                self.options.my_link_addr,
                link,
            );
            let window_scale: u8 = match segment.window_scale {
                Some(scale) => scale,
                None => DEFAULT_WINDOW_SCALE,
            };
            let mss: u16 = match segment.mss {
                Some(mss) => mss,
                None => FALLBACK_MSS,
            };
            let sender = Sender::new(expected_seq, window_size, window_scale, mss);
            let receiver = Receiver::new(remote_seq_num, self.options.receive_window_size);
            let cb = ControlBlock::new(self.local, self.remote, self.options, sender, receiver);
            self.result = Some(Ok(EstablishedSocket::new(cb)));
            return Some(frame);
        }
        None
    }

    fn next_attempt(&mut self) -> (action: HandshakeAction)
        ensures
            (final(self)@, action) == old(self)@.next_attempt(),
    {
        if self.result.is_some() {
            self.phase = HandshakePhase::Finished;
            HandshakeAction::Done
        } else if self.attempts < HANDSHAKE_RETRIES {
            self.attempts = self.attempts + 1;
            self.phase = HandshakePhase::Resolving;
            HandshakeAction::Resolve(self.remote.address())
        } else {
            self.phase = HandshakePhase::Finished;
            self.result = Some(Err(Fail::Timeout));
            HandshakeAction::Done
        }
    }

    /// Advances the retry loop by one event and says what it asks for next.
    pub fn background(&mut self, event: HandshakeEvent) -> (action: HandshakeAction)
        ensures
            (final(self)@, action) == old(self)@.step(event),
    {
        match (self.phase, event) {
            (HandshakePhase::Created, HandshakeEvent::Start) => self.next_attempt(),
            (HandshakePhase::Resolving, HandshakeEvent::Resolved(None)) => self.next_attempt(),
            (HandshakePhase::Resolving, HandshakeEvent::Resolved(Some(link))) => {
                if self.result.is_some() {
                    self.phase = HandshakePhase::Finished;
                    HandshakeAction::Done
                } else {
                    let segment: TcpSegment = self.template()
                        .seq_num(self.local_isn)
                        .window_size(MAX_WINDOW_SIZE)
                        .mss(self.options.advertised_mss)
                        .syn();
                    self.phase = HandshakePhase::Waiting;
                    HandshakeAction::Transmit(
                        crate::segment::frame(segment, self.options.my_ipv4_addr, self.options.my_link_addr, link),
                        HANDSHAKE_TIMEOUT_SECS,
                    )
                }
            },
            (HandshakePhase::Waiting, HandshakeEvent::TimerExpired) => self.next_attempt(),
            _ => HandshakeAction::Idle,
        }
    }
}

/// Every segment and every event leaves a well-formed socket well formed, and
/// neither takes an attempt back.
pub proof fn lemma_handshake_preserves_wf(
    s: ActiveOpenView,
    segment: TcpSegment,
    link: Option<MacAddress>,
    event: HandshakeEvent,
)
    requires
        s.wf(),
    ensures
        s.receive(segment, link).0.wf(),
        s.receive(segment, link).0.attempts == s.attempts,
        s.step(event).0.wf(),
        s.attempts <= s.step(event).0.attempts <= s.attempts + 1,
{
}

/// A reset refuses the connection in every state of the socket, and transmits
/// nothing.
pub proof fn lemma_reset_refuses(s: ActiveOpenView, segment: TcpSegment, link: Option<MacAddress>)
    requires
        segment.rst,
    ensures
        s.receive(segment, link).0.result == Some(Err::<ControlBlockView, Fail>(Fail::ConnectionRefused)),
        s.receive(segment, link).1.is_none(),
{
}

/// Once refused, the connection stays refused: no later segment, a SYN-ACK
/// included, and no event of the retry loop changes the outcome or has a
/// frame transmitted.
pub proof fn lemma_refusal_is_final(
    s: ActiveOpenView,
    segment: TcpSegment,
    link: Option<MacAddress>,
    event: HandshakeEvent,
)
    requires
        s.result == Some(Err::<ControlBlockView, Fail>(Fail::ConnectionRefused)),
    ensures
        s.receive(segment, link).0.result == s.result,
        s.receive(segment, link).1.is_none(),
        s.step(event).0.result == s.result,
        !(s.step(event).1 is Transmit),
{
}

/// A segment that is neither a reset nor the SYN-ACK that the handshake waits
/// for is dropped: the socket stays as it was and nothing is transmitted.
pub proof fn lemma_other_segments_are_dropped(s: ActiveOpenView, segment: TcpSegment, link: Option<MacAddress>)
    requires
        !segment.rst,
        !s.is_syn_ack(segment),
    ensures
        s.receive(segment, link) == (s, None::<Frame>),
{
}

/// A SYN-ACK that acknowledges the sequence number after the local ISN, on a
/// socket without an outcome, with the peer's link address cached and a window
/// that fits, establishes the connection: the sender starts at the local ISN
/// plus one, the receiver at the peer's sequence number plus one, and the ACK
/// transmitted acknowledges that number.
pub proof fn lemma_syn_ack_establishes(s: ActiveOpenView, segment: TcpSegment, link: MacAddress)
    requires
        s.result.is_none(),
        s.is_syn_ack(segment),
        spec_peer_window(segment.window_size, segment.window_scale).is_some(),
    ensures
        s.receive(segment, Some(link)).0.result matches Some(Ok(cb)) && {
            &&& cb.wf()
            &&& cb.sender.sent_seq_no == spec_add(s.local_isn, 1)
            &&& cb.sender.unsent_seq_no == spec_add(s.local_isn, 1)
            &&& cb.receiver.recv_seq_no == spec_add(segment.seq_num, 1)
            &&& cb.receiver.ack_seq_no == spec_add(segment.seq_num, 1)
            &&& cb.sender.window_size == spec_peer_window(segment.window_size, segment.window_scale).unwrap()
        },
        s.receive(segment, Some(link)).1 matches Some(frame) && {
            &&& frame.segment.ack
            &&& frame.segment.ack_num == spec_add(segment.seq_num, 1)
            &&& frame.dest_link_addr == link
        },
{
}

/// A handshake that the peer never answers times out after its three
/// attempts, whatever the resolver reports in each of them.
pub proof fn lemma_unanswered_handshake_times_out(
    s: ActiveOpenView,
    first: Option<MacAddress>,
    second: Option<MacAddress>,
    third: Option<MacAddress>,
)
    requires
        s.phase == HandshakePhase::Created,
        s.attempts == 0,
        s.result.is_none(),
    ensures
        ({
            let started = s.step(HandshakeEvent::Start).0;
            let after_first = started.unanswered_attempt(first);
            let after_second = after_first.unanswered_attempt(second);
            let after_third = after_second.unanswered_attempt(third);
            &&& after_first.result.is_none()
            &&& after_second.result.is_none()
            &&& after_third.result == Some(Err::<ControlBlockView, Fail>(Fail::Timeout))
            &&& after_third.phase == HandshakePhase::Finished
        }),
{
}

} // verus!
