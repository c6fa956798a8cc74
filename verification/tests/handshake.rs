use catnip::active_open::{
    peer_window, ActiveOpenSocket, HandshakeAction, HandshakeEvent, HandshakePhase, FALLBACK_MSS,
    HANDSHAKE_RETRIES, HANDSHAKE_TIMEOUT_SECS, MAX_WINDOW_SIZE,
};
use catnip::control_block::Options;
use catnip::fail::Fail;
use catnip::receiver::ReceiverState;
use catnip::segment::{Endpoint, Ipv4Address, MacAddress, TcpSegment};
use catnip::sender::SenderState;
use catnip::sequence::SeqNumber;

const LOCAL_IP: Ipv4Address = Ipv4Address { bits: 0xc0a8_0001 };
const REMOTE_IP: Ipv4Address = Ipv4Address { bits: 0xc0a8_0002 };
const LOCAL_MAC: MacAddress = MacAddress { bits: 0x0000_0200_0000_0001 };
const REMOTE_MAC: MacAddress = MacAddress { bits: 0x0000_0200_0000_0002 };

fn host_options() -> Options {
    Options { my_ipv4_addr: LOCAL_IP, my_link_addr: LOCAL_MAC, receive_window_size: 0xffff, advertised_mss: 1460 }
}

fn socket(local_isn: u32) -> ActiveOpenSocket {
    ActiveOpenSocket::new(
        SeqNumber::new(local_isn),
        Endpoint::new(LOCAL_IP, 49152),
        Endpoint::new(REMOTE_IP, 80),
        host_options(),
    )
}

fn syn_ack(seq_num: u32, ack_num: u32, window: u16) -> TcpSegment {
    TcpSegment::default()
        .src_ipv4_addr(REMOTE_IP)
        .src_port(80)
        .dest_ipv4_addr(LOCAL_IP)
        .dest_port(49152)
        .seq_num(SeqNumber::new(seq_num))
        .ack(SeqNumber::new(ack_num))
        .window_size(window)
        .syn()
}

fn failure(socket: &ActiveOpenSocket) -> Option<Fail> {
    match socket.result() {
        Some(Err(fail)) => Some(fail),
        _ => None,
    }
}

#[test]
fn new_socket_has_no_outcome() {
    let socket = socket(1000);
    assert!(socket.result().is_none());
    assert_eq!(socket.phase(), HandshakePhase::Created);
    assert_eq!(socket.attempts(), 0);
}

#[test]
fn syn_ack_establishes_the_connection() {
    let mut socket = socket(1000);
    let frame = socket.receive_segment(syn_ack(5000, 1001, 1024), Some(REMOTE_MAC)).expect("an ACK");
    let expected = TcpSegment::default()
        .src_ipv4_addr(LOCAL_IP)
        .src_port(49152)
        .dest_ipv4_addr(REMOTE_IP)
        .dest_port(80)
        .ack(SeqNumber::new(5001));
    assert_eq!(frame.segment, expected);
    assert_eq!(frame.segment.ack_num, SeqNumber::new(5001));
    assert_eq!(frame.src_link_addr, LOCAL_MAC);
    assert_eq!(frame.dest_link_addr, REMOTE_MAC);

    let established = match socket.result() {
        Some(Ok(established)) => established,
        other => panic!("not established: {:?}", other),
    };
    let cb = established.into_control_block();
    assert_eq!(cb.receiver().recv_seq_no(), SeqNumber::new(5001));
    assert_eq!(cb.receiver().ack_seq_no(), SeqNumber::new(5001));
    assert_eq!(cb.receiver().window_size(), 0xffff);
    assert_eq!(cb.receiver().state(), ReceiverState::Open);
    assert_eq!(cb.sender().sent_seq_no(), SeqNumber::new(1001));
    assert_eq!(cb.sender().unsent_seq_no(), SeqNumber::new(1001));
    assert_eq!(cb.sender().window_size(), 1024);
    assert_eq!(cb.sender().window_scale(), 1);
    assert_eq!(cb.sender().mss(), FALLBACK_MSS);
    assert_eq!(cb.sender().mss(), 536);
    assert_eq!(cb.sender().state(), SenderState::Open);
    assert_eq!(cb.local(), Endpoint::new(LOCAL_IP, 49152));
    assert_eq!(cb.remote(), Endpoint::new(REMOTE_IP, 80));
}

#[test]
fn syn_ack_options_are_taken_over() {
    let mut socket = socket(0xffff_ffff);
    let segment = syn_ack(0xffff_ffff, 0, 1024).window_scale(2).mss(1400);
    let frame = socket.receive_segment(segment, Some(REMOTE_MAC)).expect("an ACK");
    assert_eq!(frame.segment.ack_num, SeqNumber::new(0));
    let cb = match socket.result() {
        Some(Ok(established)) => established.into_control_block(),
        other => panic!("not established: {:?}", other),
    };
    assert_eq!(cb.sender().window_size(), 4096);
    assert_eq!(cb.sender().window_scale(), 2);
    assert_eq!(cb.sender().mss(), 1400);
    assert_eq!(cb.sender().sent_seq_no(), SeqNumber::new(0));
    assert_eq!(cb.receiver().recv_seq_no(), SeqNumber::new(0));
}

#[test]
fn reset_refuses_the_connection() {
    let mut socket = socket(1000);
    assert_eq!(socket.receive_segment(TcpSegment::default().rst(), Some(REMOTE_MAC)), None);
    assert_eq!(failure(&socket), Some(Fail::ConnectionRefused));
}

#[test]
fn reset_wins_over_syn_ack_flags_in_the_same_segment() {
    let mut socket = socket(1000);
    assert_eq!(socket.receive_segment(syn_ack(5000, 1001, 1024).rst(), Some(REMOTE_MAC)), None);
    assert_eq!(failure(&socket), Some(Fail::ConnectionRefused));
}

#[test]
fn reset_overrides_a_later_syn_ack() {
    let mut socket = socket(1000);
    assert_eq!(socket.receive_segment(TcpSegment::default().rst(), None), None);
    assert_eq!(socket.receive_segment(syn_ack(5000, 1001, 1024), Some(REMOTE_MAC)), None);
    assert_eq!(failure(&socket), Some(Fail::ConnectionRefused));
}

#[test]
fn reset_during_an_attempt_ends_the_retry_loop() {
    let mut socket = socket(1000);
    assert_eq!(socket.background(HandshakeEvent::Start), HandshakeAction::Resolve(REMOTE_IP));
    assert!(matches!(socket.background(HandshakeEvent::Resolved(Some(REMOTE_MAC))), HandshakeAction::Transmit(_, 5)));
    assert_eq!(socket.receive_segment(TcpSegment::default().rst(), Some(REMOTE_MAC)), None);
    assert_eq!(socket.background(HandshakeEvent::TimerExpired), HandshakeAction::Done);
    assert_eq!(socket.phase(), HandshakePhase::Finished);
    assert_eq!(failure(&socket), Some(Fail::ConnectionRefused));
}

#[test]
fn other_segments_are_dropped() {
    let mut socket = socket(1000);
    let wrong_ack = syn_ack(5000, 1002, 1024);
    let no_syn = TcpSegment::default().seq_num(SeqNumber::new(5000)).ack(SeqNumber::new(1001));
    let no_ack = TcpSegment::default().seq_num(SeqNumber::new(5000)).syn();
    let fin = TcpSegment::default().fin();
    for segment in [wrong_ack, no_syn, no_ack, fin, TcpSegment::default()] {
        assert_eq!(socket.receive_segment(segment, Some(REMOTE_MAC)), None);
        assert!(socket.result().is_none());
    }
}

#[test]
fn second_syn_ack_changes_nothing() {
    let mut socket = socket(1000);
    assert!(socket.receive_segment(syn_ack(5000, 1001, 1024), Some(REMOTE_MAC)).is_some());
    assert_eq!(socket.receive_segment(syn_ack(7000, 1001, 2048), Some(REMOTE_MAC)), None);
    let cb = match socket.result() {
        Some(Ok(established)) => established.into_control_block(),
        other => panic!("not established: {:?}", other),
    };
    assert_eq!(cb.receiver().recv_seq_no(), SeqNumber::new(5001));
    assert_eq!(cb.sender().window_size(), 1024);
}

#[test]
fn syn_ack_without_a_cached_link_address_fails() {
    let mut socket = socket(1000);
    assert_eq!(socket.receive_segment(syn_ack(5000, 1001, 1024), None), None);
    assert_eq!(failure(&socket), Some(Fail::ResolutionFailed));
}

#[test]
fn syn_ack_with_an_overflowing_window_fails() {
    let mut socket = socket(1000);
    let segment = syn_ack(5000, 1001, 0xffff).window_scale(17);
    assert_eq!(socket.receive_segment(segment, Some(REMOTE_MAC)), None);
    assert_eq!(failure(&socket), Some(Fail::WindowOverflow));
}

#[test]
fn peer_window_shifts_by_the_scale() {
    assert_eq!(peer_window(1024, None), Some(1024));
    assert_eq!(peer_window(1024, Some(0)), Some(1024));
    assert_eq!(peer_window(1024, Some(1)), Some(2048));
    assert_eq!(peer_window(0xffff, Some(14)), Some(0x3fff_c000));
    assert_eq!(peer_window(0xffff, Some(16)), Some(0xffff_0000));
    assert_eq!(peer_window(1, Some(31)), Some(0x8000_0000));
    assert_eq!(peer_window(0, Some(31)), Some(0));
}

#[test]
fn peer_window_reports_overflow() {
    assert_eq!(peer_window(0xffff, Some(17)), None);
    assert_eq!(peer_window(2, Some(31)), None);
    assert_eq!(peer_window(1, Some(32)), None);
    assert_eq!(peer_window(0, Some(32)), None);
    assert_eq!(peer_window(1, Some(255)), None);
}

#[test]
fn first_attempt_resolves_then_sends_the_syn() {
    let mut socket = socket(1000);
    assert_eq!(socket.background(HandshakeEvent::Start), HandshakeAction::Resolve(REMOTE_IP));
    assert_eq!(socket.phase(), HandshakePhase::Resolving);
    assert_eq!(socket.attempts(), 1);
    let frame = match socket.background(HandshakeEvent::Resolved(Some(REMOTE_MAC))) {
        HandshakeAction::Transmit(frame, 5) => frame,
        other => panic!("no SYN: {:?}", other),
    };
    let expected = TcpSegment::default()
        .src_ipv4_addr(LOCAL_IP)
        .src_port(49152)
        .dest_ipv4_addr(REMOTE_IP)
        .dest_port(80)
        .seq_num(SeqNumber::new(1000))
        .window_size(1024)
        .mss(1460)
        .syn();
    assert_eq!(frame.segment, expected);
    assert_eq!(frame.src_link_addr, LOCAL_MAC);
    assert_eq!(frame.dest_link_addr, REMOTE_MAC);
    assert_eq!(socket.phase(), HandshakePhase::Waiting);
    assert_eq!(MAX_WINDOW_SIZE, 1024);
}

#[test]
fn unanswered_handshake_times_out_after_three_attempts() {
    assert_eq!(HANDSHAKE_RETRIES, 3);
    assert_eq!(HANDSHAKE_TIMEOUT_SECS, 5);
    let mut socket = socket(1000);
    let mut action = socket.background(HandshakeEvent::Start);
    for attempt in 1..=3u8 {
        assert_eq!(action, HandshakeAction::Resolve(REMOTE_IP));
        assert_eq!(socket.attempts(), attempt);
        assert!(matches!(
            socket.background(HandshakeEvent::Resolved(Some(REMOTE_MAC))),
            HandshakeAction::Transmit(_, 5)
        ));
        assert!(socket.result().is_none());
        action = socket.background(HandshakeEvent::TimerExpired);
    }
    assert_eq!(action, HandshakeAction::Done);
    assert_eq!(socket.phase(), HandshakePhase::Finished);
    assert_eq!(failure(&socket), Some(Fail::Timeout));
    assert_eq!(socket.background(HandshakeEvent::TimerExpired), HandshakeAction::Idle);
    assert_eq!(failure(&socket), Some(Fail::Timeout));
}

#[test]
fn failed_resolution_uses_up_an_attempt() {
    let mut socket = socket(1000);
    assert_eq!(socket.background(HandshakeEvent::Start), HandshakeAction::Resolve(REMOTE_IP));
    assert_eq!(socket.background(HandshakeEvent::Resolved(None)), HandshakeAction::Resolve(REMOTE_IP));
    assert_eq!(socket.attempts(), 2);
    assert_eq!(socket.background(HandshakeEvent::Resolved(None)), HandshakeAction::Resolve(REMOTE_IP));
    assert_eq!(socket.attempts(), 3);
    assert_eq!(socket.background(HandshakeEvent::Resolved(None)), HandshakeAction::Done);
    assert_eq!(failure(&socket), Some(Fail::Timeout));
}

#[test]
fn events_out_of_turn_are_ignored() {
    let mut socket = socket(1000);
    assert_eq!(socket.background(HandshakeEvent::TimerExpired), HandshakeAction::Idle);
    assert_eq!(socket.background(HandshakeEvent::Resolved(Some(REMOTE_MAC))), HandshakeAction::Idle);
    assert_eq!(socket.phase(), HandshakePhase::Created);
    assert_eq!(socket.attempts(), 0);
    assert_eq!(socket.background(HandshakeEvent::Start), HandshakeAction::Resolve(REMOTE_IP));
    assert_eq!(socket.background(HandshakeEvent::Start), HandshakeAction::Idle);
    assert_eq!(socket.background(HandshakeEvent::TimerExpired), HandshakeAction::Idle);
    assert_eq!(socket.attempts(), 1);
}

#[test]
fn established_socket_ends_the_retry_loop() {
    let mut socket = socket(1000);
    assert_eq!(socket.background(HandshakeEvent::Start), HandshakeAction::Resolve(REMOTE_IP));
    assert!(matches!(socket.background(HandshakeEvent::Resolved(Some(REMOTE_MAC))), HandshakeAction::Transmit(_, 5)));
    assert!(socket.receive_segment(syn_ack(5000, 1001, 1024), Some(REMOTE_MAC)).is_some());
    assert_eq!(socket.background(HandshakeEvent::TimerExpired), HandshakeAction::Done);
    assert!(matches!(socket.result(), Some(Ok(_))));
    assert_eq!(socket.attempts(), 1);
}
