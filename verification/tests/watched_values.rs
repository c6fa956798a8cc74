use catnip::control_block::{ControlBlock, Options};
use catnip::receiver::{Receiver, ReceiverState};
use catnip::segment::{Endpoint, Ipv4Address, MacAddress};
use catnip::sender::{Sender, SenderState};
use catnip::sequence::SeqNumber;
use catnip::watched::{Watch, WatchedValue};

fn watched_block() -> ControlBlock {
    ControlBlock::new(
        Endpoint::new(Ipv4Address { bits: 1 }, 1),
        Endpoint::new(Ipv4Address { bits: 2 }, 2),
        Options {
            my_ipv4_addr: Ipv4Address { bits: 1 },
            my_link_addr: MacAddress { bits: 1 },
            receive_window_size: 100,
            advertised_mss: 1460,
        },
        Sender::new(SeqNumber::new(10), 1024, 1, 536),
        Receiver::new(SeqNumber::new(20), 100),
    )
}

#[test]
fn watched_value_counts_its_changes() {
    let mut value = WatchedValue::new(7u32);
    assert_eq!(value.get(), 7);
    let (seen, ticket) = value.watch();
    assert_eq!((seen, ticket), (7, 0));
    assert!(!value.changed_since(ticket));
    value.set(9);
    assert_eq!(value.get(), 9);
    assert!(value.changed_since(ticket));
    assert_eq!(value.watch(), (9, 1));
    assert!(!value.changed_since(1));
}

#[test]
fn watched_value_counts_a_set_to_the_same_value() {
    let mut value = WatchedValue::new(SenderState::Open);
    let (_, ticket) = value.watch();
    value.set(SenderState::Open);
    assert!(value.changed_since(ticket));
    assert_eq!(value.watch(), (SenderState::Open, 1));
}

#[test]
fn refused_changes_are_not_counted() {
    let mut sender = Sender::new(SeqNumber::new(0), 1, 1, 1);
    assert!(!sender.set_state(SenderState::FinAckd));
    assert!(!sender.transmit(1));
    assert_eq!(sender.watch_state().watch(), (SenderState::Open, 0));
    assert_eq!(sender.watch_sent_seq_no().watch(), (SeqNumber::new(0), 0));
    assert!(sender.set_state(SenderState::Closed));
    assert_eq!(sender.watch_state().watch(), (SenderState::Closed, 1));
}

#[test]
fn each_change_is_counted_on_its_own_value() {
    let mut cb = watched_block();
    assert!(cb.enqueue(4));
    assert!(cb.enqueue(4));
    assert!(cb.transmit(8));
    assert!(cb.receive(3));
    assert!(cb.acknowledge(1));
    assert!(cb.acknowledge(1));
    assert!(cb.acknowledge(1));
    cb.set_window_size(55);
    assert!(cb.set_receiver_state(ReceiverState::ReceivedFin));
    assert_eq!(cb.sender().watch_unsent_seq_no().watch(), (SeqNumber::new(18), 2));
    assert_eq!(cb.sender().watch_sent_seq_no().watch(), (SeqNumber::new(18), 1));
    assert_eq!(cb.sender().watch_window_size().watch(), (55, 1));
    assert_eq!(cb.sender().watch_state().watch(), (SenderState::Open, 0));
    assert_eq!(cb.receiver().watch_recv_seq_no().watch(), (SeqNumber::new(23), 1));
    assert_eq!(cb.receiver().watch_ack_seq_no().watch(), (SeqNumber::new(23), 3));
    assert_eq!(cb.receiver().watch_state().watch(), (ReceiverState::ReceivedFin, 1));
    assert!(cb.changed_since(Watch::UnsentSeqNo, 1));
    assert!(!cb.changed_since(Watch::UnsentSeqNo, 2));
    assert!(!cb.changed_since(Watch::SentSeqNo, 1));
    assert!(!cb.changed_since(Watch::WindowSize, 1));
    assert!(!cb.changed_since(Watch::SenderState, 0));
    assert!(!cb.changed_since(Watch::RecvSeqNo, 1));
    assert!(!cb.changed_since(Watch::AckSeqNo, 3));
    assert!(cb.changed_since(Watch::ReceiverState, 0));
}
