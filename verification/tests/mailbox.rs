//! The bounded mailbox.

use fuchsia::actor::Message;
use fuchsia::correlation::CorrelationId;
use fuchsia::delivery::{Ack, Delivery, Health, Outcome};
use fuchsia::mailbox::{mailbox, Offer, TrySent};
use std::sync::{Arc, Mutex};
use tokio::sync::oneshot;

fn with_ack(type_: &str, ack: Ack) -> Delivery {
    Delivery::with_correlation(Message::empty(type_), ack, CorrelationId::from("run"))
}

fn health_delivery(type_: &str) -> Delivery {
    with_ack(type_, Ack::Health(Arc::new(Mutex::new(Health::default()))))
}

#[test]
fn offer_then_recv_round_trips() {
    let (tx, mut rx) = mailbox(4);
    assert_eq!(tx.offer(health_delivery("a")), Offer::Delivered);
    let d = rx.try_recv().expect("delivery");
    assert_eq!(d.msg.type_, "a");
}

#[test]
fn deliveries_arrive_in_order() {
    let (tx, mut rx) = mailbox(4);
    for type_ in ["a", "b", "c"] {
        assert_eq!(tx.offer(health_delivery(type_)), Offer::Delivered);
    }
    let got: Vec<String> = (0..3).map(|_| rx.try_recv().unwrap().msg.type_).collect();
    assert_eq!(got, vec!["a", "b", "c"]);
    assert!(rx.try_recv().is_none());
}

#[test]
fn offer_sheds_when_full() {
    let (tx, _rx) = mailbox(1);
    assert_eq!(tx.offer(health_delivery("a")), Offer::Delivered);
    assert_eq!(tx.offer(health_delivery("b")), Offer::Shed);
}

#[test]
fn a_mailbox_buffers_as_much_as_it_was_made_for() {
    let (tx, rx) = mailbox(32);
    assert_eq!(tx.sender.max_capacity(), 32);
    assert_eq!(rx.receiver.max_capacity(), 32);
    assert_eq!(tx.clone().sender.max_capacity(), 32);
    assert_eq!(tx.downgrade().upgrade().unwrap().sender.max_capacity(), 32);
    for _ in 0..32 {
        assert_eq!(tx.offer(health_delivery("a")), Offer::Delivered);
    }
    assert_eq!(tx.offer(health_delivery("b")), Offer::Shed);
}

#[test]
fn shedding_a_complete_delivery_signals_retry() {
    let (tx, _rx) = mailbox(1);
    // Fill the single slot so the next offer is shed.
    assert_eq!(tx.offer(health_delivery("fill")), Offer::Delivered);

    let (ack_tx, mut ack_rx) = oneshot::channel::<Outcome>();
    let shed = with_ack("job", Ack::Complete(ack_tx));
    assert_eq!(tx.offer(shed), Offer::Shed); // dropped here, and the ack with it

    // The feeder observes a closed channel and retries.
    assert_eq!(ack_rx.try_recv(), Err(oneshot::error::TryRecvError::Closed));
}

#[test]
fn recv_returns_none_when_all_senders_dropped() {
    let (tx, mut rx) = mailbox(1);
    drop(tx);
    assert!(rx.try_recv().is_none());
    assert!(rx.receiver.is_closed());
}

#[test]
fn offer_to_a_dropped_receiver_is_closed() {
    let (tx, rx) = mailbox(1);
    drop(rx);
    assert_eq!(tx.offer(health_delivery("a")), Offer::Closed);
}

#[test]
fn each_way_of_sending_has_its_offer() {
    assert_eq!(Offer::of(TrySent::Accepted), Offer::Delivered);
    assert_eq!(Offer::of(TrySent::Full(health_delivery("a"))), Offer::Shed);
    assert_eq!(Offer::of(TrySent::Closed(health_delivery("a"))), Offer::Closed);
}

#[test]
fn a_weak_sender_upgrades_only_while_the_mailbox_is_open() {
    let (tx, mut rx) = mailbox(2);
    let weak = tx.downgrade();
    let other = weak.clone();
    assert_eq!(weak.upgrade().unwrap().offer(health_delivery("timer")), Offer::Delivered);
    assert_eq!(rx.try_recv().unwrap().msg.type_, "timer");
    drop(tx);
    assert!(weak.upgrade().is_none());
    assert!(other.upgrade().is_none());
}

#[test]
fn draining_takes_everything_in_order() {
    let (tx, mut rx) = mailbox(4);
    assert!(rx.drain().is_empty());
    for type_ in ["a", "b", "c"] {
        assert_eq!(tx.offer(health_delivery(type_)), Offer::Delivered);
    }
    let got: Vec<String> = rx.drain().into_iter().map(|d| d.msg.type_).collect();
    assert_eq!(got, vec!["a", "b", "c"]);
    assert!(rx.drain().is_empty());
    // The mailbox still works.
    assert_eq!(tx.offer(health_delivery("d")), Offer::Delivered);
    assert_eq!(rx.drain().len(), 1);
}

#[test]
fn clones_and_upgrades_belong_to_the_same_channel() {
    let (tx, _rx) = mailbox(4);
    let (other, _other_rx) = mailbox(4);
    assert!(tx.clone().sender.same_channel(&tx.sender));
    assert!(tx.downgrade().upgrade().unwrap().sender.same_channel(&tx.sender));
    assert!(tx.downgrade().clone().upgrade().unwrap().sender.same_channel(&tx.sender));
    assert!(!other.sender.same_channel(&tx.sender));
}
