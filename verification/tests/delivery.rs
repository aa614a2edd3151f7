//! Health counters, acks and deliveries.

use fuchsia::actor::{ActorError, Message};
use fuchsia::correlation::{CorrelationId, CorrelationIds, CorrelationScope};
use fuchsia::delivery::{Ack, Delivery, Health, Outcome, SharedHealth};
use std::sync::{Arc, Mutex};
use tokio::sync::oneshot;

fn err() -> Outcome {
    Err(ActorError::Handle("boom".to_owned()))
}

fn shared() -> SharedHealth {
    Arc::new(Mutex::new(Health::default()))
}

fn delivery(type_: &str, ack: Ack) -> Delivery {
    let mut ids = CorrelationIds::new();
    Delivery::new(Message::empty(type_), ack, &CorrelationScope::none(), &mut ids)
}

/// Counts what an ack left to be counted, as a host does.
fn settle(ack: Ack, outcome: Outcome) {
    if let Some(tally) = ack.report(outcome) {
        let health = tally.health.clone();
        tally.count(&mut health.lock().unwrap());
    }
}

#[test]
fn health_counts_handled_and_errored() {
    let mut h = Health::default();
    h.record(&Ok(()));
    h.record(&err());
    assert_eq!(h.handled(), 2);
    assert_eq!(h.errored(), 1);
}

#[test]
fn record_death_is_separate_from_errored() {
    let mut h = Health::default();
    h.record(&err()); // a failed message
    h.record_death(); // a node death
    assert_eq!(h.errored(), 1);
    assert_eq!(h.died(), 1);
    // The death did not inflate the per-message counters.
    assert_eq!(h.handled(), 1);
}

#[test]
fn record_poison_is_separate_from_errored_and_died() {
    let mut h = Health::default();
    h.record(&err()); // a failed message
    h.record_death(); // a node death
    h.record_poison(); // a quarantined poison message
    assert_eq!(h.errored(), 1);
    assert_eq!(h.died(), 1);
    assert_eq!(h.poisoned(), 1);
    // The poison did not inflate the per-message handled counter.
    assert_eq!(h.handled(), 1);
}

#[test]
fn record_crash_is_separate_from_the_other_counters() {
    let mut h = Health::default();
    h.record_crash();
    h.record_crash();
    assert_eq!(h.crashed(), 2);
    assert_eq!((h.handled(), h.errored(), h.died(), h.poisoned()), (0, 0, 0, 0));
}

#[test]
fn delivery_defaults_to_first_attempt() {
    let d = delivery("x", Ack::Health(shared()));
    assert_eq!(d.attempts, 1);
}

#[test]
fn with_attempts_stamps_and_normalizes_zero_to_one() {
    let d = delivery("x", Ack::Health(shared())).with_attempts(4);
    assert_eq!(d.attempts, 4);
    // A feeder that hands `0` still counts as one attempt.
    let d = delivery("x", Ack::Health(shared())).with_attempts(0);
    assert_eq!(d.attempts, 1);
}

#[test]
fn a_delivery_belongs_to_the_run_in_scope() {
    let mut ids = CorrelationIds::new();
    let scope = CorrelationId::from("run-5").scope();
    let inside = Delivery::new(Message::empty("x"), Ack::Health(shared()), &scope, &mut ids);
    assert_eq!(inside.correlation.as_str(), "run-5");
    // Outside a scope a fresh run is minted; the one above used none up.
    let none = CorrelationScope::none();
    let outside = Delivery::new(Message::empty("x"), Ack::Health(shared()), &none, &mut ids);
    assert_eq!(outside.correlation.as_str(), "cid-1");
}

#[test]
fn an_explicit_correlation_is_kept() {
    let d = Delivery::with_correlation(
        Message::empty("x"),
        Ack::Health(shared()),
        CorrelationId::from("run-6"),
    );
    assert_eq!(d.correlation.as_str(), "run-6");
    assert_eq!(d.msg, Message::empty("x"));
}

#[test]
fn health_ack_folds_outcome_into_counters() {
    let health = shared();
    settle(Ack::Health(health.clone()), err());
    assert_eq!(health.lock().unwrap().handled(), 1);
    assert_eq!(health.lock().unwrap().errored(), 1);
}

#[test]
fn complete_ack_sends_outcome_to_feeder() {
    let (tx, mut rx) = oneshot::channel();
    assert!(Ack::Complete(tx).report(Ok(())).is_none());
    assert!(rx.try_recv().expect("feeder receives outcome").is_ok());
}

#[test]
fn complete_ack_sends_the_error_it_was_given() {
    let (tx, mut rx) = oneshot::channel();
    assert!(Ack::Complete(tx).report(err()).is_none());
    assert_eq!(rx.try_recv().unwrap(), err());
}

#[test]
fn complete_ack_tolerates_a_feeder_that_gave_up() {
    let (tx, rx) = oneshot::channel();
    drop(rx);
    assert!(Ack::Complete(tx).report(Ok(())).is_none());
}

#[test]
fn dropped_complete_ack_closes_receiver() {
    let (tx, mut rx) = oneshot::channel::<Outcome>();
    let ack = Ack::Complete(tx);
    drop(ack); // delivery shed, or actor died before reporting
    assert_eq!(rx.try_recv(), Err(oneshot::error::TryRecvError::Closed)); // feeder retries
}
