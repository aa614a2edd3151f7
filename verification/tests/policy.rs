//! The failure policy and the quarantine, one decision at a time.

use fuchsia::actor::{ActorContext, ActorError, ActorId, Backoff, Message, MessageValue, OnError};
use fuchsia::correlation::CorrelationId;
use fuchsia::dead_letter::DeadLetterReason;
use fuchsia::delivery::{Ack, Delivery, Health, Outcome};
use fuchsia::json::{Json, JsonObject};
use fuchsia::policy::{
    attempt_context, error_envelope, poison_check, FailureSinks, Gate, Handling, Step, TaskIds,
    Verdict,
};
use std::sync::{Arc, Mutex};
use std::time::Duration;

fn err(reason: &str) -> Outcome {
    Err(ActorError::Handle(reason.to_owned()))
}

fn begin(on_error: OnError) -> Handling {
    Handling::begin(on_error, Message::empty("m"), CorrelationId::from("run-1"))
}

fn retry(max: u32) -> OnError {
    OnError::Retry { max, backoff: Backoff::fixed(Duration::from_millis(5)) }
}

fn done(step: Step) -> Verdict {
    match step {
        Step::Done(verdict) => verdict,
        Step::Again { .. } => panic!("expected the handling to be over"),
    }
}

fn again(step: Step) -> (Handling, Option<Duration>) {
    match step {
        Step::Again { handling, delay } => (handling, delay),
        Step::Done(_) => panic!("expected another attempt"),
    }
}

fn nothing_taken(verdict: &Verdict) -> bool {
    verdict.letter.is_none() && verdict.envelope.is_none()
}

#[test]
fn success_is_reported_as_it_is_under_every_policy() {
    let node = ActorId::new("n");
    for on_error in [OnError::Continue, OnError::Fail, retry(2), OnError::RouteToError] {
        for dead_letter in [false, true] {
            let sinks = FailureSinks { dead_letter, node: &node };
            let verdict = done(begin(on_error).observe(Ok(()), &sinks));
            assert!(verdict.outcome.is_ok());
            assert!(!verdict.stop);
            assert!(nothing_taken(&verdict));
            assert_eq!(CorrelationId::current(&verdict.run), Some(CorrelationId::from("run-1")));
        }
    }
}

#[test]
fn continue_reports_the_error_and_goes_on() {
    let node = ActorId::new("n");
    let sinks = FailureSinks { dead_letter: true, node: &node };
    let verdict = done(begin(OnError::Continue).observe(err("x"), &sinks));
    assert_eq!(verdict.outcome, err("x"));
    assert!(!verdict.stop);
    assert!(nothing_taken(&verdict));
}

#[test]
fn fail_without_a_sink_stops_and_leaves_no_letter() {
    let node = ActorId::new("n");
    let sinks = FailureSinks { dead_letter: false, node: &node };
    let verdict = done(begin(OnError::Fail).observe(err("x"), &sinks));
    assert_eq!(verdict.outcome, err("x"));
    assert!(verdict.stop);
    assert!(nothing_taken(&verdict));
}

#[test]
fn a_retry_of_zero_is_one_attempt() {
    let node = ActorId::new("n");
    let sinks = FailureSinks { dead_letter: true, node: &node };
    let verdict = done(begin(retry(0)).observe(err("x"), &sinks));
    assert!(verdict.outcome.is_ok());
    assert_eq!(
        verdict.letter.unwrap().reason,
        DeadLetterReason::RetryExhausted {
            attempts: 1,
            error: "handle failed: x".to_owned(),
        }
    );
}

#[test]
fn a_retry_hands_the_same_message_over_and_reports_the_last_error() {
    let node = ActorId::new("n");
    let sinks = FailureSinks { dead_letter: true, node: &node };
    let (handling, delay) = again(begin(retry(2)).observe(err("first"), &sinks));
    assert_eq!(delay, Some(Duration::from_millis(5)));
    assert_eq!(handling.message(), Message::empty("m"));
    let (handling, _) = again(handling.observe(err("second"), &sinks));
    let verdict = done(handling.observe(err("third"), &sinks));
    assert!(verdict.outcome.is_ok());
    assert!(!verdict.stop);
    let letter = verdict.letter.unwrap();
    assert_eq!(letter.msg, Message::empty("m"));
    assert_eq!(letter.correlation.as_str(), "run-1");
    assert_eq!(
        letter.reason,
        DeadLetterReason::RetryExhausted {
            attempts: 3,
            error: "handle failed: third".to_owned(),
        }
    );
}

#[test]
fn a_retry_without_backoff_does_not_wait() {
    let node = ActorId::new("n");
    let sinks = FailureSinks { dead_letter: false, node: &node };
    let on_error = OnError::Retry { max: 1, backoff: Backoff::Immediate };
    let (_, delay) = again(begin(on_error).observe(err("x"), &sinks));
    assert_eq!(delay, None);
}

#[test]
fn an_envelope_shows_each_kind_of_payload() {
    let payload = |value: MessageValue| {
        let envelope = error_envelope("e", "n", "t", value);
        assert_eq!(envelope.type_, "error");
        let MessageValue::Json(body) = envelope.value else {
            panic!("envelope payload should be JSON");
        };
        assert_eq!(body.get("error"), Some(&Json::Str("e".to_owned())));
        assert_eq!(body.get("node"), Some(&Json::Str("n".to_owned())));
        assert_eq!(body.get("type"), Some(&Json::Str("t".to_owned())));
        body.get("payload").unwrap().clone()
    };
    assert_eq!(payload(MessageValue::Empty), Json::Null);
    assert_eq!(payload(MessageValue::Json(Json::UInt(3))), Json::UInt(3));
    assert_eq!(
        payload(MessageValue::Binary(vec![0; 7])),
        JsonObject::new().with("byte_len", Json::UInt(7)).build()
    );
}

#[test]
fn errors_are_shown_with_what_failed() {
    let reason = || "x".to_owned();
    assert_eq!(ActorError::Handle(reason()).to_string(), "handle failed: x");
    assert_eq!(ActorError::Setup(reason()).to_string(), "setup failed: x");
    assert_eq!(ActorError::UnknownType(reason()).to_string(), "unknown actor type: x");
}

#[test]
fn quarantine_starts_past_the_threshold() {
    let node = ActorId::new("n");
    let sinks = FailureSinks { dead_letter: false, node: &node };
    let mut health = Health::default();
    let mut quarantined = |attempts: u32, poison_after: u32| {
        let delivery = Delivery::with_correlation(
            Message::empty("m"),
            Ack::Health(Arc::new(Mutex::new(Health::default()))),
            CorrelationId::from("run"),
        )
        .with_attempts(attempts);
        match poison_check(delivery, poison_after, &sinks, &mut health) {
            Gate::Handle(delivery) => {
                assert_eq!(delivery.attempts, attempts);
                false
            }
            Gate::Quarantined(quarantine) => {
                assert!(quarantine.letter.is_none());
                assert_eq!(quarantine.correlation.as_str(), "run");
                assert_eq!(quarantine.attempts, attempts);
                assert_eq!(quarantine.settle().unwrap().outcome, Ok(()));
                true
            }
        }
    };
    assert!(!quarantined(1, 0));
    assert!(!quarantined(u32::MAX, 0));
    assert!(!quarantined(3, 3));
    assert!(quarantined(4, 3));
    assert!(quarantined(u32::MAX, 3));
    assert_eq!(health.poisoned(), 2);
    assert_eq!(health.handled(), 0);
}

#[test]
fn every_handling_has_a_number_of_its_own() {
    let base = ActorContext::for_node(&ActorId::new("n"));
    let run = CorrelationId::from("run-1");
    let mut ids = TaskIds::new();
    let labels: Vec<String> =
        (0..3).map(|_| attempt_context(&base, &run, &mut ids).task_label()).collect();
    assert_eq!(labels, vec!["task-1", "task-2", "task-3"]);
    assert_eq!(
        CorrelationId::current(&begin(OnError::Continue).scope()),
        Some(CorrelationId::from("run-1"))
    );
}
