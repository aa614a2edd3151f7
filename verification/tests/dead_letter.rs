//! Dead letters and their reasons.

use fuchsia::actor::{ActorId, Message};
use fuchsia::correlation::CorrelationId;
use fuchsia::dead_letter::{DeadLetter, DeadLetterReason, DeadLettered};
use std::sync::Mutex;

/// A recording sink: the shape a product's real impl takes, minus the store.
struct Recorder(Mutex<Vec<DeadLettered>>);

impl DeadLetter for Recorder {
    fn dead_letter(&self, letter: DeadLettered) {
        self.0.lock().expect("lock").push(letter);
    }
}

#[test]
fn sink_receives_the_dead_letter() {
    let rec = Recorder(Mutex::new(Vec::new()));
    rec.dead_letter(DeadLettered::new(
        Message::empty("boom"),
        CorrelationId::from("run-1"),
        ActorId::new("n"),
        DeadLetterReason::Failed { error: "handle failed: x".to_owned() },
    ));
    let got = rec.0.lock().expect("lock");
    assert_eq!(got.len(), 1);
    assert_eq!(got[0].msg.type_, "boom");
    assert_eq!(got[0].correlation.as_str(), "run-1");
    assert_eq!(got[0].node, ActorId::new("n"));
}

#[test]
fn node_died_reason_carries_restart_count() {
    // The permanent-death drain reason: a bystander message preserved after the
    // node crashed and exhausted its restart budget.
    let rec = Recorder(Mutex::new(Vec::new()));
    rec.dead_letter(DeadLettered::new(
        Message::empty("bystander"),
        CorrelationId::from("run-2"),
        ActorId::new("n"),
        DeadLetterReason::NodeDied { restarts: 3 },
    ));
    let got = rec.0.lock().expect("lock");
    assert_eq!(got.len(), 1);
    assert_eq!(got[0].reason, DeadLetterReason::NodeDied { restarts: 3 });
}

#[test]
fn each_reason_has_its_own_label() {
    let error = "e".to_owned();
    assert_eq!(
        DeadLetterReason::RetryExhausted { attempts: 2, error: error.clone() }.label(),
        "retry_exhausted"
    );
    assert_eq!(DeadLetterReason::Failed { error }.label(), "failed");
    assert_eq!(DeadLetterReason::NodeDied { restarts: 0 }.label(), "node_died");
    assert_eq!(DeadLetterReason::Poison { attempts: 4 }.label(), "poison");
}

#[test]
fn a_cloned_reason_is_equal() {
    let reason = DeadLetterReason::RetryExhausted { attempts: 3, error: "e".to_owned() };
    assert_eq!(reason.clone(), reason);
}
