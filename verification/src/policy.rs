//! What happens around one handling: the quarantine gate in front of it, and
//! the failure policy behind it.

use crate::actor::{
    label, ActorContext, ActorError, ActorId, Backoff, Message, MessageModel, MessageValue,
    OnError, ValueModel, ERROR_PORT,
};
use crate::correlation::{CorrelationId, CorrelationScope};
use crate::counter::{a_counter_repeats_only_after_a_full_round, bumped, counted_on};
use crate::dead_letter::{DeadLetterReason, DeadLettered, LetterModel, ReasonModel};
use crate::delivery::{was_sent, Ack, Counts, Delivery, Health, Outcome, Tally};
use crate::json::{Json, JsonModel, JsonObject};
use crate::text::{decimal, decimal_is_injective};
use core::time::Duration;
use std::sync::Arc;
use vstd::prelude::*;

verus! {

/// Where the failures of one node can go.
#[derive(Clone, Copy)]
pub struct FailureSinks<'a> {
    /// Whether the host granted the node a dead-letter sink.
    pub dead_letter: bool,
    /// The node, as stamped onto its dead letters and error envelopes.
    pub node: &'a ActorId,
}

// ── The quarantine gate ────────────────────────────────────────────────────

/// Whether a delivery handed over `attempts` times is poison to a node that
/// quarantines after `poison_after`; a threshold of 0 switches quarantine off.
pub open spec fn poisonous(attempts: u32, poison_after: u32) -> bool {
    poison_after != 0 && attempts > poison_after
}

/// What is decided about a delivery before it is handled.
pub enum Gate {
    /// Handle it as usual.
    Handle(Delivery),
    /// It was diverted and must not reach the actor.
    Quarantined(Quarantine),
}

/// A delivery that was diverted unhandled.
pub struct Quarantine {
    /// What to hand to the dead-letter sink, where there is one.
    pub letter: Option<DeadLettered>,
    /// The run the message belongs to.
    pub correlation: CorrelationId,
    /// How often it had been handed over.
    pub attempts: u32,
    /// Reported as a success once the letter is handed over.
    pub ack: Ack,
}

impl Quarantine {
    /// Reports success, so that an at-least-once feeder stops re-delivering: the
    /// runtime has taken responsibility for the message.
    #[must_use]
    pub fn settle(self) -> (owed: Option<Tally>)
        ensures
            owed == (match self.ack {
                Ack::Health(health) => Some(Tally { health, outcome: Ok(()) }),
                Ack::Complete(_) => None,
            }),
            self.ack matches Ack::Complete(tx) ==> was_sent(tx, Ok(())),
    {
        self.ack.report(Ok(()))
    }
}

/// The letter for a quarantined delivery.
pub open spec fn poison_letter(delivery: Delivery, node: ActorId) -> LetterModel {
    LetterModel {
        msg: delivery.msg@,
        correlation: delivery.correlation@,
        node: node@,
        reason: ReasonModel::Poison { attempts: delivery.attempts },
    }
}

/// What diverting a delivery comes to: its run and its count are kept to be told
/// and its ack to be settled, and the message is preserved in a letter exactly
/// where the node has a sink.
pub open spec fn diverted(delivery: Delivery, sinks: FailureSinks<'_>, q: Quarantine) -> bool {
    &&& q.correlation == delivery.correlation
    &&& q.attempts == delivery.attempts
    &&& q.ack == delivery.ack
    &&& match q.letter {
        Some(letter) => sinks.dead_letter && letter@ == poison_letter(delivery, *sinks.node),
        None => !sinks.dead_letter,
    }
}

/// The node's counters once a delivery has been let through or diverted: a quarantined
/// delivery that no sink preserves is counted, and nothing else is.
pub open spec fn counts_past_gate(
    counts: Counts,
    delivery: Delivery,
    poison_after: u32,
    sinks: FailureSinks<'_>,
) -> Counts {
    if poisonous(delivery.attempts, poison_after) && !sinks.dead_letter {
        counts.with_poison()
    } else {
        counts
    }
}

/// The quarantine gate, run before a delivery reaches its actor.
///
/// A poisonous delivery is diverted without being handled, so that it cannot
/// crash the node again: it is preserved on the dead-letter sink where the node
/// has one, and counted on the node's own health where it has none. Any other
/// delivery is handed back untouched.
pub fn poison_check(
    delivery: Delivery,
    poison_after: u32,
    sinks: &FailureSinks<'_>,
    health: &mut Health,
) -> (gate: Gate)
    ensures
        final(health)@ == counts_past_gate(old(health)@, delivery, poison_after, *sinks),
        match gate {
            Gate::Handle(d) => !poisonous(delivery.attempts, poison_after) && d == delivery,
            Gate::Quarantined(q) => poisonous(delivery.attempts, poison_after) && diverted(
                delivery,
                *sinks,
                q,
            ),
        },
        gate is Handle <==> poison_after == 0 || delivery.attempts <= poison_after,
        gate matches Gate::Quarantined(q) ==> {
            &&& q.ack == delivery.ack
            &&& q.correlation == delivery.correlation
            &&& q.attempts == delivery.attempts
            &&& q.letter is Some <==> sinks.dead_letter
            &&& q.letter matches Some(letter) ==> {
                &&& letter.msg == delivery.msg
                &&& letter.correlation == delivery.correlation
                &&& letter.node == *sinks.node
                &&& letter.reason == DeadLetterReason::Poison { attempts: delivery.attempts }
            }
        },
        final(health)@.handled == old(health)@.handled,
        final(health)@.errored == old(health)@.errored,
        final(health)@.died == old(health)@.died,
        final(health)@.crashed == old(health)@.crashed,
        final(health)@.poisoned == (if gate is Quarantined && !sinks.dead_letter {
            bumped(old(health)@.poisoned)
        } else {
            old(health)@.poisoned
        }),
{
    if poison_after == 0 || delivery.attempts <= poison_after {
        return Gate::Handle(delivery);
    }
    let Delivery { msg, ack, span: _, correlation, attempts } = delivery;
    if sinks.dead_letter {
        let reason = DeadLetterReason::Poison { attempts };
        let letter = DeadLettered::new(msg, correlation.clone(), sinks.node.clone(), reason);
        Gate::Quarantined(Quarantine { letter: Some(letter), correlation, attempts, ack })
    } else {
        health.record_poison();
        Gate::Quarantined(Quarantine { letter: None, correlation, attempts, ack })
    }
}

/// Quarantine takes exactly the deliveries handed over more often than the
/// threshold: none where the threshold is 0, none up to it, all beyond it. A
/// delivery once past it stays past it, however often it is handed over again.
pub proof fn quarantine_takes_exactly_what_is_past_the_threshold(
    attempts: u32,
    later: u32,
    poison_after: u32,
)
    ensures
        poison_after == 0 ==> !poisonous(attempts, poison_after),
        attempts <= poison_after ==> !poisonous(attempts, poison_after),
        0 < poison_after < attempts ==> poisonous(attempts, poison_after),
        poisonous(attempts, poison_after) && attempts <= later ==> poisonous(later, poison_after),
{
}

/// A quarantined message is not lost: where the node has a sink there is a letter,
/// and it carries the very message, type and payload, with its run, the node, and
/// how often it was handed over. Its ack is kept.
pub proof fn a_quarantined_message_is_preserved(
    delivery: Delivery,
    sinks: FailureSinks<'_>,
    q: Quarantine,
)
    requires
        diverted(delivery, sinks, q),
    ensures
        q.ack == delivery.ack,
        q.correlation == delivery.correlation,
        q.attempts == delivery.attempts,
        sinks.dead_letter <==> q.letter is Some,
        q.letter matches Some(letter) ==> {
            &&& letter.msg.type_@ == delivery.msg.type_@
            &&& letter.msg.value@ == delivery.msg.value@
            &&& letter.correlation@ == delivery.correlation@
            &&& letter.node@ == sinks.node@
            &&& letter.reason matches DeadLetterReason::Poison { attempts } && attempts
                == delivery.attempts
        },
{
}

/// A quarantine counts once, and only where no sink preserves the message; nothing
/// else is counted before a message is handled.
pub proof fn only_an_unpreserved_quarantine_is_counted(
    counts: Counts,
    delivery: Delivery,
    poison_after: u32,
    sinks: FailureSinks<'_>,
)
    ensures
        ({
            let after = counts_past_gate(counts, delivery, poison_after, sinks);
            let dropped = 0 < poison_after < delivery.attempts && !sinks.dead_letter;
            &&& !dropped ==> after == counts
            &&& dropped && counts.poisoned < u64::MAX ==> after.poisoned == counts.poisoned + 1
            &&& after.handled == counts.handled && after.errored == counts.errored
            &&& after.died == counts.died && after.crashed == counts.crashed
        }),
{
}

// ── The error envelope ─────────────────────────────────────────────────────

/// A message's payload inside an error envelope: JSON stands as it is, nothing
/// becomes `null`, and bytes become a marker that names only their number.
pub open spec fn enveloped_payload(value: ValueModel) -> JsonModel {
    match value {
        ValueModel::Json(v) => v,
        ValueModel::Empty => JsonModel::Null,
        ValueModel::Binary(bytes) => JsonModel::Object(
            Map::empty().insert("byte_len"@, JsonModel::UInt(bytes.len() as u64)),
        ),
    }
}

/// The error envelope for a message that `node` failed with `error`.
pub open spec fn envelope(error: Seq<char>, node: Seq<char>, msg: MessageModel) -> MessageModel {
    MessageModel {
        type_: "error"@,
        value: ValueModel::Json(
            JsonModel::Object(
                Map::empty().insert("error"@, JsonModel::Str(error)).insert(
                    "node"@,
                    JsonModel::Str(node),
                ).insert("type"@, JsonModel::Str(msg.type_)).insert(
                    "payload"@,
                    enveloped_payload(msg.value),
                ),
            ),
        ),
    }
}

/// An error envelope is of type `error`, and has these four members and no others:
/// the error, the node, and the type and the payload of the failed message. A JSON
/// payload stands in it as it was, and of bytes it tells how many there were.
pub proof fn an_envelope_tells_what_failed(error: Seq<char>, node: Seq<char>, msg: MessageModel)
    ensures
        envelope(error, node, msg).type_ == "error"@,
        envelope(error, node, msg).value matches ValueModel::Json(JsonModel::Object(members)) && {
            &&& members.dom() == set!["error"@, "node"@, "type"@, "payload"@]
            &&& members["error"@] == JsonModel::Str(error)
            &&& members["node"@] == JsonModel::Str(node)
            &&& members["type"@] == JsonModel::Str(msg.type_)
            &&& msg.value matches ValueModel::Json(v) ==> members["payload"@] == v
            &&& msg.value is Empty ==> members["payload"@] is Null
            &&& msg.value matches ValueModel::Binary(bytes) ==> (
            members["payload"@] matches JsonModel::Object(marker) && marker.dom() == set![
                "byte_len"@,
            ] && marker["byte_len"@] == JsonModel::UInt(bytes.len() as u64))
        },
{
    reveal_strlit("error");
    reveal_strlit("node");
    reveal_strlit("type");
    reveal_strlit("payload");
    assert("error"@[0] == 'e');
    assert("node"@[0] == 'n');
    assert("type"@[0] == 't');
    assert("payload"@[0] == 'p');
    let members = envelope(error, node, msg).value->Json_0->Object_0;
    assert(members.dom() =~= set!["error"@, "node"@, "type"@, "payload"@]);
    if let ValueModel::Binary(bytes) = msg.value {
        let marker = members["payload"@]->Object_0;
        assert(marker.dom() =~= set!["byte_len"@]);
    }
}

/// Builds the message diverted to the error port: the error, the node, and the
/// original message's type and payload.
pub fn error_envelope(error: &str, node: &str, type_: &str, payload: MessageValue) -> (m: Message)
    ensures
        m@ == envelope(error@, node@, (MessageModel { type_: type_@, value: payload@ })),
{
    let payload_json = match payload {
        MessageValue::Json(v) => v,
        MessageValue::Empty => Json::Null,
        MessageValue::Binary(bytes) => {
            JsonObject::new().with("byte_len", Json::UInt(bytes.len() as u64)).build()
        },
    };
    let body = JsonObject::new().with("error", Json::Str(error.to_owned())).with(
        "node",
        Json::Str(node.to_owned()),
    ).with("type", Json::Str(type_.to_owned())).with("payload", payload_json).build();
    Message::json(ERROR_PORT, body)
}

// ── The failure policy ─────────────────────────────────────────────────────

/// One delivery on its way through the failure policy: it is handed to the
/// actor, and each outcome decides whether it is handed over again.
pub struct Handling {
    pub on_error: OnError,
    pub msg: Message,
    pub correlation: CorrelationId,
    /// How many attempts have errored so far.
    pub failed: u32,
}

/// What to do after an attempt.
pub enum Step {
    /// Wait, then hand the same message over again.
    Again { handling: Handling, delay: Option<Duration> },
    /// The handling is over.
    Done(Verdict),
}

/// How a handling ended. The letter and the envelope are passed on first; then
/// the outcome is reported on the ack, once.
pub struct Verdict {
    /// What the ack reports.
    pub outcome: Outcome,
    /// Whether the node stops.
    pub stop: bool,
    /// What to hand to the dead-letter sink.
    pub letter: Option<DeadLettered>,
    /// What to emit on the error port.
    pub envelope: Option<Message>,
    /// The delivery's own run, in which the envelope is emitted.
    pub run: CorrelationScope,
}

/// The meaning of a [`Handling`].
pub struct HandlingModel {
    pub on_error: OnError,
    pub msg: MessageModel,
    pub correlation: Seq<char>,
    pub failed: u32,
}

/// The meaning of a [`Verdict`].
pub struct VerdictModel {
    pub outcome: Outcome,
    pub stop: bool,
    pub letter: Option<LetterModel>,
    pub envelope: Option<MessageModel>,
    /// The run in which the envelope is emitted.
    pub run: Option<Seq<char>>,
}

/// The meaning of a [`Step`].
pub enum StepModel {
    Again { handling: HandlingModel, delay: Option<Duration> },
    Done(VerdictModel),
}

impl View for Handling {
    type V = HandlingModel;

    open spec fn view(&self) -> HandlingModel {
        HandlingModel {
            on_error: self.on_error,
            msg: self.msg@,
            correlation: self.correlation@,
            failed: self.failed,
        }
    }
}

impl View for Verdict {
    type V = VerdictModel;

    open spec fn view(&self) -> VerdictModel {
        VerdictModel {
            outcome: self.outcome,
            stop: self.stop,
            letter: match self.letter {
                Some(letter) => Some(letter@),
                None => None,
            },
            envelope: match self.envelope {
                Some(m) => Some(m@),
                None => None,
            },
            run: match self.run.in_scope() {
                Some(id) => Some(id@),
                None => None,
            },
        }
    }
}

impl View for Step {
    type V = StepModel;

    open spec fn view(&self) -> StepModel {
        match self {
            Step::Again { handling, delay } => StepModel::Again { handling: handling@, delay: *delay },
            Step::Done(verdict) => StepModel::Done(verdict@),
        }
    }
}

/// Verdicts that mean the same report the same, stop the same, and leave letters and
/// envelopes that mean the same.
pub proof fn verdicts_that_mean_the_same_do_the_same(a: Verdict, b: Verdict)
    requires
        a@ == b@,
    ensures
        a.outcome == b.outcome,
        a.stop == b.stop,
        a.letter is Some <==> b.letter is Some,
        a.letter is Some ==> a.letter->0@ == b.letter->0@,
        a.envelope is Some <==> b.envelope is Some,
        a.envelope is Some ==> a.envelope->0@ == b.envelope->0@,
        a.run.in_scope() is Some <==> b.run.in_scope() is Some,
{
}

/// A handling means what it holds.
pub proof fn a_handling_means_what_it_holds(handling: Handling)
    ensures
        handling@.on_error == handling.on_error,
        handling@.msg == handling.msg@,
        handling@.correlation == handling.correlation@,
        handling@.failed == handling.failed,
{
}

impl HandlingModel {
    /// Only a retry has failed attempts behind it, and never more than `max`.
    pub open spec fn wf(self) -> bool {
        match self.on_error {
            OnError::Retry { max, .. } => self.failed <= max,
            _ => self.failed == 0,
        }
    }

    /// The letter this message makes, for the given reason.
    pub open spec fn letter(self, node: Seq<char>, reason: ReasonModel) -> LetterModel {
        LetterModel { msg: self.msg, correlation: self.correlation, node, reason }
    }

    /// The failure policy: what follows when an attempt ends in `outcome`, on a
    /// node that has a dead-letter sink or has none.
    pub open spec fn after(self, outcome: Outcome, node: Seq<char>, sink: bool) -> StepModel {
        let plain = VerdictModel {
            outcome,
            stop: false,
            letter: None,
            envelope: None,
            run: Some(self.correlation),
        };
        match (self.on_error, outcome) {
            (OnError::Continue, _) => StepModel::Done(plain),
            (_, Ok(())) => StepModel::Done(plain),
            (OnError::Fail, Err(e)) => StepModel::Done(
                VerdictModel {
                    stop: true,
                    letter: if sink {
                        Some(self.letter(node, ReasonModel::Failed { error: e.text() }))
                    } else {
                        None
                    },
                    ..plain
                },
            ),
            (OnError::Retry { max, backoff }, Err(e)) => if self.failed < max {
                StepModel::Again {
                    handling: HandlingModel { failed: (self.failed + 1) as u32, ..self },
                    delay: backoff.wait_after(self.failed),
                }
            } else if sink {
                StepModel::Done(
                    VerdictModel {
                        outcome: Ok(()),
                        letter: Some(
                            self.letter(
                                node,
                                ReasonModel::RetryExhausted {
                                    attempts: (max + 1) as u32,
                                    error: e.text(),
                                },
                            ),
                        ),
                        ..plain
                    },
                )
            } else {
                StepModel::Done(plain)
            },
            (OnError::RouteToError, Err(e)) => StepModel::Done(
                VerdictModel {
                    outcome: Ok(()),
                    envelope: Some(envelope(e.text(), node, self.msg)),
                    ..plain
                },
            ),
        }
    }
}

impl Handling {
    /// A delivery that has not been handed over yet.
    pub fn begin(on_error: OnError, msg: Message, correlation: CorrelationId) -> (h: Self)
        ensures
            h == (Handling { on_error, msg, correlation, failed: 0 }),
            h@.wf(),
    {
        Handling { on_error, msg, correlation, failed: 0 }
    }

    /// The message to hand to the actor. The original stays here for a retry, a
    /// letter or an envelope.
    pub fn message(&self) -> (m: Message)
        ensures
            m@ == self.msg@,
    {
        self.msg.clone()
    }

    /// The scope an attempt runs in: whatever the actor emits inside it belongs to
    /// the delivery's own run.
    pub fn scope(&self) -> (scope: CorrelationScope)
        ensures
            scope.in_scope() == Some(self.correlation),
    {
        self.correlation.clone().scope()
    }

    /// Applies the failure policy to the outcome of an attempt.
    ///
    /// The one handling this leaves out is a retry that has failed `u32::MAX`
    /// times, whose next attempt could not be numbered.
    pub fn observe(self, outcome: Outcome, sinks: &FailureSinks<'_>) -> (step: Step)
        requires
            self@.wf(),
            self.failed < u32::MAX,
        ensures
            step@ == self@.after(outcome, sinks.node@, sinks.dead_letter),
            step matches Step::Done(verdict) ==> verdict.run.in_scope() == Some(self.correlation),
            step is Again <==> outcome is Err && (self.on_error matches OnError::Retry { max, .. }
                && self.failed < max),
            step matches Step::Again { handling, delay } ==> {
                &&& handling.on_error == self.on_error
                &&& handling.msg == self.msg
                &&& handling.correlation == self.correlation
                &&& handling.failed == self.failed + 1
                &&& handling@.wf()
                &&& self.on_error matches OnError::Retry { backoff, .. } && delay
                    == backoff.wait_after(self.failed)
            },
            step matches Step::Done(verdict) ==> {
                &&& verdict.stop <==> self.on_error is Fail && outcome is Err
                &&& verdict.outcome == (if self.on_error is RouteToError || (self.on_error is Retry
                    && sinks.dead_letter) {
                    Ok(())
                } else {
                    outcome
                })
                &&& verdict.letter is Some <==> sinks.dead_letter && outcome is Err && (
                self.on_error is Fail || self.on_error is Retry)
                &&& verdict.letter matches Some(letter) ==> {
                    &&& letter.msg == self.msg
                    &&& letter.correlation == self.correlation
                    &&& letter.node == *sinks.node
                    &&& match letter.reason {
                        DeadLetterReason::Failed { error } => self.on_error is Fail && error@
                            == outcome->Err_0.text(),
                        DeadLetterReason::RetryExhausted { attempts, error } => {
                            &&& self.on_error is Retry
                            &&& attempts == self.failed + 1
                            &&& error@ == outcome->Err_0.text()
                        },
                        _ => false,
                    }
                }
                &&& verdict.envelope is Some <==> self.on_error is RouteToError && outcome is Err
                &&& verdict.envelope matches Some(m) ==> {
                    &&& m.type_@ == "error"@
                    &&& m.value matches MessageValue::Json(body) && body@ is Object && {
                        let members = body@->Object_0;
                        &&& members.dom() == set!["error"@, "node"@, "type"@, "payload"@]
                        &&& members["error"@] == JsonModel::Str(outcome->Err_0.text())
                        &&& members["node"@] == JsonModel::Str(sinks.node@)
                        &&& members["type"@] == JsonModel::Str(self.msg.type_@)
                        &&& match self.msg.value {
                            MessageValue::Json(v) => members["payload"@] == v@,
                            MessageValue::Empty => members["payload"@] is Null,
                            MessageValue::Binary(bytes) => members["payload"@]
                                == JsonModel::Object(
                                Map::empty().insert(
                                    "byte_len"@,
                                    JsonModel::UInt(bytes@.len() as u64),
                                ),
                            ),
                        }
                    }
                }
            },
    {
        let run = self.scope();
        let Handling { on_error, msg, correlation, failed } = self;
        let e = match outcome {
            Ok(done) => {
                assert(done == ());
                return Step::Done(
                    Verdict { outcome: Ok(()), stop: false, letter: None, envelope: None, run },
                );
            },
            Err(e) => e,
        };
        match on_error {
            OnError::Continue => {
                Step::Done(
                    Verdict { outcome: Err(e), stop: false, letter: None, envelope: None, run },
                )
            },
            OnError::Fail => {
                let letter = if sinks.dead_letter {
                    let reason = DeadLetterReason::Failed { error: e.to_string() };
                    Some(DeadLettered::new(msg, correlation, sinks.node.clone(), reason))
                } else {
                    None
                };
                Step::Done(Verdict { outcome: Err(e), stop: true, letter, envelope: None, run })
            },
            OnError::Retry { max, backoff } => {
                if failed < max {
                    let delay = backoff.delay_for(failed);
                    let handling = Handling { on_error, msg, correlation, failed: failed + 1 };
                    Step::Again { handling, delay }
                } else if sinks.dead_letter {
                    let attempts: u32 = max + 1;
                    let reason = DeadLetterReason::RetryExhausted { attempts, error: e.to_string() };
                    let letter = DeadLettered::new(msg, correlation, sinks.node.clone(), reason);
                    Step::Done(
                        Verdict {
                            outcome: Ok(()),
                            stop: false,
                            letter: Some(letter),
                            envelope: None,
                            run,
                        },
                    )
                } else {
                    Step::Done(
                        Verdict { outcome: Err(e), stop: false, letter: None, envelope: None, run },
                    )
                }
            },
            OnError::RouteToError => {
                let Message { type_, value } = msg;
                let error = e.to_string();
                let m = error_envelope(error.as_str(), sinks.node.as_str(), type_.as_str(), value);
                proof {
                    an_envelope_tells_what_failed(e.text(), sinks.node@, self.msg@);
                }
                Step::Done(
                    Verdict { outcome: Ok(()), stop: false, letter: None, envelope: Some(m), run },
                )
            },
        }
    }
}

// ── Laws of the failure policy ─────────────────────────────────────────────

impl HandlingModel {
    /// The verdict of a handling whose attempts end in exactly these outcomes,
    /// one after the other; `None` where it ends sooner or goes on.
    pub open spec fn concluded(self, outcomes: Seq<Outcome>, node: Seq<char>, sink: bool) -> Option<
        VerdictModel,
    >
        decreases outcomes.len(),
    {
        if outcomes.len() == 0 {
            None
        } else {
            match self.after(outcomes[0], node, sink) {
                StepModel::Done(verdict) => if outcomes.len() == 1 {
                    Some(verdict)
                } else {
                    None
                },
                StepModel::Again { handling, .. } => handling.concluded(
                    outcomes.skip(1),
                    node,
                    sink,
                ),
            }
        }
    }

    /// How many more attempts the policy allows.
    pub open spec fn budget(self) -> nat {
        match self.on_error {
            OnError::Retry { max, .. } => (max - self.failed + 1) as nat,
            _ => 1,
        }
    }
}

/// A fresh handling is attempted once, or up to `max + 1` times under a retry
/// policy, and always ends: among any `budget` outcomes there is a first few
/// that conclude it.
pub proof fn a_handling_ends_within_its_budget(
    handling: HandlingModel,
    outcomes: Seq<Outcome>,
    node: Seq<char>,
    sink: bool,
)
    requires
        handling.wf(),
        outcomes.len() == handling.budget(),
    ensures
        exists|n: int|
            1 <= n <= outcomes.len() && (#[trigger] handling.concluded(
                outcomes.take(n),
                node,
                sink,
            )) is Some,
    decreases handling.budget(),
{
    match handling.after(outcomes[0], node, sink) {
        StepModel::Done(_) => {
            assert(outcomes.take(1)[0] == outcomes[0]);
            assert(handling.concluded(outcomes.take(1), node, sink) is Some);
        },
        StepModel::Again { handling: next, .. } => {
            let rest = outcomes.skip(1);
            a_handling_ends_within_its_budget(next, rest, node, sink);
            let n = choose|n: int|
                1 <= n <= rest.len() && (#[trigger] next.concluded(rest.take(n), node, sink))
                    is Some;
            assert(outcomes.take(n + 1).skip(1) =~= rest.take(n));
            assert(outcomes.take(n + 1)[0] == outcomes[0]);
            assert(handling.concluded(outcomes.take(n + 1), node, sink) is Some);
        },
    }
}

/// A concluded handling was attempted at least once and never beyond its
/// budget; every attempt but the last one errored.
pub proof fn attempts_stay_within_the_budget(
    handling: HandlingModel,
    outcomes: Seq<Outcome>,
    node: Seq<char>,
    sink: bool,
)
    requires
        handling.wf(),
        handling.concluded(outcomes, node, sink) is Some,
    ensures
        1 <= outcomes.len() <= handling.budget(),
        forall|i: int| 0 <= i < outcomes.len() - 1 ==> (#[trigger] outcomes[i]) is Err,
    decreases outcomes.len(),
{
    match handling.after(outcomes[0], node, sink) {
        StepModel::Done(_) => {},
        StepModel::Again { handling: next, .. } => {
            let rest = outcomes.skip(1);
            attempts_stay_within_the_budget(next, rest, node, sink);
            assert forall|i: int| 0 <= i < outcomes.len() - 1 implies (#[trigger] outcomes[i])
                is Err by {
                if i > 0 {
                    assert(outcomes[i] == rest[i - 1]);
                }
            }
        },
    }
}

/// The verdict of a handling is the one that its last outcome gives, after the
/// failures before it.
proof fn the_last_outcome_decides(
    handling: HandlingModel,
    outcomes: Seq<Outcome>,
    node: Seq<char>,
    sink: bool,
)
    requires
        handling.wf(),
        handling.concluded(outcomes, node, sink) is Some,
    ensures
        outcomes.len() >= 1,
        handling.failed + outcomes.len() - 1 <= u32::MAX,
        ({
            let last = HandlingModel {
                failed: (handling.failed + outcomes.len() - 1) as u32,
                ..handling
            };
            &&& last.wf()
            &&& last.after(outcomes.last(), node, sink) == StepModel::Done(
                handling.concluded(outcomes, node, sink)->0,
            )
        }),
    decreases outcomes.len(),
{
    match handling.after(outcomes[0], node, sink) {
        StepModel::Done(_) => {},
        StepModel::Again { handling: next, .. } => {
            let rest = outcomes.skip(1);
            the_last_outcome_decides(next, rest, node, sink);
            assert(rest.last() == outcomes.last());
            assert(next.failed + rest.len() - 1 == handling.failed + outcomes.len() - 1);
        },
    }
}

/// While retries are left, an errored attempt is always followed by another one, of
/// the same message in the same run, counted as one more failure and after the wait
/// that its number of failures calls for.
pub proof fn an_error_with_retries_left_is_tried_again(
    handling: HandlingModel,
    max: u32,
    backoff: Backoff,
    e: ActorError,
    node: Seq<char>,
    sink: bool,
)
    requires
        handling.on_error == (OnError::Retry { max, backoff }),
        handling.failed < max,
    ensures
        handling.after(Err(e), node, sink) matches StepModel::Again { handling: next, delay } && {
            &&& next.on_error == handling.on_error
            &&& next.msg == handling.msg
            &&& next.correlation == handling.correlation
            &&& next.failed == handling.failed + 1
            &&& delay == backoff.wait_after(handling.failed)
        },
{
}

/// Errors within the budget of a retry do not end it, and the first success does.
proof fn errors_within_the_budget_go_on(
    handling: HandlingModel,
    errors: Seq<Outcome>,
    node: Seq<char>,
    sink: bool,
)
    requires
        handling.on_error matches OnError::Retry { max, .. } && handling.failed + errors.len()
            <= max,
        forall|i: int| 0 <= i < errors.len() ==> (#[trigger] errors[i]) is Err,
    ensures
        handling.concluded(errors, node, sink) is None,
        handling.concluded(errors.push(Ok(())), node, sink) matches Some(verdict) && {
            &&& verdict.outcome is Ok
            &&& !verdict.stop
            &&& verdict.letter is None
            &&& verdict.envelope is None
        },
    decreases errors.len(),
{
    let all = errors.push(Ok(()));
    if errors.len() > 0 {
        assert(errors[0] is Err);
        let rest = errors.skip(1);
        let next = HandlingModel { failed: (handling.failed + 1) as u32, ..handling };
        assert forall|i: int| 0 <= i < rest.len() implies (#[trigger] rest[i]) is Err by {
            assert(rest[i] == errors[i + 1]);
        }
        errors_within_the_budget_go_on(next, rest, node, sink);
        assert(all[0] == errors[0]);
        assert(all.skip(1) =~= rest.push(Ok(())));
    }
}

/// Under a retry policy of `max`, a message that errors up to `max` times is handed
/// over once more, and if it is then handled the ack reports success and nothing is
/// preserved or diverted.
pub proof fn a_success_within_the_retries_counts(
    handling: HandlingModel,
    errors: Seq<Outcome>,
    node: Seq<char>,
    sink: bool,
)
    requires
        handling.failed == 0,
        handling.on_error matches OnError::Retry { max, .. } && errors.len() <= max,
        forall|i: int| 0 <= i < errors.len() ==> (#[trigger] errors[i]) is Err,
    ensures
        handling.concluded(errors, node, sink) is None,
        handling.concluded(errors.push(Ok(())), node, sink) matches Some(verdict) && {
            &&& verdict.outcome is Ok
            &&& !verdict.stop
            &&& verdict.letter is None
            &&& verdict.envelope is None
        },
{
    errors_within_the_budget_go_on(handling, errors, node, sink);
}

/// Under a retry policy of `max`, a fresh handling ends in an error only once all of
/// its `max + 1` attempts have errored. With a sink the letter says so many.
pub proof fn a_retry_gives_up_only_after_its_last_attempt(
    handling: HandlingModel,
    outcomes: Seq<Outcome>,
    node: Seq<char>,
    sink: bool,
)
    requires
        handling.failed == 0,
        handling.on_error is Retry,
        handling.concluded(outcomes, node, sink) is Some,
        outcomes.last() is Err,
    ensures
        handling.on_error matches OnError::Retry { max, .. } && outcomes.len() == max + 1,
        forall|i: int| 0 <= i < outcomes.len() ==> (#[trigger] outcomes[i]) is Err,
        handling.concluded(outcomes, node, sink)->0.letter matches Some(letter) ==> (
        letter.reason matches ReasonModel::RetryExhausted { attempts, .. } && (outcomes.len()
            <= u32::MAX ==> attempts == outcomes.len())),
{
    the_last_outcome_decides(handling, outcomes, node, sink);
    attempts_stay_within_the_budget(handling, outcomes, node, sink);
    assert(outcomes[outcomes.len() - 1] == outcomes.last());
}

/// Without a retry policy a message is handed over once, whatever comes of it.
pub proof fn without_a_retry_one_attempt_is_all(
    handling: HandlingModel,
    outcome: Outcome,
    node: Seq<char>,
    sink: bool,
)
    requires
        !(handling.on_error is Retry),
    ensures
        handling.after(outcome, node, sink) is Done,
{
}

/// What an attempt comes to. A handled message is reported as it is, under every
/// policy. Under those that make only one attempt, an error is reported and the node goes on, or it
/// is reported and the node stops, or it is diverted and success is reported.
pub proof fn each_policy_has_its_own_way_with_an_error(
    handling: HandlingModel,
    e: ActorError,
    node: Seq<char>,
    sink: bool,
)
    ensures
        handling.after(Ok(()), node, sink) matches StepModel::Done(verdict) && verdict.outcome is Ok
            && !verdict.stop && verdict.letter is None && verdict.envelope is None,
        handling.on_error is Continue ==> (handling.after(
            Err(e),
            node,
            sink,
        ) matches StepModel::Done(verdict) && verdict.outcome == Err::<(), _>(e) && !verdict.stop
            && verdict.letter is None && verdict.envelope is None),
        handling.on_error is Fail ==> (handling.after(Err(e), node, sink) matches StepModel::Done(
            verdict,
        ) && verdict.outcome == Err::<(), _>(e) && verdict.stop && verdict.envelope is None
            && (verdict.letter is Some <==> sink)),
        handling.on_error is RouteToError ==> (handling.after(
            Err(e),
            node,
            sink,
        ) matches StepModel::Done(verdict) && verdict.outcome is Ok && !verdict.stop
            && verdict.letter is None && verdict.envelope is Some),
{
}

/// The rule behind every ack. Where the node survives and the runtime has taken
/// responsibility for an errored message, by a dead letter or an error
/// envelope, the ack reports success, so that no feeder hands it over again.
/// Where the node dies, or nothing took the message, the ack reports what the
/// actor answered last.
pub proof fn survive_and_quarantine_reports_success_and_nothing_else_does(
    handling: HandlingModel,
    outcomes: Seq<Outcome>,
    node: Seq<char>,
    sink: bool,
)
    requires
        handling.wf(),
        handling.concluded(outcomes, node, sink) is Some,
    ensures
        ({
            let verdict = handling.concluded(outcomes, node, sink)->0;
            let taken = verdict.letter is Some || verdict.envelope is Some;
            &&& (taken && !verdict.stop) ==> verdict.outcome is Ok
            &&& !(taken && !verdict.stop) ==> verdict.outcome == outcomes.last()
            &&& taken ==> outcomes.last() is Err
        }),
{
    the_last_outcome_decides(handling, outcomes, node, sink);
}

/// A node stops exactly when its policy is to fail and the message errored; it
/// then reports the error.
pub proof fn only_a_failing_policy_stops_the_node(
    handling: HandlingModel,
    outcomes: Seq<Outcome>,
    node: Seq<char>,
    sink: bool,
)
    requires
        handling.wf(),
        handling.concluded(outcomes, node, sink) is Some,
    ensures
        ({
            let verdict = handling.concluded(outcomes, node, sink)->0;
            &&& verdict.stop <==> handling.on_error is Fail && outcomes.last() is Err
            &&& verdict.stop ==> verdict.outcome is Err
        }),
{
    the_last_outcome_decides(handling, outcomes, node, sink);
}

/// With a dead-letter sink, an exhausted retry and a failing stop are
/// preserved: the letter carries the original message and its run, names the
/// node, and says how often the message was handed over. Without a sink there
/// is no letter.
pub proof fn a_letter_preserves_the_message(
    handling: HandlingModel,
    outcomes: Seq<Outcome>,
    node: Seq<char>,
    sink: bool,
)
    requires
        handling.wf(),
        handling.failed == 0,
        handling.concluded(outcomes, node, sink) is Some,
    ensures
        ({
            let verdict = handling.concluded(outcomes, node, sink)->0;
            let last = outcomes.last();
            &&& verdict.letter is Some <==> sink && last is Err && (handling.on_error is Fail
                || handling.on_error is Retry)
            &&& verdict.letter matches Some(letter) ==> {
                &&& letter.msg == handling.msg
                &&& letter.correlation == handling.correlation
                &&& letter.node == node
                &&& letter.reason == (if handling.on_error is Fail {
                    ReasonModel::Failed { error: last->Err_0.text() }
                } else {
                    ReasonModel::RetryExhausted {
                        attempts: outcomes.len() as u32,
                        error: last->Err_0.text(),
                    }
                })
            }
        }),
{
    the_last_outcome_decides(handling, outcomes, node, sink);
}

/// Under the error port, an errored message is diverted as one envelope that
/// carries its error, its node, its type and its payload, and that is emitted in
/// the message's own run; a handled one emits nothing.
pub proof fn the_error_port_gets_the_message(
    handling: HandlingModel,
    outcomes: Seq<Outcome>,
    node: Seq<char>,
    sink: bool,
)
    requires
        handling.wf(),
        handling.concluded(outcomes, node, sink) is Some,
    ensures
        handling.concluded(outcomes, node, sink)->0.envelope == (if handling.on_error
            is RouteToError && outcomes.last() is Err {
            Some(envelope(outcomes.last()->Err_0.text(), node, handling.msg))
        } else {
            None
        }),
        handling.concluded(outcomes, node, sink)->0.run == Some(handling.correlation),
{
    the_last_outcome_decides(handling, outcomes, node, sink);
}

// ── The context of a handling ──────────────────────────────────────────────

/// The source of task numbers, one per handling.
pub struct TaskIds {
    next: u64,
}

impl TaskIds {
    /// The number the next handling gets.
    pub closed spec fn upcoming(&self) -> u64 {
        self.next
    }

    /// A source that has numbered nothing yet; the first number is 1.
    pub fn new() -> (ids: Self)
        ensures
            ids.upcoming() == 1,
    {
        TaskIds { next: 1 }
    }
}

/// The number of the next handling.
pub fn next_task_id(ids: &mut TaskIds) -> (id: u64)
    ensures
        id == old(ids).upcoming(),
        final(ids).upcoming() == bumped(old(ids).upcoming()),
{
    let id: u64 = ids.next;
    ids.next = id.wrapping_add(1);
    id
}

/// The number of the handling that comes `k` handlings after number `first`.
pub open spec fn task_number(first: u64, k: nat) -> u64 {
    counted_on(first, k)
}

/// No two handlings share a number, nor the label a guest sees: those of any two
/// handlings of a source differ, until it has gone through all its numbers.
pub proof fn no_two_handlings_share_a_number(first: u64, i: nat, j: nat)
    requires
        i < j,
        j - i <= u64::MAX,
    ensures
        task_number(first, i) != task_number(first, j),
        label(task_number(first, i)) != label(task_number(first, j)),
{
    let (a, b) = (task_number(first, i), task_number(first, j));
    a_counter_repeats_only_after_a_full_round(first, i, j);
    if label(a) == label(b) {
        let prefix = "task-"@.len() as int;
        assert(label(a).skip(prefix) =~= decimal(a as nat));
        assert(label(b).skip(prefix) =~= decimal(b as nat));
        decimal_is_injective(a as nat, b as nat);
    }
}

/// The context one attempt runs in: the node stays the one the actor was set up
/// as, the execution is the run the message belongs to, and the task is this
/// attempt.
pub fn attempt_context(
    base: &ActorContext,
    correlation: &CorrelationId,
    ids: &mut TaskIds,
) -> (ctx: ActorContext)
    ensures
        ctx.node_id == base.node_id,
        (*ctx.execution_id)@ == correlation@,
        ctx.task_id == old(ids).upcoming(),
        final(ids).upcoming() == bumped(old(ids).upcoming()),
{
    ActorContext {
        execution_id: correlation.as_arc(),
        node_id: Arc::clone(&base.node_id),
        task_id: next_task_id(ids),
    }
}

} // verus!
