//! Deliveries: a message plus the ack that reports how handling it went.

use crate::actor::{ActorError, Message};
use crate::correlation::{minted, CorrelationId, CorrelationIds, CorrelationScope};
use crate::counter::bumped;
use std::sync::{Arc, Mutex};
use tokio::sync::oneshot;
use tracing::Span;
use vstd::prelude::*;

verus! {

/// The outcome of handling one message, reported once per delivery.
pub type Outcome = Result<(), ActorError>;

/// `std::sync::Mutex`, carried but never locked here.
#[verifier::external_type_specification]
#[verifier::external_body]
#[verifier::reject_recursive_types(T)]
pub struct ExMutex<T: ?Sized>(std::sync::Mutex<T>);

/// The sending half of `tokio`'s one-shot channel.
#[verifier::external_type_specification]
#[verifier::external_body]
#[verifier::reject_recursive_types(T)]
pub struct ExOneshotSender<T>(tokio::sync::oneshot::Sender<T>);

/// A trace span of `tracing`.
#[verifier::external_type_specification]
#[verifier::external_body]
pub struct ExSpan(tracing::Span);

/// Health counters for a mailbox or a node.
///
/// `handled` and `errored` count messages. `died` counts the times the node's
/// task exited unexpectedly and for good; `crashed` the times it panicked and
/// was caught by its supervisor; `poisoned` the deliveries that were
/// quarantined with no sink to preserve them. The five are kept apart, so that a
/// death or a quarantine never reads as one more errored message.
#[derive(Debug)]
pub struct Health {
    handled: u64,
    errored: u64,
    died: u64,
    poisoned: u64,
    crashed: u64,
}

/// What [`Health`] has counted.
pub struct Counts {
    pub handled: u64,
    pub errored: u64,
    pub died: u64,
    pub poisoned: u64,
    pub crashed: u64,
}

impl Counts {
    /// Nothing counted yet.
    pub open spec fn zero() -> Counts {
        Counts { handled: 0, errored: 0, died: 0, poisoned: 0, crashed: 0 }
    }

    /// One more message handled, with this outcome.
    pub open spec fn with_outcome(self, outcome: Outcome) -> Counts {
        Counts {
            handled: bumped(self.handled),
            errored: if outcome is Err {
                bumped(self.errored)
            } else {
                self.errored
            },
            ..self
        }
    }

    /// One more death.
    pub open spec fn with_death(self) -> Counts {
        Counts { died: bumped(self.died), ..self }
    }

    /// One more quarantined delivery.
    pub open spec fn with_poison(self) -> Counts {
        Counts { poisoned: bumped(self.poisoned), ..self }
    }

    /// One more caught crash.
    pub open spec fn with_crash(self) -> Counts {
        Counts { crashed: bumped(self.crashed), ..self }
    }
}

/// The five counters are kept apart: handling a message never reads as a death,
/// a quarantine or a crash, and none of those reads as a handled message or as
/// one of the others.
pub proof fn the_counters_are_kept_apart(counts: Counts, outcome: Outcome)
    ensures
        ({
            let after = counts.with_outcome(outcome);
            &&& after.died == counts.died
            &&& after.poisoned == counts.poisoned
            &&& after.crashed == counts.crashed
        }),
        counts.with_death() == (Counts { died: bumped(counts.died), ..counts }),
        counts.with_poison() == (Counts { poisoned: bumped(counts.poisoned), ..counts }),
        counts.with_crash() == (Counts { crashed: bumped(counts.crashed), ..counts }),
{
}

/// Every message counts as handled once, and as errored once exactly where its
/// outcome is an error; so do a death, a quarantine and a crash, each on its own
/// counter. Past its largest value a counter starts again at 0.
pub proof fn every_event_counts_once(counts: Counts, outcome: Outcome)
    ensures
        counts.handled < u64::MAX ==> counts.with_outcome(outcome).handled == counts.handled + 1,
        counts.handled == u64::MAX ==> counts.with_outcome(outcome).handled == 0,
        outcome is Ok ==> counts.with_outcome(outcome).errored == counts.errored,
        outcome is Err && counts.errored < u64::MAX ==> counts.with_outcome(outcome).errored
            == counts.errored + 1,
        counts.died < u64::MAX ==> counts.with_death().died == counts.died + 1,
        counts.poisoned < u64::MAX ==> counts.with_poison().poisoned == counts.poisoned + 1,
        counts.crashed < u64::MAX ==> counts.with_crash().crashed == counts.crashed + 1,
        Counts::zero().handled == 0 && Counts::zero().errored == 0 && Counts::zero().died == 0
            && Counts::zero().poisoned == 0 && Counts::zero().crashed == 0,
{
}

impl View for Health {
    type V = Counts;

    closed spec fn view(&self) -> Counts {
        Counts {
            handled: self.handled,
            errored: self.errored,
            died: self.died,
            poisoned: self.poisoned,
            crashed: self.crashed,
        }
    }
}

impl Default for Health {
    fn default() -> (h: Self)
        ensures
            h@ == Counts::zero(),
    {
        Health { handled: 0, errored: 0, died: 0, poisoned: 0, crashed: 0 }
    }
}

impl Health {
    /// Records one handled outcome.
    pub fn record(&mut self, outcome: &Outcome)
        ensures
            final(self)@ == old(self)@.with_outcome(*outcome),
    {
        self.handled = self.handled.wrapping_add(1);
        if outcome.is_err() {
            self.errored = self.errored.wrapping_add(1);
        }
    }

    /// Records that the node's task exited unexpectedly, for good.
    pub fn record_death(&mut self)
        ensures
            final(self)@ == old(self)@.with_death(),
    {
        self.died = self.died.wrapping_add(1);
    }

    /// Records that one delivery was quarantined and dropped.
    pub fn record_poison(&mut self)
        ensures
            final(self)@ == old(self)@.with_poison(),
    {
        self.poisoned = self.poisoned.wrapping_add(1);
    }

    /// Records that a handling panicked and was caught.
    pub fn record_crash(&mut self)
        ensures
            final(self)@ == old(self)@.with_crash(),
    {
        self.crashed = self.crashed.wrapping_add(1);
    }

    /// How many messages were handled, with either outcome.
    pub fn handled(&self) -> (n: u64)
        ensures
            n == self@.handled,
    {
        self.handled
    }

    /// How many messages were handled with an error.
    pub fn errored(&self) -> (n: u64)
        ensures
            n == self@.errored,
    {
        self.errored
    }

    /// How often the node's task exited unexpectedly. A normal stop is no death.
    pub fn died(&self) -> (n: u64)
        ensures
            n == self@.died,
    {
        self.died
    }

    /// How many deliveries were quarantined and dropped.
    pub fn poisoned(&self) -> (n: u64)
        ensures
            n == self@.poisoned,
    {
        self.poisoned
    }

    /// How many handlings panicked and were caught.
    pub fn crashed(&self) -> (n: u64)
        ensures
            n == self@.crashed,
    {
        self.crashed
    }
}

/// Counters shared between a node's mailbox handles, its supervisor and the
/// acks of its deliveries. Whoever holds one locks it to count.
pub type SharedHealth = Arc<Mutex<Health>>;

/// Where the outcome of handling a delivery goes. Every delivery carries one.
pub enum Ack {
    /// At most once: fold the outcome into shared health counters.
    Health(SharedHealth),
    /// At least once: send the outcome back to the feeder. If this is dropped
    /// without reporting, the feeder observes a closed channel and retries.
    Complete(oneshot::Sender<Outcome>),
}

/// An outcome still to be counted, and the counters it belongs to.
pub struct Tally {
    pub health: SharedHealth,
    pub outcome: Outcome,
}

impl Tally {
    /// Counts the outcome on the counters, which the caller has locked.
    pub fn count(self, health: &mut Health)
        ensures
            final(health)@ == old(health)@.with_outcome(self.outcome),
    {
        health.record(&self.outcome);
    }
}

/// Sends the outcome by `oneshot::Sender::send`. Where the receiver is already
/// gone the outcome comes back unsent. Nothing is said of what the receiver
/// sees: it lives on another task.
#[verifier::external_body]
fn send_outcome(tx: oneshot::Sender<Outcome>, outcome: Outcome) -> (sent: Result<(), Outcome>)
    ensures
        sent matches Err(unsent) ==> unsent == outcome,
{
    tx.send(outcome)
}

/// Whether this outcome was put on the feeder's channel.
pub closed spec fn was_sent(tx: oneshot::Sender<Outcome>, outcome: Outcome) -> bool {
    exists|sent: Result<(), Outcome>| call_ensures(send_outcome, (tx, outcome), sent)
}

/// An outcome that was sent was handed to the feeder's channel, as it was.
proof fn what_was_sent_was_handed_to_the_channel(tx: oneshot::Sender<Outcome>, outcome: Outcome)
    requires
        was_sent(tx, outcome),
    ensures
        exists|sent: Result<(), Outcome>| call_ensures(send_outcome, (tx, outcome), sent),
{
}

impl Ack {
    /// Reports the outcome. Consumes the ack: it fires once. A health ack hands
    /// back the tally to count; a completion is sent here and leaves nothing to
    /// do, whether or not the feeder was still listening.
    #[must_use]
    pub fn report(self, outcome: Outcome) -> (owed: Option<Tally>)
        ensures
            owed == (match self {
                Ack::Health(health) => Some(Tally { health, outcome }),
                Ack::Complete(_) => None,
            }),
            self matches Ack::Complete(tx) ==> was_sent(tx, outcome),
    {
        match self {
            Ack::Health(health) => Some(Tally { health, outcome }),
            Ack::Complete(tx) => {
                let _sent = send_outcome(tx, outcome);
                None
            },
        }
    }
}

/// The span in effect on this thread, by `Span::current`. Which span that is
/// depends on where the call is made, so nothing is said of it.
#[verifier::external_body]
fn current_span() -> (span: Span) {
    Span::current()
}

/// Whether this was the span in effect when it was asked for.
pub closed spec fn was_current(span: Span) -> bool {
    call_ensures(current_span, (), span)
}

/// The span of a delivery is the one that was asked for.
proof fn what_was_current_was_asked_for(span: Span)
    requires
        was_current(span),
    ensures
        call_ensures(current_span, (), span),
{
}

/// A message plus the ack that reports how handling it went: what flows through
/// a mailbox into an actor. It also carries the trace span in effect where it
/// was made, and the run it belongs to.
pub struct Delivery {
    pub msg: Message,
    pub ack: Ack,
    /// The parent of the receiver's handle span.
    pub span: Span,
    /// The run this message belongs to.
    pub correlation: CorrelationId,
    /// How many times this same delivery has been handed to a node: 1 for a
    /// first delivery, more for a feeder's re-delivery.
    pub attempts: u32,
}

impl Delivery {
    /// A delivery that belongs to the run in scope, or to a fresh run where none
    /// is in scope, so that a delivery always names a run.
    pub fn new(msg: Message, ack: Ack, scope: &CorrelationScope, ids: &mut CorrelationIds) -> (d:
        Self)
        ensures
            d.msg == msg,
            d.ack == ack,
            was_current(d.span),
            d.attempts == 1,
            match scope.in_scope() {
                Some(current) => d.correlation == current
                    && final(ids).upcoming() == old(ids).upcoming(),
                None => d.correlation@ == minted(old(ids).upcoming()) && final(ids).upcoming()
                    == bumped(old(ids).upcoming()),
            },
    {
        let correlation = match CorrelationId::current(scope) {
            Some(current) => current,
            None => CorrelationId::new(ids),
        };
        Delivery::with_correlation(msg, ack, correlation)
    }

    /// A delivery that belongs to the given run.
    pub fn with_correlation(msg: Message, ack: Ack, correlation: CorrelationId) -> (d: Self)
        ensures
            d.msg == msg,
            d.ack == ack,
            was_current(d.span),
            d.correlation == correlation,
            d.attempts == 1,
    {
        Delivery { msg, ack, span: current_span(), correlation, attempts: 1 }
    }

    /// The same delivery with its attempt count set. A count of 0 is taken as 1:
    /// a delivery always counts as at least one attempt.
    pub fn with_attempts(self, attempts: u32) -> (d: Self)
        ensures
            d == (Delivery {
                attempts: if attempts == 0 {
                    1
                } else {
                    attempts
                },
                ..self
            }),
    {
        let mut d = self;
        d.attempts = if attempts == 0 {
            1
        } else {
            attempts
        };
        d
    }
}

} // verus!
