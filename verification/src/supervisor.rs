//! Node lifecycles: the receive loop of one incarnation, and the supervisor that
//! rebuilds a crashed node until its restart budget is spent.
//!
//! A node with no restart budget runs on the lean loop and dies of its first
//! crash. A node with a budget is rebuilt on its surviving mailbox. A crash
//! charges the budget when it is attributed to the node: a first delivery that
//! panics may mean a sick node, while a re-delivery that panics again is the
//! message's doing. Sparing the budget for re-deliveries is only sound while
//! quarantine is on, since nothing else would end the re-deliveries.

use crate::actor::{ActorId, FailurePolicy, RestartPolicy};
use crate::counter::bumped;
use crate::dead_letter::{DeadLetterReason, DeadLettered, LetterModel, ReasonModel};
use crate::delivery::{Delivery, Health, SharedHealth};
use crate::mailbox::{drained, was_upgraded, MailboxRx, MailboxTx, WeakMailboxTx};
use crate::policy::{
    counts_past_gate, diverted, poison_check, poisonous, FailureSinks, Gate, Quarantine,
};
use crate::registry::{ActorHandle, ActorRegistry, HandleModel};
use core::time::Duration;
use std::sync::atomic::AtomicBool;
use std::sync::Arc;
use vstd::prelude::*;

verus! {

// ── Manual restarts ────────────────────────────────────────────────────────

/// What the host and a node's supervisor tell each other about manual restarts.
/// The host shares it between the two and wakes the supervisor after a request.
#[derive(Debug)]
pub struct RestartControl {
    force: bool,
    parked_dead: bool,
}

impl RestartControl {
    /// Whether a rebuild of the live node has been asked for.
    pub closed spec fn forced(&self) -> bool {
        self.force
    }

    /// Whether the node is parked dead.
    pub closed spec fn dead(&self) -> bool {
        self.parked_dead
    }

    pub fn new() -> (c: Self)
        ensures
            !c.forced(),
            !c.dead(),
    {
        RestartControl { force: false, parked_dead: false }
    }

    /// Whether the node has spent its budget and waits to be revived. A live
    /// node answers `false`.
    pub fn is_dead(&self) -> (b: bool)
        ensures
            b == self.dead(),
    {
        self.parked_dead
    }

    /// Asks for a restart. With `force`, a live node is torn down and rebuilt;
    /// without it, only a dead one is revived.
    pub fn request_restart(&mut self, force: bool)
        ensures
            final(self).forced() == (old(self).forced() || force),
            final(self).dead() == old(self).dead(),
    {
        if force {
            self.force = true;
        }
    }

    /// Takes up a pending request to rebuild a live node.
    fn take_force(&mut self) -> (b: bool)
        ensures
            b == old(self).forced(),
            !final(self).forced(),
            final(self).dead() == old(self).dead(),
    {
        let b = self.force;
        self.force = false;
        b
    }
}

// ── The receive loop of an incarnation ─────────────────────────────────────

/// Why an incarnation ended.
#[derive(Debug, Clone, Copy, PartialEq, Eq, Structural)]
pub enum Incarnation {
    /// A handling panicked, on a delivery handed over this often.
    Panicked { attempts: u32 },
    /// Every sender vanished without an intentional stop, while the runtime was
    /// still up.
    Abandoned,
    /// The failure policy stopped the node on an error.
    Stopped,
    /// The mailbox closed after an intentional stop, or because the whole runtime
    /// was dropped.
    Shutdown,
    /// The actor could not be built or set up.
    BuildFailed,
    /// A manual restart asked to rebuild the live node.
    ForceRestart,
}

/// What happened to a serving incarnation.
pub enum Event {
    /// The loop is about to wait for work.
    Turn,
    /// A delivery arrived.
    Received(Delivery),
    /// Every sender is gone.
    Closed,
    /// A handling ended, and the policy says whether to stop.
    Handled { stop: bool },
    /// A handling panicked, on a delivery handed over this often.
    Panicked { attempts: u32 },
    /// A restart request woke the loop.
    Woken,
}

/// What a serving incarnation does next.
pub enum Action {
    /// Wait for a delivery or a restart request.
    Wait,
    /// Hand the delivery to the actor, under the failure policy.
    Handle(Delivery),
    /// Pass the letter on and settle the ack; the actor never sees the message.
    Divert(Quarantine),
    /// Go on with the next turn.
    NextTurn,
    /// End the incarnation, after tearing the actor down where that is said. A
    /// panicked actor is discarded as it is.
    End { incarnation: Incarnation, teardown: bool },
}

/// Whether a pending request to rebuild the node is taken up on this event.
pub open spec fn taken_up(event: Event, forced: bool) -> bool {
    forced && (event is Turn || event is Woken)
}

/// Whether a request to rebuild the node is still pending after this event.
pub open spec fn still_forced(event: Event, forced: bool) -> bool {
    forced && !taken_up(event, forced)
}

/// How an incarnation ends whose mailbox has closed: cleanly after an intentional
/// stop and where the whole runtime is gone, and by a crash otherwise.
pub open spec fn closed_end(stopping: bool, runtime_up: bool) -> Incarnation {
    if stopping || !runtime_up {
        Incarnation::Shutdown
    } else {
        Incarnation::Abandoned
    }
}

/// One step of the receive loop of an incarnation.
///
/// A pending request to rebuild is acted on at the start of every turn, so that
/// it is honoured within one message even under load. A panic is counted on the
/// node's health: the message it lost would otherwise vanish unseen.
pub fn run_incarnation(
    event: Event,
    stopping: bool,
    runtime_up: bool,
    poison_after: u32,
    sinks: &FailureSinks<'_>,
    control: &mut RestartControl,
    health: &mut Health,
) -> (action: Action)
    ensures
        final(control).dead() == old(control).dead(),
        final(control).forced() == still_forced(event, old(control).forced()),
        match event {
            Event::Turn => {
                &&& final(health)@ == old(health)@
                &&& action == (if taken_up(event, old(control).forced()) {
                    Action::End { incarnation: Incarnation::ForceRestart, teardown: true }
                } else {
                    Action::Wait
                })
            },
            Event::Woken => {
                &&& final(health)@ == old(health)@
                &&& action == (if taken_up(event, old(control).forced()) {
                    Action::End { incarnation: Incarnation::ForceRestart, teardown: true }
                } else {
                    Action::NextTurn
                })
            },
            Event::Received(delivery) => {
                &&& final(health)@ == counts_past_gate(old(health)@, delivery, poison_after, *sinks)
                &&& if poisonous(delivery.attempts, poison_after) {
                    action matches Action::Divert(q) && diverted(delivery, *sinks, q)
                } else {
                    action == Action::Handle(delivery)
                }
            },
            Event::Closed => {
                &&& final(health)@ == old(health)@
                &&& action == (Action::End {
                    incarnation: closed_end(stopping, runtime_up),
                    teardown: true,
                })
            },
            Event::Handled { stop } => {
                &&& final(health)@ == old(health)@
                &&& action == (if stop {
                    Action::End { incarnation: Incarnation::Stopped, teardown: true }
                } else {
                    Action::NextTurn
                })
            },
            Event::Panicked { attempts } => {
                &&& final(health)@ == old(health)@.with_crash()
                &&& action == (Action::End {
                    incarnation: Incarnation::Panicked { attempts },
                    teardown: false,
                })
            },
        },
        // A request to rebuild is taken up at the start of a turn or on being woken
        // for it, and at no other time.
        final(control).forced() <==> old(control).forced() && !(event is Turn || event is Woken),
        event is Turn || event is Woken ==> (action matches Action::End { incarnation, teardown }
            && incarnation is ForceRestart && teardown <==> old(control).forced()),
        event matches Event::Received(delivery) ==> {
            &&& action is Divert <==> 0 < poison_after < delivery.attempts
            &&& action is Handle <==> !(0 < poison_after < delivery.attempts)
            &&& action matches Action::Handle(handed) ==> handed == delivery
            &&& action matches Action::Divert(q) ==> {
                &&& q.ack == delivery.ack
                &&& q.letter is Some <==> sinks.dead_letter
                &&& q.letter matches Some(letter) ==> letter.msg == delivery.msg
                    && letter.correlation == delivery.correlation && letter.node == *sinks.node
            }
        },
        event is Closed ==> (action matches Action::End { incarnation, teardown } && teardown && (
        incarnation == if stopping || !runtime_up {
            Incarnation::Shutdown
        } else {
            Incarnation::Abandoned
        })),
        final(health)@.handled == old(health)@.handled,
        final(health)@.errored == old(health)@.errored,
        final(health)@.died == old(health)@.died,
        final(health)@.crashed == (if event is Panicked {
            bumped(old(health)@.crashed)
        } else {
            old(health)@.crashed
        }),
{
    match event {
        Event::Turn => {
            if control.take_force() {
                Action::End { incarnation: Incarnation::ForceRestart, teardown: true }
            } else {
                Action::Wait
            }
        },
        Event::Woken => {
            if control.take_force() {
                Action::End { incarnation: Incarnation::ForceRestart, teardown: true }
            } else {
                Action::NextTurn
            }
        },
        Event::Received(delivery) => {
            match poison_check(delivery, poison_after, sinks, health) {
                Gate::Handle(delivery) => Action::Handle(delivery),
                Gate::Quarantined(quarantine) => Action::Divert(quarantine),
            }
        },
        Event::Closed => {
            let incarnation = if stopping || !runtime_up {
                Incarnation::Shutdown
            } else {
                Incarnation::Abandoned
            };
            Action::End { incarnation, teardown: true }
        },
        Event::Handled { stop } => {
            if stop {
                Action::End { incarnation: Incarnation::Stopped, teardown: true }
            } else {
                Action::NextTurn
            }
        },
        Event::Panicked { attempts } => {
            health.record_crash();
            Action::End { incarnation: Incarnation::Panicked { attempts }, teardown: false }
        },
    }
}

// ── The lean loop ──────────────────────────────────────────────────────────

/// What happened to an actor on the lean loop, which catches no panics.
pub enum LeanEvent {
    /// A delivery arrived.
    Received(Delivery),
    /// Every sender is gone.
    Closed,
    /// A handling ended, and the policy says whether to stop.
    Handled { stop: bool },
}

/// What an actor on the lean loop does next.
pub enum LeanAction {
    /// Hand the delivery to the actor, under the failure policy.
    Handle(Delivery),
    /// Pass the letter on and settle the ack.
    Divert(Quarantine),
    /// Wait for the next delivery.
    Wait,
    /// Tear the actor down and leave the loop.
    Leave,
}

/// One step of the loop of a node without a restart budget.
pub fn run_actor(
    event: LeanEvent,
    poison_after: u32,
    sinks: &FailureSinks<'_>,
    health: &mut Health,
) -> (action: LeanAction)
    ensures
        match event {
            LeanEvent::Received(delivery) => {
                &&& final(health)@ == counts_past_gate(old(health)@, delivery, poison_after, *sinks)
                &&& if poisonous(delivery.attempts, poison_after) {
                    action matches LeanAction::Divert(q) && diverted(delivery, *sinks, q)
                } else {
                    action == LeanAction::Handle(delivery)
                }
            },
            LeanEvent::Closed => {
                &&& final(health)@ == old(health)@
                &&& action == LeanAction::Leave
            },
            LeanEvent::Handled { stop } => {
                &&& final(health)@ == old(health)@
                &&& action == (if stop {
                    LeanAction::Leave
                } else {
                    LeanAction::Wait
                })
            },
        },
        event matches LeanEvent::Received(delivery) ==> {
            &&& action is Divert <==> 0 < poison_after < delivery.attempts
            &&& action is Handle <==> !(0 < poison_after < delivery.attempts)
            &&& action matches LeanAction::Handle(handed) ==> handed == delivery
            &&& action matches LeanAction::Divert(q) ==> {
                &&& q.ack == delivery.ack
                &&& q.letter is Some <==> sinks.dead_letter
                &&& q.letter matches Some(letter) ==> letter.msg == delivery.msg
                    && letter.correlation == delivery.correlation && letter.node == *sinks.node
            }
        },
        final(health)@.handled == old(health)@.handled,
        final(health)@.errored == old(health)@.errored,
        final(health)@.died == old(health)@.died,
        final(health)@.crashed == old(health)@.crashed,
{
    match event {
        LeanEvent::Received(delivery) => {
            match poison_check(delivery, poison_after, sinks, health) {
                Gate::Handle(delivery) => LeanAction::Handle(delivery),
                Gate::Quarantined(quarantine) => LeanAction::Divert(quarantine),
            }
        },
        LeanEvent::Closed => LeanAction::Leave,
        LeanEvent::Handled { stop } => {
            if stop {
                LeanAction::Leave
            } else {
                LeanAction::Wait
            }
        },
    }
}

/// Whether the exit of an actor's task is a death: a panic always is; leaving
/// the loop is one unless the node was stopped on purpose or the whole runtime
/// is gone.
pub open spec fn is_death(panicked: bool, stopping: bool, runtime_up: bool) -> bool {
    panicked || (!stopping && runtime_up)
}

/// Whether the exit of an actor's task is a death.
pub fn supervise(panicked: bool, stopping: bool, runtime_up: bool) -> (died: bool)
    ensures
        died == is_death(panicked, stopping, runtime_up),
        died <==> panicked || (!stopping && runtime_up),
{
    panicked || (!stopping && runtime_up)
}

/// Records a node's death: on its own counters, and by dropping it from the
/// address book so that it stops resolving.
pub fn record_death(actor_id: &ActorId, health: &mut Health, registry: &mut ActorRegistry)
    requires
        old(registry).wf(),
    ensures
        final(health)@ == old(health)@.with_death(),
        final(registry).wf(),
        final(registry)@ == old(registry)@.remove(actor_id@),
{
    health.record_death();
    let _entry = registry.remove(actor_id);
}

// ── The restart supervisor ─────────────────────────────────────────────────

/// Where a supervised node stands.
#[derive(Debug, Clone, Copy, PartialEq, Eq, Structural)]
pub enum Phase {
    /// It is serving, or about to be rebuilt.
    Live,
    /// Its budget is spent, and its death is still to be recorded.
    Spent,
    /// Its death is recorded and it is out of the address book; it waits to be
    /// revived.
    Parked,
    /// Its supervisor has ended.
    Gone,
}

/// The restart supervisor of one node.
#[derive(Debug)]
pub struct Supervisor {
    policy: RestartPolicy,
    poison_after: u32,
    restarts: u32,
    phase: Phase,
}

/// The meaning of a [`Supervisor`].
pub struct SupervisorModel {
    pub policy: RestartPolicy,
    pub poison_after: u32,
    /// Restarts charged since the budget was last reset.
    pub restarts: u32,
    pub phase: Phase,
}

/// What the supervisor does once an incarnation has ended.
pub enum Next {
    /// Nothing more: a clean shutdown, which is no death.
    Exit,
    /// Record the death and end; a deliberate stop is never restarted.
    Die,
    /// Wait, then rebuild the node on its surviving mailbox.
    Rebuild { delay: Option<Duration> },
    /// Record the death, dead-letter what is queued, then park.
    Park,
}

/// What the supervisor does when it stops waiting to be revived.
#[derive(Debug, Clone, Copy, PartialEq, Eq, Structural)]
pub enum Resume {
    /// The node was removed: end.
    Exit,
    /// Register the node again and rebuild it.
    Revive,
}

/// Whether the end of an incarnation is a crash.
pub open spec fn is_crash(incarnation: Incarnation) -> bool {
    incarnation is Panicked || incarnation is Abandoned || incarnation is BuildFailed
}

/// Whether a crash is charged to the restart budget: always, except for a panic
/// on a re-delivery while quarantine is on.
pub open spec fn charges(incarnation: Incarnation, poison_after: u32) -> bool {
    match incarnation {
        Incarnation::Panicked { attempts } => attempts <= 1 || poison_after == 0,
        _ => is_crash(incarnation),
    }
}

impl SupervisorModel {
    /// The budget is never overdrawn.
    pub open spec fn wf(self) -> bool {
        self.restarts <= self.policy.max_restarts
    }

    /// The supervisor, and what it does, once an incarnation has ended so.
    pub open spec fn after(self, incarnation: Incarnation) -> (SupervisorModel, Next) {
        match incarnation {
            Incarnation::Shutdown => (SupervisorModel { phase: Phase::Gone, ..self }, Next::Exit),
            Incarnation::Stopped => (SupervisorModel { phase: Phase::Gone, ..self }, Next::Die),
            Incarnation::ForceRestart => (
                SupervisorModel { restarts: 0, ..self },
                Next::Rebuild { delay: None },
            ),
            _ => if !charges(incarnation, self.poison_after) {
                (self, Next::Rebuild { delay: self.policy.backoff.wait_after(self.restarts) })
            } else if self.restarts < self.policy.max_restarts {
                (
                    SupervisorModel { restarts: (self.restarts + 1) as u32, ..self },
                    Next::Rebuild { delay: self.policy.backoff.wait_after(self.restarts) },
                )
            } else {
                (SupervisorModel { phase: Phase::Spent, ..self }, Next::Park)
            },
        }
    }
}

impl View for Supervisor {
    type V = SupervisorModel;

    closed spec fn view(&self) -> SupervisorModel {
        SupervisorModel {
            policy: self.policy,
            poison_after: self.poison_after,
            restarts: self.restarts,
            phase: self.phase,
        }
    }
}

/// The letter of a delivery that was waiting for a node that died.
pub open spec fn bystander_letter(delivery: Delivery, node: ActorId, restarts: u32) -> LetterModel {
    LetterModel {
        msg: delivery.msg@,
        correlation: delivery.correlation@,
        node: node@,
        reason: ReasonModel::NodeDied { restarts },
    }
}

/// The letters of what was queued for a node that died: one for each delivery, in
/// order, where the node has a sink, and none where it has none.
pub open spec fn buried(
    waiting: Seq<Delivery>,
    sinks: FailureSinks<'_>,
    restarts: u32,
    letters: Seq<DeadLettered>,
) -> bool {
    &&& letters.len() == (if sinks.dead_letter {
        waiting.len()
    } else {
        0
    })
    &&& forall|i: int|
        0 <= i < letters.len() ==> (#[trigger] letters[i])@ == bystander_letter(
            waiting[i],
            *sinks.node,
            restarts,
        )
}

impl Supervisor {
    /// The supervisor of a node that has just been spawned.
    pub fn new(failure: &FailurePolicy) -> (s: Self)
        ensures
            s@ == (SupervisorModel {
                policy: failure.restart,
                poison_after: failure.poison_after,
                restarts: 0,
                phase: Phase::Live,
            }),
            s@.wf(),
    {
        Supervisor {
            policy: failure.restart,
            poison_after: failure.poison_after,
            restarts: 0,
            phase: Phase::Live,
        }
    }

    /// How many restarts have been charged since the budget was last reset.
    pub fn restarts(&self) -> (n: u32)
        ensures
            n == self@.restarts,
    {
        self.restarts
    }

    /// Decides what follows the end of an incarnation.
    pub fn supervise_with_restart(&mut self, incarnation: Incarnation) -> (next: Next)
        requires
            old(self)@.wf(),
            old(self)@.phase == Phase::Live,
        ensures
            final(self)@.wf(),
            (final(self)@, next) == old(self)@.after(incarnation),
            final(self)@.policy == old(self)@.policy,
            final(self)@.poison_after == old(self)@.poison_after,
            match incarnation {
                Incarnation::Shutdown => next is Exit && final(self)@.phase == Phase::Gone,
                Incarnation::Stopped => next is Die && final(self)@.phase == Phase::Gone,
                Incarnation::ForceRestart => {
                    &&& next matches Next::Rebuild { delay } && delay is None
                    &&& final(self)@.phase == Phase::Live
                    &&& final(self)@.restarts == 0
                },
                _ => {
                    let spared = incarnation matches Incarnation::Panicked { attempts } && attempts
                        > 1 && old(self)@.poison_after > 0;
                    let dies = !spared && old(self)@.restarts == old(self)@.policy.max_restarts;
                    &&& next is Park <==> dies
                    &&& final(self)@.phase == if dies {
                        Phase::Spent
                    } else {
                        Phase::Live
                    }
                    &&& final(self)@.restarts == old(self)@.restarts + if spared || dies {
                        0int
                    } else {
                        1
                    }
                    &&& !dies ==> (next matches Next::Rebuild { delay } && delay
                        == old(self)@.policy.backoff.wait_after(old(self)@.restarts))
                },
            },
    {
        match incarnation {
            Incarnation::Shutdown => {
                self.phase = Phase::Gone;
                Next::Exit
            },
            Incarnation::Stopped => {
                self.phase = Phase::Gone;
                Next::Die
            },
            Incarnation::ForceRestart => {
                self.restarts = 0;
                Next::Rebuild { delay: None }
            },
            Incarnation::Panicked { .. } | Incarnation::Abandoned | Incarnation::BuildFailed => {
                let charge = match incarnation {
                    Incarnation::Panicked { attempts } => attempts <= 1 || self.poison_after == 0,
                    _ => true,
                };
                if !charge {
                    return Next::Rebuild { delay: self.policy.backoff.delay_for(self.restarts) };
                }
                if self.restarts < self.policy.max_restarts {
                    let delay = self.policy.backoff.delay_for(self.restarts);
                    self.restarts = self.restarts + 1;
                    return Next::Rebuild { delay };
                }
                self.phase = Phase::Spent;
                Next::Park
            },
        }
    }

    /// Preserves a delivery to a dead node on its sink, where it has one. The
    /// ack is dropped either way: the node did not handle the message, so no
    /// outcome is made up for it.
    pub fn dead_letter_one(&self, delivery: Delivery, sinks: &FailureSinks<'_>) -> (letter: Option<
        DeadLettered,
    >)
        ensures
            match letter {
                Some(letter) => sinks.dead_letter && letter@ == bystander_letter(
                    delivery,
                    *sinks.node,
                    self@.restarts,
                ),
                None => !sinks.dead_letter,
            },
            letter is Some <==> sinks.dead_letter,
            letter matches Some(letter) ==> {
                &&& letter.msg == delivery.msg
                &&& letter.correlation == delivery.correlation
                &&& letter.node == *sinks.node
                &&& letter.reason == DeadLetterReason::NodeDied { restarts: self@.restarts }
            },
    {
        let Delivery { msg, ack: _, span: _, correlation, attempts: _ } = delivery;
        if sinks.dead_letter {
            let reason = DeadLetterReason::NodeDied { restarts: self.restarts };
            Some(DeadLettered::new(msg, correlation, sinks.node.clone(), reason))
        } else {
            None
        }
    }

    /// Records the death of a node whose budget is spent: it is counted, and
    /// dropped from the address book. Then everything still queued for it is taken
    /// off its mailbox, and preserved on its sink where it has one.
    pub fn permanently_dead(
        &mut self,
        rx: &mut MailboxRx,
        sinks: &FailureSinks<'_>,
        health: &mut Health,
        registry: &mut ActorRegistry,
    ) -> (letters: Vec<DeadLettered>)
        requires
            old(self)@.phase == Phase::Spent,
            old(registry).wf(),
        ensures
            final(self)@ == (SupervisorModel { phase: Phase::Parked, ..old(self)@ }),
            final(health)@ == old(health)@.with_death(),
            final(registry).wf(),
            final(registry)@ == old(registry)@.remove(sinks.node@),
            final(rx).channel() == old(rx).channel(),
            exists|waiting: Seq<Delivery>|
                {
                    &&& #[trigger] drained(old(rx).receiver, final(rx).receiver, waiting)
                    &&& buried(waiting, *sinks, old(self)@.restarts, letters@)
                    &&& letters@.len() == if sinks.dead_letter {
                        waiting.len()
                    } else {
                        0
                    }
                    &&& forall|i: int|
                        0 <= i < letters@.len() ==> {
                            &&& (#[trigger] letters@[i]).msg == waiting[i].msg
                            &&& letters@[i].correlation == waiting[i].correlation
                            &&& letters@[i].node == *sinks.node
                            &&& letters@[i].reason == DeadLetterReason::NodeDied {
                                restarts: old(self)@.restarts,
                            }
                        }
                },
    {
        record_death(sinks.node, health, registry);
        self.phase = Phase::Parked;
        let waiting = rx.drain();
        self.bury(waiting, sinks)
    }

    /// Preserves what was queued for a dead node, in order.
    pub fn bury(&self, waiting: Vec<Delivery>, sinks: &FailureSinks<'_>) -> (letters: Vec<
        DeadLettered,
    >)
        ensures
            buried(waiting@, *sinks, self@.restarts, letters@),
            letters@.len() == (if sinks.dead_letter {
                waiting@.len()
            } else {
                0
            }),
            forall|i: int|
                0 <= i < letters@.len() ==> {
                    &&& (#[trigger] letters@[i]).msg == waiting@[i].msg
                    &&& letters@[i].correlation == waiting@[i].correlation
                    &&& letters@[i].node == *sinks.node
                    &&& letters@[i].reason == DeadLetterReason::NodeDied { restarts: self@.restarts }
                },
    {
        let ghost queued = waiting@;
        let mut letters: Vec<DeadLettered> = Vec::new();
        let mut left: Vec<Delivery> = waiting;
        while left.len() > 0
            invariant
                queued == waiting@,
                left@.len() <= queued.len(),
                left@ == queued.skip(queued.len() - left@.len()),
                buried(
                    queued.take(queued.len() - left@.len()),
                    *sinks,
                    self@.restarts,
                    letters@,
                ),
                letters@.len() == (if sinks.dead_letter {
                    queued.len() - left@.len()
                } else {
                    0
                }),
                forall|i: int|
                    0 <= i < letters@.len() ==> {
                        &&& (#[trigger] letters@[i]).msg == queued[i].msg
                        &&& letters@[i].correlation == queued[i].correlation
                        &&& letters@[i].node == *sinks.node
                        &&& letters@[i].reason == DeadLetterReason::NodeDied {
                            restarts: self@.restarts,
                        }
                    },
            decreases left@.len(),
        {
            let ghost done = queued.len() - left@.len();
            assert(left@[0] == queued[done]);
            let delivery = left.remove(0);
            assert(left@ =~= queued.skip(done + 1));
            assert(queued.take(done + 1) =~= queued.take(done).push(delivery));
            if let Some(letter) = self.dead_letter_one(delivery, sinks) {
                letters.push(letter);
            }
        }
        assert(queued.take(queued.len() as int) =~= queued);
        letters
    }

    /// Marks the node as dead. A node is only ever parked by
    /// [`Supervisor::permanently_dead`], which drops it from the address book, so
    /// the mark is never set before that: a manual restart cannot race the
    /// removal. The host sets it once it has told its listeners of the death.
    pub fn park(&self, control: &mut RestartControl)
        requires
            self@.phase == Phase::Parked,
        ensures
            final(control).dead(),
            final(control).forced() == old(control).forced(),
    {
        control.parked_dead = true;
    }

    /// Ends the wait of a parked node: it is revived with a fresh budget, or, its
    /// mailbox having closed, it is gone.
    pub fn unpark(&mut self, revived: bool, control: &mut RestartControl) -> (resume: Resume)
        requires
            old(self)@.wf(),
            old(self)@.phase == Phase::Parked,
        ensures
            final(self)@.wf(),
            !final(control).dead(),
            if revived {
                &&& resume == Resume::Revive
                &&& final(self)@ == (SupervisorModel {
                    restarts: 0,
                    phase: Phase::Live,
                    ..old(self)@
                })
                &&& !final(control).forced()
            } else {
                &&& resume == Resume::Exit
                &&& final(self)@ == (SupervisorModel { phase: Phase::Gone, ..old(self)@ })
                &&& final(control).forced() == old(control).forced()
            },
    {
        control.parked_dead = false;
        if !revived {
            self.phase = Phase::Gone;
            return Resume::Exit;
        }
        control.force = false;
        self.restarts = 0;
        self.phase = Phase::Live;
        Resume::Revive
    }
}

/// Registers a revived node again, under the mailbox, counters and stop flag it
/// had, while its mailbox is still open; otherwise there is nothing to revive.
pub fn reregister(
    node: &ActorId,
    actor_type: &str,
    tx: &WeakMailboxTx,
    health: &SharedHealth,
    stopping: &Arc<AtomicBool>,
    registry: &mut ActorRegistry,
) -> (registered: bool)
    requires
        old(registry).wf(),
    ensures
        final(registry).wf(),
        if registered {
            &&& was_upgraded(tx.sender, Some(final(registry)@[node@]@.mailbox.sender))
            &&& final(registry)@.dom() == old(registry)@.dom().insert(node@)
            &&& final(registry)@.remove(node@) == old(registry)@.remove(node@)
            &&& final(registry)@[node@]@.mailbox.channel() == tx.channel()
            &&& revived_as(final(registry)@[node@]@, *node, actor_type@, *health, *stopping)
            &&& final(registry)@[node@]@.id == node@
            &&& final(registry)@[node@]@.actor_type == actor_type@
            &&& final(registry)@[node@]@.health == *health
            &&& final(registry)@[node@]@.stopping == *stopping
        } else {
            &&& was_upgraded(tx.sender, None)
            &&& final(registry)@ == old(registry)@
        },
{
    match tx.upgrade() {
        Some(tx) => {
            register_revived(node, actor_type, tx, health, stopping, registry);
            assert(registry@.remove(node@) =~= old(registry)@.remove(node@));
            true
        },
        None => false,
    }
}

/// What the entry of a revived node holds beside its mailbox.
pub open spec fn revived_as(
    handle: HandleModel,
    node: ActorId,
    actor_type: Seq<char>,
    health: SharedHealth,
    stopping: Arc<AtomicBool>,
) -> bool {
    &&& handle.id == node@
    &&& handle.actor_type == actor_type
    &&& handle.health == health
    &&& handle.stopping == stopping
}

/// Registers a revived node under an open mailbox.
pub fn register_revived(
    node: &ActorId,
    actor_type: &str,
    tx: MailboxTx,
    health: &SharedHealth,
    stopping: &Arc<AtomicBool>,
    registry: &mut ActorRegistry,
)
    requires
        old(registry).wf(),
    ensures
        final(registry).wf(),
        final(registry)@.dom() == old(registry)@.dom().insert(node@),
        final(registry)@.remove(node@) == old(registry)@.remove(node@),
        final(registry)@[node@]@ == (HandleModel {
            id: node@,
            actor_type: actor_type@,
            mailbox: tx,
            health: *health,
            stopping: *stopping,
        }),
{
    registry.insert(
        ActorHandle::new_sharing(
            node.clone(),
            actor_type,
            tx,
            Arc::clone(health),
            Arc::clone(stopping),
        ),
    );
    assert(registry@.remove(node@) =~= old(registry)@.remove(node@));
}

// ── Laws of supervision ────────────────────────────────────────────────────

impl SupervisorModel {
    /// The supervisor after a series of incarnations that ended so, one after the
    /// other, for as long as it goes on rebuilding.
    pub open spec fn through(self, ends: Seq<Incarnation>) -> SupervisorModel
        decreases ends.len(),
    {
        if ends.len() == 0 || self.phase != Phase::Live {
            self
        } else {
            self.after(ends[0]).0.through(ends.skip(1))
        }
    }
}

/// How many of these ends are charged to the restart budget.
pub open spec fn charged(ends: Seq<Incarnation>, poison_after: u32) -> nat
    decreases ends.len(),
{
    if ends.len() == 0 {
        0
    } else if charges(ends[0], poison_after) {
        1 + charged(ends.skip(1), poison_after)
    } else {
        charged(ends.skip(1), poison_after)
    }
}

/// Whether all of these ends are crashes.
pub open spec fn all_crashes(ends: Seq<Incarnation>) -> bool {
    forall|i: int| 0 <= i < ends.len() ==> is_crash(#[trigger] ends[i])
}

/// A node lives through crashes for as long as the charged ones fit its budget,
/// and each of those is counted once; with one more it dies, its budget spent.
pub proof fn a_node_dies_when_charged_crashes_exceed_its_budget(
    node: SupervisorModel,
    ends: Seq<Incarnation>,
)
    requires
        node.wf(),
        node.phase == Phase::Live,
        all_crashes(ends),
    ensures
        ({
            let spent = node.restarts + charged(ends, node.poison_after);
            let after = node.through(ends);
            if spent <= node.policy.max_restarts {
                after == SupervisorModel { restarts: spent as u32, ..node }
            } else {
                after == SupervisorModel {
                    restarts: node.policy.max_restarts,
                    phase: Phase::Spent,
                    ..node
                }
            }
        }),
    decreases ends.len(),
{
    if ends.len() > 0 {
        let rest = ends.skip(1);
        assert(is_crash(ends[0]));
        assert forall|i: int| 0 <= i < rest.len() implies is_crash(#[trigger] rest[i]) by {
            assert(rest[i] == ends[i + 1]);
        }
        let next = node.after(ends[0]).0;
        if next.phase == Phase::Live {
            a_node_dies_when_charged_crashes_exceed_its_budget(next, rest);
        }
    }
}

/// With quarantine on, panics on re-deliveries leave the node and its budget as
/// they were, however many there are.
pub proof fn redelivery_crashes_spare_the_budget(node: SupervisorModel, ends: Seq<Incarnation>)
    requires
        node.phase == Phase::Live,
        node.poison_after != 0,
        forall|i: int|
            0 <= i < ends.len() ==> ((#[trigger] ends[i]) matches Incarnation::Panicked { attempts }
                && attempts > 1),
    ensures
        node.through(ends) == node,
    decreases ends.len(),
{
    if ends.len() > 0 {
        let rest = ends.skip(1);
        assert(ends[0] is Panicked);
        assert forall|i: int| 0 <= i < rest.len() implies ((#[trigger] rest[i]) matches
            Incarnation::Panicked { attempts } && attempts > 1) by {
            assert(rest[i] == ends[i + 1]);
        }
        redelivery_crashes_spare_the_budget(node, rest);
    }
}

/// With quarantine off, every crash is charged, re-deliveries too: the node
/// dies of its crash number `max_restarts + 1` and not before.
pub proof fn without_quarantine_every_crash_is_charged(ends: Seq<Incarnation>)
    requires
        all_crashes(ends),
    ensures
        charged(ends, 0) == ends.len(),
    decreases ends.len(),
{
    if ends.len() > 0 {
        let rest = ends.skip(1);
        assert(is_crash(ends[0]));
        assert forall|i: int| 0 <= i < rest.len() implies is_crash(#[trigger] rest[i]) by {
            assert(rest[i] == ends[i + 1]);
        }
        without_quarantine_every_crash_is_charged(rest);
    }
}

/// Whatever the quarantine threshold, each failed build, each abandoned mailbox and
/// each panic on a first delivery uses up one restart. A node with `r` restarts left
/// is rebuilt after each of `r` such ends in a row and counts them, and on the next
/// one it is parked with its budget spent.
pub proof fn what_is_the_nodes_doing_uses_up_its_budget(
    node: SupervisorModel,
    ends: Seq<Incarnation>,
)
    requires
        node.wf(),
        node.phase == Phase::Live,
        forall|i: int|
            0 <= i < ends.len() ==> {
                ||| (#[trigger] ends[i]) is BuildFailed
                ||| ends[i] is Abandoned
                ||| ends[i] matches Incarnation::Panicked { attempts } && (attempts <= 1
                    || node.poison_after == 0)
            },
    ensures
        ({
            let left = node.policy.max_restarts - node.restarts;
            let after = node.through(ends);
            &&& ends.len() <= left ==> after.phase == Phase::Live && after.restarts == node.restarts
                + ends.len()
            &&& ends.len() > left ==> after.phase == Phase::Spent && after.restarts
                == node.policy.max_restarts
            &&& after.policy == node.policy && after.poison_after == node.poison_after
            &&& 0 < ends.len() <= left + 1 ==> {
                let last = node.through(ends.drop_last()).after(ends.last()).1;
                if ends.len() <= left {
                    last is Rebuild
                } else {
                    last is Park
                }
            }
        }),
    decreases ends.len(),
{
    if ends.len() > 0 {
        let rest = ends.skip(1);
        let next = node.after(ends[0]).0;
        assert(ends[0] is BuildFailed || ends[0] is Abandoned || ends[0] is Panicked);
        assert forall|i: int| 0 <= i < rest.len() implies {
            ||| (#[trigger] rest[i]) is BuildFailed
            ||| rest[i] is Abandoned
            ||| rest[i] matches Incarnation::Panicked { attempts } && (attempts <= 1
                || node.poison_after == 0)
        } by {
            assert(rest[i] == ends[i + 1]);
        }
        if next.phase == Phase::Live {
            what_is_the_nodes_doing_uses_up_its_budget(next, rest);
            if rest.len() > 0 {
                assert(ends.drop_last().skip(1) =~= rest.drop_last());
                assert(ends.drop_last()[0] == ends[0]);
                assert(rest.last() == ends.last());
            } else {
                assert(ends.drop_last() =~= Seq::<Incarnation>::empty());
                assert(ends.last() == ends[0]);
            }
        } else {
            if ends.len() == 1 {
                assert(ends.drop_last() =~= Seq::<Incarnation>::empty());
                assert(ends.last() == ends[0]);
            }
        }
    }
}

/// No message queued for a node that died is lost where the node has a sink: there
/// are as many letters as deliveries taken off, and the `i`-th letter carries the
/// message and the run of the `i`-th delivery, names the node, and says how often it
/// was rebuilt. Without a sink there are no letters.
pub proof fn no_queued_message_is_without_its_letter(
    waiting: Seq<Delivery>,
    sinks: FailureSinks<'_>,
    restarts: u32,
    letters: Seq<DeadLettered>,
)
    requires
        buried(waiting, sinks, restarts, letters),
    ensures
        sinks.dead_letter ==> letters.len() == waiting.len(),
        !sinks.dead_letter ==> letters.len() == 0,
        forall|i: int|
            sinks.dead_letter && 0 <= i < waiting.len() ==> {
                &&& (#[trigger] letters[i]).msg.type_@ == waiting[i].msg.type_@
                &&& letters[i].msg.value@ == waiting[i].msg.value@
                &&& letters[i].correlation@ == waiting[i].correlation@
                &&& letters[i].node@ == sinks.node@
                &&& letters[i].reason matches DeadLetterReason::NodeDied { restarts: told } && told
                    == restarts
            },
{
    assert forall|i: int| sinks.dead_letter && 0 <= i < waiting.len() implies {
        &&& (#[trigger] letters[i]).msg.type_@ == waiting[i].msg.type_@
        &&& letters[i].msg.value@ == waiting[i].msg.value@
        &&& letters[i].correlation@ == waiting[i].correlation@
        &&& letters[i].node@ == sinks.node@
        &&& letters[i].reason matches DeadLetterReason::NodeDied { restarts: told } && told
            == restarts
    } by {
        assert(letters[i]@ == bystander_letter(waiting[i], *sinks.node, restarts));
        assert(letters[i]@.msg == waiting[i].msg@);
    }
}

/// The ends of the incarnations that one message crashes, when it is delivered
/// `deliveries` times with a rising attempt count.
pub open spec fn crashes_of_one_message(deliveries: u32) -> Seq<Incarnation> {
    Seq::new(deliveries as nat, |i: int| Incarnation::Panicked { attempts: (i + 1) as u32 })
}

/// Quarantine and the sparing of the budget work together: a message that
/// crashes the node on every delivery reaches it only as often as the threshold
/// allows, costs it one restart, and never kills a node that had one to spend.
pub proof fn a_poison_message_never_kills_the_node(
    node: SupervisorModel,
    deliveries: u32,
    attempts: u32,
)
    requires
        node.wf(),
        node.phase == Phase::Live,
        node.poison_after != 0,
        node.restarts < node.policy.max_restarts,
        1 <= deliveries <= node.poison_after,
    ensures
        node.through(crashes_of_one_message(deliveries)) == (SupervisorModel {
            restarts: (node.restarts + 1) as u32,
            ..node
        }),
        attempts > node.poison_after ==> poisonous(attempts, node.poison_after),
        attempts <= node.poison_after ==> !poisonous(attempts, node.poison_after),
{
    let ends = crashes_of_one_message(deliveries);
    let rest = ends.skip(1);
    let next = node.after(ends[0]).0;
    assert forall|i: int| 0 <= i < rest.len() implies ((#[trigger] rest[i]) matches
        Incarnation::Panicked { attempts } && attempts > 1) by {
        assert(rest[i] == ends[i + 1]);
    }
    redelivery_crashes_spare_the_budget(next, rest);
}

/// A deliberate stop and a clean shutdown are never rebuilt, whatever is left of
/// the budget; only the stop is a death.
pub proof fn a_stopped_node_is_never_restarted(node: SupervisorModel)
    ensures
        node.after(Incarnation::Stopped).0.phase == Phase::Gone,
        node.after(Incarnation::Stopped).1 is Die,
        node.after(Incarnation::Shutdown).0.phase == Phase::Gone,
        node.after(Incarnation::Shutdown).1 is Exit,
{
}

/// Whether a request to rebuild the node is still pending after these events.
pub open spec fn pending(forced: bool, events: Seq<Event>) -> bool
    decreases events.len(),
{
    if events.len() == 0 {
        forced
    } else {
        still_forced(events.last(), pending(forced, events.drop_last()))
    }
}

/// A request to rebuild a live node is never lost: through whatever happens it
/// stays pending until it is taken up, and the next turn takes it up.
pub proof fn a_forced_restart_is_never_lost(events: Seq<Event>)
    ensures
        pending(true, events) || exists|i: int|
            0 <= i < events.len() && taken_up(events[i], #[trigger] pending(true, events.take(i))),
        pending(true, events) ==> taken_up(Event::Turn, pending(true, events)),
    decreases events.len(),
{
    if events.len() > 0 {
        let earlier = events.drop_last();
        a_forced_restart_is_never_lost(earlier);
        if pending(true, earlier) {
            assert(events.take(events.len() - 1) =~= earlier);
            if !pending(true, events) {
                assert(taken_up(
                    events[events.len() - 1],
                    pending(true, events.take(events.len() - 1)),
                ));
            }
        } else {
            let i = choose|i: int|
                0 <= i < earlier.len() && taken_up(
                    earlier[i],
                    #[trigger] pending(true, earlier.take(i)),
                );
            assert(events.take(i) =~= earlier.take(i));
            assert(taken_up(events[i], pending(true, events.take(i))));
        }
    }
}

/// A closed mailbox means the same on both loops, and a death only where the node
/// was not stopped and its runtime is still up. Where the runtime is gone, the
/// node ends cleanly, whatever its budget: it is neither rebuilt nor parked, and
/// no death is recorded.
pub proof fn a_node_ends_cleanly_with_its_runtime(
    node: SupervisorModel,
    stopping: bool,
    runtime_up: bool,
)
    ensures
        closed_end(stopping, runtime_up) is Abandoned <==> is_death(false, stopping, runtime_up),
        closed_end(stopping, runtime_up) is Abandoned <==> !stopping && runtime_up,
        closed_end(stopping, runtime_up) is Shutdown <==> stopping || !runtime_up,
        is_death(true, stopping, runtime_up),
        (stopping || !runtime_up) ==> node.after(closed_end(stopping, runtime_up)) == (
            SupervisorModel { phase: Phase::Gone, ..node },
            Next::Exit,
        ),
{
}

/// A forced restart keeps the node alive with a budget as good as new.
pub proof fn a_forced_restart_resets_the_budget(node: SupervisorModel)
    requires
        node.phase == Phase::Live,
    ensures
        node.after(Incarnation::ForceRestart).0 == (SupervisorModel { restarts: 0, ..node }),
        node.after(Incarnation::ForceRestart).1 is Rebuild,
{
}

} // verus!
