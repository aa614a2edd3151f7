//! Timers that deliver back into an actor's own mailbox.

use crate::actor::Message;
use crate::correlation::{minted, CorrelationIds, CorrelationScope};
use crate::counter::bumped;
use crate::delivery::{Ack, Delivery, SharedHealth};
use crate::mailbox::{was_offered, was_upgraded, MailboxTx, Offer, WeakMailboxTx};
use std::sync::Arc;
use vstd::prelude::*;

verus! {

/// A timer of one actor. It holds the mailbox weakly, so that a pending timer
/// never keeps a torn-down actor alive.
pub struct TokioSchedule {
    pub mailbox: WeakMailboxTx,
    pub health: SharedHealth,
}

impl TokioSchedule {
    /// Whether this is the delivery the timer makes of a message: a first attempt
    /// of the run in scope where the timer was set, or of a fresh run where none
    /// was, acknowledged on the actor's own counters.
    pub open spec fn wakes(
        &self,
        msg: Message,
        scope: CorrelationScope,
        upcoming: u64,
        d: Delivery,
    ) -> bool {
        &&& d.msg == msg
        &&& d.ack == Ack::Health(self.health)
        &&& d.attempts == 1
        &&& match scope.in_scope() {
            Some(current) => d.correlation == current,
            None => d.correlation@ == minted(upcoming),
        }
    }

    /// Fires the timer: the message is offered to the actor's mailbox, counted on
    /// the actor's own health. `scope` is the one in which the timer was set, so
    /// that a message an actor schedules to itself stays in its run. Where the actor is gone the message is dropped,
    /// and no run is started for it.
    pub fn fire(&self, msg: Message, scope: &CorrelationScope, ids: &mut CorrelationIds) -> (offer:
        Option<Offer>)
        ensures
            match offer {
                Some(answer) => exists|tx: MailboxTx, d: Delivery|
                    {
                        &&& tx.channel() == self.mailbox.channel()
                        &&& was_upgraded(self.mailbox.sender, Some(tx.sender))
                        &&& self.wakes(msg, *scope, old(ids).upcoming(), d)
                        &&& d.msg == msg
                        &&& d.ack == Ack::Health(self.health)
                        &&& d.attempts == 1
                        &&& scope.in_scope() matches Some(current) ==> d.correlation == current
                        &&& #[trigger] was_offered(tx.sender, d, answer)
                    },
                None => was_upgraded(self.mailbox.sender, None),
            },
            final(ids).upcoming() == (if offer is Some && scope.in_scope() is None {
                bumped(old(ids).upcoming())
            } else {
                old(ids).upcoming()
            }),
    {
        match self.mailbox.upgrade() {
            Some(tx) => Some(tx.offer(self.wake(msg, scope, ids))),
            None => None,
        }
    }

    /// The delivery the timer makes; `scope` is the one in which it was set.
    pub fn wake(&self, msg: Message, scope: &CorrelationScope, ids: &mut CorrelationIds) -> (d:
        Delivery)
        ensures
            self.wakes(msg, *scope, old(ids).upcoming(), d),
            d.msg == msg,
            d.ack == Ack::Health(self.health),
            d.attempts == 1,
            scope.in_scope() matches Some(current) ==> d.correlation == current,
            scope.in_scope() is None ==> d.correlation@ == minted(old(ids).upcoming()),
            final(ids).upcoming() == (if scope.in_scope() is None {
                bumped(old(ids).upcoming())
            } else {
                old(ids).upcoming()
            }),
    {
        Delivery::new(msg, Ack::Health(Arc::clone(&self.health)), scope, ids)
    }
}

} // verus!
