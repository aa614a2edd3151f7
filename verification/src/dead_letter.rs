//! Messages a node can no longer process.

use crate::actor::{ActorId, Message, MessageModel};
use crate::correlation::CorrelationId;
use vstd::prelude::*;

verus! {

/// A host-provided sink for messages a node can no longer process, so that they
/// are preserved rather than dropped. Where a dead letter lands is the host's
/// choice.
///
/// The call runs on the node's receive loop between handlings, so it neither
/// blocks nor fails.
pub trait DeadLetter: Send + Sync {
    /// Takes responsibility for one message. Called once per dead letter.
    fn dead_letter(&self, letter: DeadLettered);
}

/// One dead-lettered message and what is needed to triage or replay it.
#[derive(Debug)]
#[non_exhaustive]
pub struct DeadLettered {
    /// The original message.
    pub msg: Message,
    /// The run it belonged to.
    pub correlation: CorrelationId,
    /// The node that failed it.
    pub node: ActorId,
    /// Why it ended up here.
    pub reason: DeadLetterReason,
}

impl DeadLettered {
    pub fn new(
        msg: Message,
        correlation: CorrelationId,
        node: ActorId,
        reason: DeadLetterReason,
    ) -> (letter: Self)
        ensures
            letter == (DeadLettered { msg, correlation, node, reason }),
    {
        DeadLettered { msg, correlation, node, reason }
    }
}

/// Why a message was dead-lettered.
#[derive(Debug, PartialEq, Eq)]
#[non_exhaustive]
pub enum DeadLetterReason {
    /// A retry policy used up its budget: every attempt errored.
    RetryExhausted {
        /// How often the message was handed over in all.
        attempts: u32,
        /// The error of the last attempt.
        error: String,
    },
    /// A fail policy stopped the node on this message.
    Failed {
        /// The error it failed with.
        error: String,
    },
    /// The node died for good; this message was waiting behind the crash.
    NodeDied {
        /// How often the node was rebuilt before it died.
        restarts: u32,
    },
    /// The delivery was handed over too often and was quarantined unhandled.
    Poison {
        /// How often it had been handed over.
        attempts: u32,
    },
}

/// The meaning of a [`DeadLetterReason`].
pub enum ReasonModel {
    RetryExhausted { attempts: u32, error: Seq<char> },
    Failed { error: Seq<char> },
    NodeDied { restarts: u32 },
    Poison { attempts: u32 },
}

impl View for DeadLetterReason {
    type V = ReasonModel;

    open spec fn view(&self) -> ReasonModel {
        match self {
            DeadLetterReason::RetryExhausted { attempts, error } => ReasonModel::RetryExhausted {
                attempts: *attempts,
                error: error@,
            },
            DeadLetterReason::Failed { error } => ReasonModel::Failed { error: error@ },
            DeadLetterReason::NodeDied { restarts } => ReasonModel::NodeDied { restarts: *restarts },
            DeadLetterReason::Poison { attempts } => ReasonModel::Poison { attempts: *attempts },
        }
    }
}

impl Clone for DeadLetterReason {
    fn clone(&self) -> (copy: Self)
        ensures
            copy == *self,
    {
        match self {
            DeadLetterReason::RetryExhausted { attempts, error } => {
                DeadLetterReason::RetryExhausted { attempts: *attempts, error: error.clone() }
            },
            DeadLetterReason::Failed { error } => DeadLetterReason::Failed { error: error.clone() },
            DeadLetterReason::NodeDied { restarts } => {
                DeadLetterReason::NodeDied { restarts: *restarts }
            },
            DeadLetterReason::Poison { attempts } => {
                DeadLetterReason::Poison { attempts: *attempts }
            },
        }
    }
}

/// The meaning of a [`DeadLettered`].
pub struct LetterModel {
    pub msg: MessageModel,
    pub correlation: Seq<char>,
    pub node: Seq<char>,
    pub reason: ReasonModel,
}

impl View for DeadLettered {
    type V = LetterModel;

    open spec fn view(&self) -> LetterModel {
        LetterModel {
            msg: self.msg@,
            correlation: self.correlation@,
            node: self.node@,
            reason: self.reason@,
        }
    }
}

/// Letters that mean the same hold the same: message, run, node, and reason with all
/// that it tells.
pub proof fn letters_that_mean_the_same_hold_the_same(a: DeadLettered, b: DeadLettered)
    requires
        a@ == b@,
    ensures
        a.msg@ == b.msg@,
        a.correlation@ == b.correlation@,
        a.node@ == b.node@,
        a.reason matches DeadLetterReason::RetryExhausted { attempts, error } ==> (
        b.reason matches DeadLetterReason::RetryExhausted { attempts: n, error: told } && n
            == attempts && told@ == error@),
        a.reason matches DeadLetterReason::Failed { error } ==> (
        b.reason matches DeadLetterReason::Failed { error: told } && told@ == error@),
        a.reason matches DeadLetterReason::NodeDied { restarts } ==> (
        b.reason matches DeadLetterReason::NodeDied { restarts: n } && n == restarts),
        a.reason matches DeadLetterReason::Poison { attempts } ==> (
        b.reason matches DeadLetterReason::Poison { attempts: n } && n == attempts),
{
}

impl DeadLetterReason {
    /// A short name for the reason.
    pub open spec fn name(&self) -> Seq<char> {
        match self {
            DeadLetterReason::RetryExhausted { .. } => "retry_exhausted"@,
            DeadLetterReason::Failed { .. } => "failed"@,
            DeadLetterReason::NodeDied { .. } => "node_died"@,
            DeadLetterReason::Poison { .. } => "poison"@,
        }
    }

    /// A short name for the reason, as it appears in traces.
    pub fn label(&self) -> (s: &'static str)
        ensures
            s@ == self.name(),
            self is RetryExhausted ==> s@ == "retry_exhausted"@,
            self is Failed ==> s@ == "failed"@,
            self is NodeDied ==> s@ == "node_died"@,
            self is Poison ==> s@ == "poison"@,
    {
        match self {
            DeadLetterReason::RetryExhausted { .. } => "retry_exhausted",
            DeadLetterReason::Failed { .. } => "failed",
            DeadLetterReason::NodeDied { .. } => "node_died",
            DeadLetterReason::Poison { .. } => "poison",
        }
    }
}

} // verus!
