//! What the runtime refuses.

use crate::actor::{ends_with, ActorError, ActorId};
use vstd::prelude::*;
use vstd::std_specs::convert::FromSpecImpl;

verus! {

#[derive(Debug, PartialEq, Eq)]
pub enum RuntimeError {
    /// No such actor is running.
    ActorNotFound(ActorId),
    /// An actor of that identity is already running.
    AlreadyRunning(ActorId),
    /// The actor itself failed.
    Actor(ActorError),
    /// The mailbox did not take the message.
    Send(String),
    /// The address book cannot be locked any more.
    Lock,
}

impl RuntimeError {
    /// The error as it is shown.
    pub open spec fn text(&self) -> Seq<char> {
        match self {
            RuntimeError::ActorNotFound(id) => "actor not found: "@ + id@,
            RuntimeError::AlreadyRunning(id) => "actor already running: "@ + id@,
            RuntimeError::Actor(e) => "actor error: "@ + e.text(),
            RuntimeError::Send(reason) => "send failed: "@ + reason@,
            RuntimeError::Lock => "registry lock poisoned"@,
        }
    }

    /// The error as it is shown.
    pub fn to_string(&self) -> (s: String)
        ensures
            s@ == self.text(),
            self matches RuntimeError::ActorNotFound(id) ==> s@ == "actor not found: "@ + id@,
            self matches RuntimeError::AlreadyRunning(id) ==> s@ == "actor already running: "@ + id@,
            self matches RuntimeError::Actor(e) ==> s@ == "actor error: "@ + e.text(),
            self matches RuntimeError::Send(reason) ==> s@ == "send failed: "@ + reason@,
            self is Lock ==> s@ == "registry lock poisoned"@,
    {
        match self {
            RuntimeError::ActorNotFound(id) => {
                let mut s = "actor not found: ".to_owned();
                s.append(id.as_str());
                s
            },
            RuntimeError::AlreadyRunning(id) => {
                let mut s = "actor already running: ".to_owned();
                s.append(id.as_str());
                s
            },
            RuntimeError::Actor(e) => {
                let mut s = "actor error: ".to_owned();
                s.append(e.to_string().as_str());
                s
            },
            RuntimeError::Send(reason) => {
                let mut s = "send failed: ".to_owned();
                s.append(reason.as_str());
                s
            },
            RuntimeError::Lock => "registry lock poisoned".to_owned(),
        }
    }
}

/// What is shown of an error ends with what it is about: the actor, the actor's own
/// error, or the reason.
pub proof fn a_runtime_error_shows_what_it_is_about(e: RuntimeError)
    ensures
        match e {
            RuntimeError::ActorNotFound(id) => ends_with(e.text(), id@),
            RuntimeError::AlreadyRunning(id) => ends_with(e.text(), id@),
            RuntimeError::Actor(inner) => ends_with(e.text(), inner.text()),
            RuntimeError::Send(reason) => ends_with(e.text(), reason@),
            RuntimeError::Lock => true,
        },
{
    let text = e.text();
    match e {
        RuntimeError::ActorNotFound(id) => {
            assert(text.subrange(text.len() - id@.len(), text.len() as int) =~= id@);
        },
        RuntimeError::AlreadyRunning(id) => {
            assert(text.subrange(text.len() - id@.len(), text.len() as int) =~= id@);
        },
        RuntimeError::Actor(inner) => {
            let shown = inner.text();
            assert(text.subrange(text.len() - shown.len(), text.len() as int) =~= shown);
        },
        RuntimeError::Send(reason) => {
            assert(text.subrange(text.len() - reason@.len(), text.len() as int) =~= reason@);
        },
        RuntimeError::Lock => {},
    }
}

impl From<ActorError> for RuntimeError {
    fn from(e: ActorError) -> (r: Self) {
        RuntimeError::Actor(e)
    }
}

impl FromSpecImpl<ActorError> for RuntimeError {
    open spec fn obeys_from_spec() -> bool {
        true
    }

    open spec fn from_spec(e: ActorError) -> Self {
        RuntimeError::Actor(e)
    }
}

} // verus!
