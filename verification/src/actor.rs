//! The actor contract: identities, messages, errors, failure policies and the
//! context an actor is handed.

use crate::correlation::shared_text;
use crate::json::{Json, JsonModel};
use crate::text::{decimal, decimal_text};
use core::time::Duration;
use std::collections::BTreeMap;
use std::sync::Arc;
use vstd::prelude::*;
use vstd::std_specs::cmp::{PartialEqSpec, PartialEqSpecImpl};

verus! {

/// The output port reserved for error envelopes.
pub const ERROR_PORT: &'static str = "error";

/// A node's identity.
#[derive(Debug, Hash)]
pub struct ActorId(String);

impl View for ActorId {
    type V = Seq<char>;

    closed spec fn view(&self) -> Seq<char> {
        self.0@
    }
}

impl ActorId {
    pub fn new(id: &str) -> (r: Self)
        ensures
            r@ == id@,
    {
        ActorId(id.to_owned())
    }

    pub fn as_str(&self) -> (s: &str)
        ensures
            s@ == self@,
    {
        self.0.as_str()
    }
}

impl Clone for ActorId {
    fn clone(&self) -> (copy: Self)
        ensures
            copy == *self,
    {
        ActorId(self.0.clone())
    }
}

impl PartialEq for ActorId {
    fn eq(&self, other: &Self) -> (same: bool) {
        self.0 == other.0
    }
}

impl Eq for ActorId {

}

/// Two identities are equal exactly where their texts are.
pub proof fn equal_identities_have_the_same_text(a: ActorId, b: ActorId)
    ensures
        <ActorId as PartialEqSpec>::obeys_eq_spec(),
        PartialEqSpec::eq_spec(&a, &b) <==> a@ == b@,
{
}

impl PartialEqSpecImpl for ActorId {
    open spec fn obeys_eq_spec() -> bool {
        true
    }

    open spec fn eq_spec(&self, other: &Self) -> bool {
        self@ == other@
    }
}

/// What a message carries.
#[derive(Debug, PartialEq)]
pub enum MessageValue {
    Json(Json),
    Empty,
    Binary(Vec<u8>),
}

/// The meaning of a [`MessageValue`].
pub enum ValueModel {
    Json(JsonModel),
    Empty,
    Binary(Seq<u8>),
}

impl View for MessageValue {
    type V = ValueModel;

    open spec fn view(&self) -> ValueModel {
        match self {
            MessageValue::Json(v) => ValueModel::Json(v@),
            MessageValue::Empty => ValueModel::Empty,
            MessageValue::Binary(bytes) => ValueModel::Binary(bytes@),
        }
    }
}

impl Clone for MessageValue {
    fn clone(&self) -> (copy: Self)
        ensures
            copy@ == self@,
    {
        match self {
            MessageValue::Json(v) => MessageValue::Json(v.clone()),
            MessageValue::Empty => MessageValue::Empty,
            MessageValue::Binary(bytes) => {
                let copy = bytes.clone();
                assert(copy@ =~= bytes@);
                MessageValue::Binary(copy)
            },
        }
    }
}

/// A message between actors: what kind it is, and what it carries.
#[derive(Debug, PartialEq)]
pub struct Message {
    pub type_: String,
    pub value: MessageValue,
}

/// The meaning of a [`Message`].
pub struct MessageModel {
    pub type_: Seq<char>,
    pub value: ValueModel,
}

impl View for Message {
    type V = MessageModel;

    open spec fn view(&self) -> MessageModel {
        MessageModel { type_: self.type_@, value: self.value@ }
    }
}

/// Messages that mean the same are of the same type and carry the same: nothing, the
/// same bytes, or JSON that means the same.
pub proof fn messages_that_mean_the_same_carry_the_same(a: Message, b: Message)
    requires
        a@ == b@,
    ensures
        a.type_@ == b.type_@,
        a.value is Empty <==> b.value is Empty,
        a.value matches MessageValue::Json(v) ==> (b.value matches MessageValue::Json(w) && v@
            == w@),
        a.value matches MessageValue::Binary(v) ==> (b.value matches MessageValue::Binary(w) && v@
            == w@),
{
}

impl Message {
    /// A message that carries nothing but its type.
    pub fn empty(type_: &str) -> (m: Self)
        ensures
            m@ == (MessageModel { type_: type_@, value: ValueModel::Empty }),
    {
        Message { type_: type_.to_owned(), value: MessageValue::Empty }
    }

    /// A message that carries a JSON value.
    pub fn json(type_: &str, value: Json) -> (m: Self)
        ensures
            m@ == (MessageModel { type_: type_@, value: ValueModel::Json(value@) }),
    {
        Message { type_: type_.to_owned(), value: MessageValue::Json(value) }
    }

    /// A message that carries raw bytes.
    pub fn binary(type_: &str, bytes: Vec<u8>) -> (m: Self)
        ensures
            m@ == (MessageModel { type_: type_@, value: ValueModel::Binary(bytes@) }),
    {
        Message { type_: type_.to_owned(), value: MessageValue::Binary(bytes) }
    }
}

impl Clone for Message {
    fn clone(&self) -> (copy: Self)
        ensures
            copy@ == self@,
    {
        Message { type_: self.type_.clone(), value: self.value.clone() }
    }
}

/// Why an actor failed.
#[derive(Debug, PartialEq, Eq)]
pub enum ActorError {
    /// No creator is registered under this type name.
    UnknownType(String),
    /// `setup` failed.
    Setup(String),
    /// `handle` failed.
    Handle(String),
}

impl ActorError {
    /// The error as it is shown.
    pub open spec fn text(&self) -> Seq<char> {
        match self {
            ActorError::UnknownType(name) => "unknown actor type: "@ + name@,
            ActorError::Setup(reason) => "setup failed: "@ + reason@,
            ActorError::Handle(reason) => "handle failed: "@ + reason@,
        }
    }

    /// The error as it is shown.
    pub fn to_string(&self) -> (s: String)
        ensures
            s@ == self.text(),
            self matches ActorError::UnknownType(name) ==> s@ == "unknown actor type: "@ + name@,
            self matches ActorError::Setup(reason) ==> s@ == "setup failed: "@ + reason@,
            self matches ActorError::Handle(reason) ==> s@ == "handle failed: "@ + reason@,
    {
        match self {
            ActorError::UnknownType(name) => {
                let mut s = "unknown actor type: ".to_owned();
                s.append(name.as_str());
                s
            },
            ActorError::Setup(reason) => {
                let mut s = "setup failed: ".to_owned();
                s.append(reason.as_str());
                s
            },
            ActorError::Handle(reason) => {
                let mut s = "handle failed: ".to_owned();
                s.append(reason.as_str());
                s
            },
        }
    }
}

/// Whether `text` ends with `end`.
pub open spec fn ends_with(text: Seq<char>, end: Seq<char>) -> bool {
    text.len() >= end.len() && text.subrange(text.len() - end.len(), text.len() as int) == end
}

/// What is shown of an error ends with the whole of its reason.
pub proof fn an_actor_error_shows_its_reason(e: ActorError)
    ensures
        match e {
            ActorError::UnknownType(name) => ends_with(e.text(), name@),
            ActorError::Setup(reason) => ends_with(e.text(), reason@),
            ActorError::Handle(reason) => ends_with(e.text(), reason@),
        },
{
    let text = e.text();
    match e {
        ActorError::UnknownType(name) => {
            assert(text.subrange(text.len() - name@.len(), text.len() as int) =~= name@);
        },
        ActorError::Setup(reason) => {
            assert(text.subrange(text.len() - reason@.len(), text.len() as int) =~= reason@);
        },
        ActorError::Handle(reason) => {
            assert(text.subrange(text.len() - reason@.len(), text.len() as int) =~= reason@);
        },
    }
}

/// How long to wait before trying again.
#[derive(Debug, Clone, Copy, PartialEq, Eq)]
pub enum Backoff {
    /// Try again at once.
    Immediate,
    /// Wait the same time before each attempt.
    Fixed(Duration),
}

impl Backoff {
    pub fn fixed(delay: Duration) -> (b: Self)
        ensures
            b == Backoff::Fixed(delay),
    {
        Backoff::Fixed(delay)
    }

    /// The wait before the attempt that follows `attempt` earlier ones; `None`
    /// is no wait.
    pub fn delay_for(&self, attempt: u32) -> (delay: Option<Duration>)
        ensures
            delay == self.wait_after(attempt),
    {
        match self {
            Backoff::Immediate => None,
            Backoff::Fixed(delay) => Some(*delay),
        }
    }

    /// The wait before the attempt that follows `attempt` earlier ones. Whoever
    /// waits is held to asking by the right number, whatever the schedule makes of
    /// it.
    pub closed spec fn wait_after(&self, attempt: u32) -> Option<Duration> {
        self.wait()
    }

    /// The wait of a schedule that is the same before each attempt.
    pub open spec fn wait(&self) -> Option<Duration> {
        match self {
            Backoff::Immediate => None,
            Backoff::Fixed(delay) => Some(*delay),
        }
    }

    /// Either schedule waits the same time before each attempt: none, or the time
    /// it was made with.
    pub proof fn each_wait_is_the_same(&self, attempt: u32)
        ensures
            self.wait_after(attempt) == self.wait(),
            self is Immediate ==> self.wait_after(attempt) is None,
            self matches Backoff::Fixed(delay) ==> self.wait_after(attempt) == Some(*delay),
    {
    }
}

/// What to do with a handling that returned an error.
#[derive(Debug, Clone, Copy, PartialEq, Eq)]
pub enum OnError {
    /// Count it, drop the message and go on.
    Continue,
    /// Stop the node.
    Fail,
    /// Hand the same message over again, up to `max` more times.
    Retry { max: u32, backoff: Backoff },
    /// Divert an error envelope to the node's error port and go on.
    RouteToError,
}

/// How often a crashed node is rebuilt before it dies.
#[derive(Debug, Clone, Copy, PartialEq, Eq)]
pub struct RestartPolicy {
    pub max_restarts: u32,
    pub backoff: Backoff,
}

/// A node's failure policy.
#[derive(Debug, Clone, Copy, PartialEq, Eq)]
pub struct FailurePolicy {
    pub on_error: OnError,
    pub restart: RestartPolicy,
    /// A delivery that was handed over more often than this is quarantined;
    /// 0 switches quarantine off.
    pub poison_after: u32,
}

impl FailurePolicy {
    /// Count and drop errors, never restart, never quarantine.
    pub open spec fn lenient() -> FailurePolicy {
        FailurePolicy {
            on_error: OnError::Continue,
            restart: RestartPolicy { max_restarts: 0, backoff: Backoff::Immediate },
            poison_after: 0,
        }
    }

    /// Stop the node on the first error.
    pub fn fail() -> (p: Self)
        ensures
            p == (FailurePolicy { on_error: OnError::Fail, ..FailurePolicy::lenient() }),
            p.on_error is Fail && p.restart.max_restarts == 0 && p.poison_after == 0,
    {
        FailurePolicy {
            on_error: OnError::Fail,
            restart: RestartPolicy { max_restarts: 0, backoff: Backoff::Immediate },
            poison_after: 0,
        }
    }

    /// Retry an errored message up to `max` times.
    pub fn retry(max: u32, backoff: Backoff) -> (p: Self)
        ensures
            p == (FailurePolicy {
                on_error: OnError::Retry { max, backoff },
                ..FailurePolicy::lenient()
            }),
            p.on_error == (OnError::Retry { max, backoff }),
            p.restart.max_restarts == 0 && p.poison_after == 0,
    {
        FailurePolicy {
            on_error: OnError::Retry { max, backoff },
            restart: RestartPolicy { max_restarts: 0, backoff: Backoff::Immediate },
            poison_after: 0,
        }
    }

    /// Divert errors to the error port.
    pub fn route_to_error() -> (p: Self)
        ensures
            p == (FailurePolicy { on_error: OnError::RouteToError, ..FailurePolicy::lenient() }),
            p.on_error is RouteToError && p.restart.max_restarts == 0 && p.poison_after == 0,
    {
        FailurePolicy {
            on_error: OnError::RouteToError,
            restart: RestartPolicy { max_restarts: 0, backoff: Backoff::Immediate },
            poison_after: 0,
        }
    }

    /// Rebuild a crashed node up to `max_restarts` times.
    pub fn restart(max_restarts: u32, backoff: Backoff) -> (p: Self)
        ensures
            p == (FailurePolicy {
                restart: RestartPolicy { max_restarts, backoff },
                ..FailurePolicy::lenient()
            }),
            p.restart == (RestartPolicy { max_restarts, backoff }),
            p.on_error is Continue && p.poison_after == 0,
    {
        FailurePolicy {
            on_error: OnError::Continue,
            restart: RestartPolicy { max_restarts, backoff },
            poison_after: 0,
        }
    }

    /// Quarantine a delivery handed over more than `attempts` times.
    pub fn poison_after(attempts: u32) -> (p: Self)
        ensures
            p == (FailurePolicy { poison_after: attempts, ..FailurePolicy::lenient() }),
            p.poison_after == attempts,
            p.on_error is Continue && p.restart.max_restarts == 0,
    {
        FailurePolicy {
            on_error: OnError::Continue,
            restart: RestartPolicy { max_restarts: 0, backoff: Backoff::Immediate },
            poison_after: attempts,
        }
    }
}

/// The policy that nothing was asked of counts errors and goes on; it grants no
/// restart, would not wait before one, and quarantines nothing.
pub proof fn the_lenient_policy_only_counts()
    ensures
        FailurePolicy::lenient().on_error is Continue,
        FailurePolicy::lenient().restart.max_restarts == 0,
        FailurePolicy::lenient().restart.backoff is Immediate,
        FailurePolicy::lenient().poison_after == 0,
{
}

impl Default for FailurePolicy {
    fn default() -> (p: Self)
        ensures
            p == FailurePolicy::lenient(),
            p.on_error is Continue && p.restart.max_restarts == 0 && p.poison_after == 0,
    {
        FailurePolicy {
            on_error: OnError::Continue,
            restart: RestartPolicy { max_restarts: 0, backoff: Backoff::Immediate },
            poison_after: 0,
        }
    }
}

/// A node's configuration: its curated environment, its own settings, and the
/// failure policy the runtime applies around it.
#[derive(Debug)]
pub struct ActorConfig {
    pub env: BTreeMap<String, String>,
    pub settings: Json,
    pub failure: FailurePolicy,
}

impl ActorConfig {
    /// Whether two configurations say the same.
    pub open spec fn same_as(&self, other: ActorConfig) -> bool {
        &&& self.env@ == other.env@
        &&& self.settings@ == other.settings@
        &&& self.failure == other.failure
    }
}

impl Clone for ActorConfig {
    fn clone(&self) -> (copy: Self)
        ensures
            copy.same_as(*self),
            copy.env@ == self.env@,
            copy.settings@ == self.settings@,
            copy.failure == self.failure,
    {
        ActorConfig {
            env: self.env.clone(),
            settings: self.settings.clone(),
            failure: self.failure,
        }
    }
}

impl Default for ActorConfig {
    fn default() -> (c: Self)
        ensures
            c.env@ == Map::<String, String>::empty(),
            c.settings@ is Null,
            c.failure == FailurePolicy::lenient(),
    {
        ActorConfig {
            env: BTreeMap::new(),
            settings: Json::Null,
            failure: FailurePolicy::default(),
        }
    }
}

/// The ports a node may emit on, as its creator declares them.
#[derive(Debug, PartialEq, Eq)]
pub struct OutputPorts {
    pub names: Vec<String>,
}

/// The label a guest sees for the handling of this number.
pub open spec fn label(task_id: u64) -> Seq<char> {
    "task-"@ + decimal(task_id as nat)
}

/// What an actor is told about the handling it runs in: the run, its own
/// identity, and the number of this handling.
#[derive(Debug)]
pub struct ActorContext {
    pub execution_id: Arc<str>,
    pub node_id: Arc<str>,
    pub task_id: u64,
}

impl ActorContext {
    /// The context an actor is set up and torn down in: no run is under way, so
    /// the node's own id stands for it, and no handling, so the number is 0.
    pub fn for_node(id: &ActorId) -> (ctx: Self)
        ensures
            (*ctx.execution_id)@ == id@,
            (*ctx.node_id)@ == id@,
            ctx.task_id == 0,
    {
        let id = shared_text(id.as_str());
        ActorContext { execution_id: Arc::clone(&id), node_id: id, task_id: 0 }
    }

    /// The label a guest sees for this handling.
    pub fn task_label(&self) -> (label: String)
        ensures
            label@ == self::label(self.task_id),
            label@ == "task-"@ + decimal(self.task_id as nat),
    {
        let mut label = "task-".to_owned();
        label.append(decimal_text(self.task_id).as_str());
        label
    }
}

} // verus!
