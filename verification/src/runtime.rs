//! Spawning, addressing and stopping actors.

use crate::actor::{ActorConfig, ActorContext, ActorError, ActorId, FailurePolicy, Message, OutputPorts};
use crate::correlation::{minted, CorrelationIds, CorrelationScope};
use crate::counter::bumped;
use crate::delivery::{was_current, Ack, Counts, Delivery, Health, SharedHealth};
use crate::error::RuntimeError;
use crate::mailbox::{mailbox, MailboxRx, MailboxTx, WeakMailboxTx};
use crate::registry::{starts_unset, was_let_go, was_raised, ActorHandle, ActorRegistry};
use crate::supervisor::{Phase, RestartControl, Supervisor, SupervisorModel};
use crate::table::Table;
use std::sync::atomic::AtomicBool;
use std::sync::{Arc, Mutex};
use vstd::prelude::*;

verus! {

/// How many deliveries an actor's mailbox buffers.
pub const MAILBOX_CAPACITY: usize = 32;

/// Makes actors of one type. The host implements it, along with the capability
/// bag that actors are made from.
pub trait ActorCreator: Sized {
    /// A running actor.
    type Actor;

    /// What an actor is granted beyond receiving messages.
    type Capabilities;

    /// Where an actor's output goes.
    type Emit;

    /// Where messages go that a node can no longer process.
    type Sink;

    /// Builds an actor from its configuration and capabilities.
    fn create(&self, config: &ActorConfig, caps: &Self::Capabilities) -> Result<
        Self::Actor,
        ActorError,
    >;

    /// The ports an actor of this configuration may emit on.
    fn output_ports(&self, config: &ActorConfig) -> OutputPorts;

    /// Another handle on the same creator.
    fn share(&self) -> Self;

    /// The bag with a timer that delivers into the actor's own mailbox.
    fn with_schedule(
        caps: Self::Capabilities,
        mailbox: WeakMailboxTx,
        health: SharedHealth,
    ) -> Self::Capabilities;

    /// The output granted by the bag.
    fn emit(caps: &Self::Capabilities) -> Self::Emit;

    /// The dead-letter sink granted by the bag, if there is one.
    fn dead_letter(caps: &Self::Capabilities) -> Option<Self::Sink>;
}

/// The creators known to a runtime, by type name.
pub struct ActorFactory<C> {
    creators: Table<C>,
}

impl<C> View for ActorFactory<C> {
    type V = Map<Seq<char>, C>;

    closed spec fn view(&self) -> Map<Seq<char>, C> {
        self.creators@
    }
}

impl<C> ActorFactory<C> {
    pub closed spec fn wf(&self) -> bool {
        self.creators.wf()
    }

    pub fn new() -> (f: Self)
        ensures
            f.wf(),
            f@ == Map::<Seq<char>, C>::empty(),
    {
        ActorFactory { creators: Table::new() }
    }

    /// Registers a creator, in place of any earlier one of the same name.
    pub fn register(&mut self, name: &str, creator: C)
        requires
            old(self).wf(),
        ensures
            final(self).wf(),
            final(self)@ == old(self)@.insert(name@, creator),
    {
        self.creators.insert(name.to_owned(), creator);
    }

    /// The creator registered under `name`.
    pub fn creator(&self, name: &str) -> (r: Result<&C, ActorError>)
        requires
            self.wf(),
        ensures
            match r {
                Ok(c) => self@.contains_key(name@) && *c == self@[name@],
                Err(e) => !self@.contains_key(name@) && (e matches ActorError::UnknownType(n) && n@
                    == name@),
            },
    {
        match self.creators.get(name) {
            Some(c) => Ok(c),
            None => Err(ActorError::UnknownType(name.to_owned())),
        }
    }
}

/// Puts counters behind a lock, by `std::sync::Mutex::new`. What a lock guards
/// is read and changed by its holders, so nothing is said of it here.
#[verifier::external_body]
fn guarded(health: Health) -> (lock: Mutex<Health>) {
    Mutex::new(health)
}

/// Whether this lock was made around these counters.
pub closed spec fn was_guarded(health: Health, lock: Mutex<Health>) -> bool {
    call_ensures(guarded, (health,), lock)
}

/// A lock that was made around counters was made around these.
proof fn what_was_guarded_was_put_behind_the_lock(health: Health, lock: Mutex<Health>)
    requires
        was_guarded(health, lock),
    ensures
        call_ensures(guarded, (health,), lock),
{
}

/// Whether nothing was counted yet when these counters were put behind their
/// lock.
pub open spec fn starts_at_zero(shared: SharedHealth) -> bool {
    exists|health: Health| health@ == Counts::zero() && #[trigger] was_guarded(health, *shared)
}

/// What it takes to build one more incarnation of a node.
pub struct Rebuild<C: ActorCreator> {
    pub creator: C,
    pub caps: C::Capabilities,
    pub config: ActorConfig,
}

/// An actor that was made but does not run yet.
pub struct Spawning<C: ActorCreator> {
    pub actor: C::Actor,
    /// The context it is set up and torn down in.
    pub ctx: ActorContext,
    pub actor_id: ActorId,
    pub actor_type: String,
    pub tx: MailboxTx,
    pub rx: MailboxRx,
    pub health: SharedHealth,
    pub output_ports: OutputPorts,
    pub failure: FailurePolicy,
    pub emit: C::Emit,
    pub dead_letter: Option<C::Sink>,
    /// Kept for a node that has a restart budget.
    pub rebuild: Option<Rebuild<C>>,
}

impl<C: ActorCreator> Spawning<C> {
    /// Whether this is the actor of the given identity, type and configuration,
    /// with a mailbox of the standard capacity and what a rebuild needs exactly
    /// where the configuration grants a restart budget.
    pub open spec fn prepared(
        &self,
        actor_id: ActorId,
        actor_type: Seq<char>,
        config: ActorConfig,
    ) -> bool {
        &&& self.actor_id == actor_id
        &&& self.actor_type@ == actor_type
        &&& (*self.ctx.execution_id)@ == actor_id@
        &&& (*self.ctx.node_id)@ == actor_id@
        &&& self.ctx.task_id == 0
        &&& self.tx.channel().bound == MAILBOX_CAPACITY
        &&& self.rx.channel() == self.tx.channel()
        &&& starts_at_zero(self.health)
        &&& self.failure == config.failure
        &&& self.rebuild is Some <==> config.failure.restart.max_restarts > 0
        &&& self.rebuild matches Some(rebuild) ==> rebuild.config.same_as(config)
    }

    /// Whether all this was made by the creator, from the capabilities the caller
    /// granted and a timer on the actor's own mailbox and counters; what a rebuild
    /// needs is the same creator and the same capabilities.
    pub open spec fn made_by(&self, creator: C, config: ActorConfig, caps: C::Capabilities) -> bool {
        exists|timer: WeakMailboxTx, full: C::Capabilities|
            {
                &&& timer.channel() == self.tx.channel()
                &&& #[trigger] call_ensures(C::with_schedule, (caps, timer, self.health), full)
                &&& call_ensures(C::create, (&creator, &config, &full), Ok(self.actor))
                &&& call_ensures(C::output_ports, (&creator, &config), self.output_ports)
                &&& call_ensures(C::emit, (&full,), self.emit)
                &&& call_ensures(C::dead_letter, (&full,), self.dead_letter)
                &&& self.rebuild matches Some(rebuild) ==> {
                    &&& rebuild.caps == full
                    &&& call_ensures(C::share, (&creator,), rebuild.creator)
                }
            }
    }
}

/// What the caller gets of a node that is about to run.
pub struct Committed {
    pub mailbox: MailboxTx,
    pub health: SharedHealth,
    pub output_ports: OutputPorts,
}

/// What a restart supervisor keeps in order to rebuild its node.
pub struct RestartRecipe<C: ActorCreator> {
    pub rebuild: Rebuild<C>,
    pub actor_type: String,
    pub ctx: ActorContext,
    pub node: ActorId,
    pub failure: FailurePolicy,
    pub emit: C::Emit,
    pub dead_letter: Option<C::Sink>,
}

impl<C: ActorCreator> RestartRecipe<C> {
    /// Builds a fresh actor from the creator, configuration and capabilities the
    /// spawn used. What comes of it is the creator's answer.
    pub fn build(&self) -> (actor: Result<C::Actor, ActorError>)
        ensures
            call_ensures(
                C::create,
                (&self.rebuild.creator, &self.rebuild.config, &self.rebuild.caps),
                actor,
            ),
    {
        self.rebuild.creator.create(&self.rebuild.config, &self.rebuild.caps)
    }
}

/// The task a committed node runs on.
pub enum Launch<C: ActorCreator> {
    /// A node with no restart budget: the lean loop, and a watcher for its exit.
    Lean {
        actor: C::Actor,
        ctx: ActorContext,
        rx: MailboxRx,
        failure: FailurePolicy,
        emit: C::Emit,
        dead_letter: Option<C::Sink>,
        node: ActorId,
        health: SharedHealth,
        stopping: Arc<AtomicBool>,
    },
    /// A node with a restart budget: one task that owns the mailbox and rebuilds
    /// the actor. The weak sender lets a revived node be registered again without
    /// keeping the mailbox open.
    Supervised {
        actor: C::Actor,
        recipe: RestartRecipe<C>,
        rx: MailboxRx,
        tx: WeakMailboxTx,
        supervisor: Supervisor,
        control: RestartControl,
        health: SharedHealth,
        stopping: Arc<AtomicBool>,
    },
}

/// Whether the creator refused to make an actor of this configuration, from the
/// capabilities the caller granted and a timer.
pub open spec fn refused_by<C: ActorCreator>(
    creator: C,
    config: ActorConfig,
    caps: C::Capabilities,
    e: ActorError,
) -> bool {
    exists|timer: WeakMailboxTx, health: SharedHealth, full: C::Capabilities|
        {
            &&& #[trigger] call_ensures(C::with_schedule, (caps, timer, health), full)
            &&& call_ensures(C::create, (&creator, &config, &full), Err(e))
        }
}

/// The creators and the running actors of one runtime.
pub struct Runtime<C: ActorCreator> {
    pub factory: ActorFactory<C>,
    pub registry: ActorRegistry,
}

impl<C: ActorCreator> Runtime<C> {
    pub open spec fn wf(&self) -> bool {
        self.factory.wf() && self.registry.wf()
    }

    pub fn new() -> (rt: Self)
        ensures
            rt.wf(),
            rt.factory@ == Map::<Seq<char>, C>::empty(),
            rt.registry@ == Map::<Seq<char>, ActorHandle>::empty(),
    {
        Runtime { factory: ActorFactory::new(), registry: ActorRegistry::new() }
    }

    /// Registers a creator under a type name.
    pub fn register(&mut self, actor_type: &str, creator: C)
        requires
            old(self).wf(),
        ensures
            final(self).wf(),
            final(self).factory@ == old(self).factory@.insert(actor_type@, creator),
            final(self).registry@ == old(self).registry@,
    {
        self.factory.register(actor_type, creator);
    }

    /// Whether an actor of that identity is running.
    pub fn registry_contains(&self, id: &ActorId) -> (b: bool)
        requires
            self.wf(),
        ensures
            b == self.registry@.contains_key(id@),
    {
        self.registry.contains(id)
    }

    /// The creator of a node that may be spawned: its identity is free and its
    /// type is known.
    pub fn creator_for(&self, actor_id: &ActorId, actor_type: &str) -> (r: Result<&C, RuntimeError>)
        requires
            self.wf(),
        ensures
            if self.registry@.contains_key(actor_id@) {
                r matches Err(e) && e == RuntimeError::AlreadyRunning(*actor_id)
            } else if !self.factory@.contains_key(actor_type@) {
                r matches Err(RuntimeError::Actor(ActorError::UnknownType(name))) && name@
                    == actor_type@
            } else {
                r matches Ok(creator) && *creator == self.factory@[actor_type@]
            },
    {
        if self.registry_contains(actor_id) {
            return Err(RuntimeError::AlreadyRunning(actor_id.clone()));
        }
        match self.factory.creator(actor_type) {
            Ok(creator) => Ok(creator),
            Err(e) => Err(RuntimeError::Actor(e)),
        }
    }

    /// Makes an actor and its mailbox without running or registering it.
    pub fn prepare(
        &self,
        actor_id: ActorId,
        actor_type: &str,
        config: &ActorConfig,
        caps: C::Capabilities,
    ) -> (r: Result<Spawning<C>, RuntimeError>)
        requires
            self.wf(),
        ensures
            if self.registry@.contains_key(actor_id@) {
                r matches Err(e) && e == RuntimeError::AlreadyRunning(actor_id)
            } else if !self.factory@.contains_key(actor_type@) {
                r matches Err(RuntimeError::Actor(ActorError::UnknownType(name))) && name@
                    == actor_type@
            } else {
                let creator = self.factory@[actor_type@];
                match r {
                    Ok(s) => {
                        &&& s.prepared(actor_id, actor_type@, *config)
                        &&& s.made_by(creator, *config, caps)
                    },
                    Err(e) => e matches RuntimeError::Actor(refusal) && refused_by(
                        creator,
                        *config,
                        caps,
                        refusal,
                    ),
                }
            },
    {
        match self.creator_for(&actor_id, actor_type) {
            Ok(creator) => Self::make(creator, actor_id, actor_type, config, caps),
            Err(e) => Err(e),
        }
    }

    /// Makes an actor and its mailbox by the given creator. The mailbox exists
    /// before the actor does, so that its timer can deliver there. Nothing of the
    /// runtime is read or changed, so a slow creator holds nobody up.
    pub fn make(
        creator: &C,
        actor_id: ActorId,
        actor_type: &str,
        config: &ActorConfig,
        caps: C::Capabilities,
    ) -> (r: Result<Spawning<C>, RuntimeError>)
        ensures
            match r {
                Ok(s) => {
                    &&& s.prepared(actor_id, actor_type@, *config)
                    &&& s.made_by(*creator, *config, caps)
                },
                Err(e) => e matches RuntimeError::Actor(refusal) && refused_by(
                    *creator,
                    *config,
                    caps,
                    refusal,
                ),
            },
    {
        let (tx, rx) = mailbox(MAILBOX_CAPACITY);
        let counters = Health::default();
        let ghost zero = counters;
        let health: SharedHealth = Arc::new(guarded(counters));
        assert(was_guarded(zero, *health));
        let timer = tx.downgrade();
        let ghost granted = caps;
        let full = C::with_schedule(caps, timer, Arc::clone(&health));
        assert(call_ensures(C::with_schedule, (granted, timer, health), full));
        let created = creator.create(config, &full);
        Self::assemble(creator, created, actor_id, actor_type, config, full, tx, rx, health)
    }

    /// Puts together what was made for an actor. The creator's refusal is passed
    /// on; otherwise the parts are kept as they came, and a restart budget keeps
    /// what a rebuild needs.
    pub fn assemble(
        creator: &C,
        created: Result<C::Actor, ActorError>,
        actor_id: ActorId,
        actor_type: &str,
        config: &ActorConfig,
        caps: C::Capabilities,
        tx: MailboxTx,
        rx: MailboxRx,
        health: SharedHealth,
    ) -> (r: Result<Spawning<C>, RuntimeError>)
        ensures
            match created {
                Err(e) => r matches Err(refused) && refused == RuntimeError::Actor(e),
                Ok(actor) => r matches Ok(s) && {
                    &&& s.actor == actor
                    &&& s.actor_id == actor_id
                    &&& s.actor_type@ == actor_type@
                    &&& (*s.ctx.execution_id)@ == actor_id@
                    &&& (*s.ctx.node_id)@ == actor_id@
                    &&& s.ctx.task_id == 0
                    &&& s.tx == tx
                    &&& s.rx == rx
                    &&& s.health == health
                    &&& s.failure == config.failure
                    &&& call_ensures(C::output_ports, (creator, config), s.output_ports)
                    &&& call_ensures(C::emit, (&caps,), s.emit)
                    &&& call_ensures(C::dead_letter, (&caps,), s.dead_letter)
                    &&& s.rebuild is Some <==> config.failure.restart.max_restarts > 0
                    &&& s.rebuild matches Some(rebuild) ==> {
                        &&& call_ensures(C::share, (creator,), rebuild.creator)
                        &&& rebuild.caps == caps
                        &&& rebuild.config.same_as(*config)
                    }
                },
            },
    {
        let actor = match created {
            Ok(actor) => actor,
            Err(e) => {
                return Err(RuntimeError::Actor(e));
            },
        };
        let output_ports = creator.output_ports(config);
        let emit = C::emit(&caps);
        let dead_letter = C::dead_letter(&caps);
        let ctx = ActorContext::for_node(&actor_id);
        let rebuild = if config.failure.restart.max_restarts > 0 {
            Some(Rebuild { creator: creator.share(), caps, config: config.clone() })
        } else {
            None
        };
        Ok(
            Spawning {
                actor,
                ctx,
                actor_id,
                actor_type: actor_type.to_owned(),
                tx,
                rx,
                health,
                output_ports,
                failure: config.failure,
                emit,
                dead_letter,
                rebuild,
            },
        )
    }

    /// Registers a prepared and set-up actor as a routable target, and says what
    /// task to run it on. Another spawn may have taken the identity in the
    /// meantime; the prepared actor is then dropped.
    pub fn commit(&mut self, spawning: Spawning<C>) -> (r: Result<
        (Committed, Launch<C>),
        RuntimeError,
    >)
        requires
            old(self).wf(),
        ensures
            final(self).wf(),
            final(self).factory@ == old(self).factory@,
            ({
                let id = spawning.actor_id@;
                if old(self).registry@.contains_key(id) {
                    &&& final(self).registry@ == old(self).registry@
                    &&& r matches Err(e) && e == RuntimeError::AlreadyRunning(spawning.actor_id)
                } else {
                    let entry = final(self).registry@[id]@;
                    &&& final(self).registry@.dom() == old(self).registry@.dom().insert(id)
                    &&& final(self).registry@.remove(id) == old(self).registry@
                    &&& entry.id == id
                    &&& entry.actor_type == spawning.actor_type@
                    &&& entry.mailbox.channel() == spawning.tx.channel()
                    &&& entry.health == spawning.health
                    &&& starts_unset(*entry.stopping)
                    &&& r matches Ok((committed, launch)) && {
                        &&& committed == Committed {
                            mailbox: spawning.tx,
                            health: spawning.health,
                            output_ports: spawning.output_ports,
                        }
                        &&& launched(spawning, entry.stopping, launch)
                    }
                }
            }),
    {
        if self.registry.contains(&spawning.actor_id) {
            return Err(RuntimeError::AlreadyRunning(spawning.actor_id));
        }
        let Spawning {
            actor,
            ctx,
            actor_id,
            actor_type,
            tx,
            rx,
            health,
            output_ports,
            failure,
            emit,
            dead_letter,
            rebuild,
        } = spawning;
        let handle = ActorHandle::new(
            actor_id.clone(),
            actor_type.as_str(),
            tx.clone(),
            Arc::clone(&health),
        );
        let stopping = handle.stopping();
        let launch = match rebuild {
            Some(rebuild) => {
                let recipe = RestartRecipe {
                    rebuild,
                    actor_type,
                    ctx,
                    node: actor_id,
                    failure,
                    emit,
                    dead_letter,
                };
                Launch::Supervised {
                    actor,
                    recipe,
                    rx,
                    tx: tx.downgrade(),
                    supervisor: Supervisor::new(&failure),
                    control: RestartControl::new(),
                    health: Arc::clone(&health),
                    stopping,
                }
            },
            None => {
                Launch::Lean {
                    actor,
                    ctx,
                    rx,
                    failure,
                    emit,
                    dead_letter,
                    node: actor_id,
                    health: Arc::clone(&health),
                    stopping,
                }
            },
        };
        self.registry.insert(handle);
        assert(self.registry@.remove(spawning.actor_id@) =~= old(self).registry@);
        Ok((Committed { mailbox: tx, health, output_ports }, launch))
    }

    /// Addresses a message to a running actor: the mailbox to send into, and the
    /// delivery to send, acknowledged on the actor's own counters.
    pub fn deliver(
        &self,
        actor_id: &ActorId,
        msg: Message,
        scope: &CorrelationScope,
        ids: &mut CorrelationIds,
    ) -> (r: Result<(MailboxTx, Delivery), RuntimeError>)
        requires
            self.wf(),
        ensures
            if self.registry@.contains_key(actor_id@) {
                let entry = self.registry@[actor_id@]@;
                r matches Ok((tx, delivery)) && {
                    &&& tx.channel() == entry.mailbox.channel()
                    &&& delivery.msg == msg
                    &&& delivery.ack == Ack::Health(entry.health)
                    &&& was_current(delivery.span)
                    &&& delivery.attempts == 1
                    &&& match scope.in_scope() {
                        Some(current) => delivery.correlation == current && final(ids).upcoming()
                            == old(ids).upcoming(),
                        None => delivery.correlation@ == minted(old(ids).upcoming())
                            && final(ids).upcoming() == bumped(old(ids).upcoming()),
                    }
                }
            } else {
                &&& r matches Err(e) && e == RuntimeError::ActorNotFound(*actor_id)
                &&& final(ids).upcoming() == old(ids).upcoming()
            },
    {
        match self.registry.get(actor_id) {
            Some(handle) => {
                let tx = handle.mailbox().clone();
                let ack = Ack::Health(Arc::clone(handle.health()));
                Ok((tx, Delivery::new(msg, ack, scope, ids)))
            },
            None => Err(RuntimeError::ActorNotFound(actor_id.clone())),
        }
    }

    /// Takes an actor out of the address book and marks it as stopping. The entry
    /// comes back with its flag raised and its sender still held, so the actor's
    /// mailbox cannot have closed yet on its account.
    pub fn retire(&mut self, actor_id: &ActorId) -> (r: Result<ActorHandle, RuntimeError>)
        requires
            old(self).wf(),
        ensures
            final(self).wf(),
            final(self).factory@ == old(self).factory@,
            final(self).registry@ == old(self).registry@.remove(actor_id@),
            if old(self).registry@.contains_key(actor_id@) {
                r matches Ok(handle) && handle == old(self).registry@[actor_id@] && was_raised(
                    *handle@.stopping,
                )
            } else {
                r matches Err(e) && e == RuntimeError::ActorNotFound(*actor_id)
            },
    {
        match self.registry.remove(actor_id) {
            Some(handle) => {
                handle.mark_stopping();
                Ok(handle)
            },
            None => Err(RuntimeError::ActorNotFound(actor_id.clone())),
        }
    }

    /// Stops an actor: it is dropped from the address book and marked as stopping,
    /// and only then is its entry let go of, and its sender with it. So the exit
    /// that follows is no death.
    pub fn stop(&mut self, actor_id: &ActorId) -> (r: Result<(), RuntimeError>)
        requires
            old(self).wf(),
        ensures
            final(self).wf(),
            final(self).factory@ == old(self).factory@,
            final(self).registry@ == old(self).registry@.remove(actor_id@),
            if old(self).registry@.contains_key(actor_id@) {
                let entry = old(self).registry@[actor_id@];
                r is Ok && was_raised(*entry@.stopping) && was_let_go(entry)
            } else {
                r matches Err(e) && e == RuntimeError::ActorNotFound(*actor_id)
            },
    {
        match self.retire(actor_id) {
            Ok(handle) => {
                handle.let_go();
                Ok(())
            },
            Err(e) => Err(e),
        }
    }
}

impl<C: ActorCreator> Default for Runtime<C> {
    fn default() -> (rt: Self)
        ensures
            rt.wf(),
            rt.factory@ == Map::<Seq<char>, C>::empty(),
            rt.registry@ == Map::<Seq<char>, ActorHandle>::empty(),
    {
        Runtime::new()
    }
}

/// Whether this is the task of a committed actor: supervised exactly where the
/// actor can be rebuilt, with everything it was prepared with.
pub open spec fn launched<C: ActorCreator>(
    spawning: Spawning<C>,
    flag: Arc<AtomicBool>,
    launch: Launch<C>,
) -> bool {
    match launch {
        Launch::Lean {
            actor,
            ctx,
            rx,
            failure,
            emit,
            dead_letter,
            node,
            health,
            stopping,
        } => {
            &&& spawning.rebuild is None
            &&& actor == spawning.actor
            &&& ctx == spawning.ctx
            &&& rx == spawning.rx
            &&& failure == spawning.failure
            &&& emit == spawning.emit
            &&& dead_letter == spawning.dead_letter
            &&& node == spawning.actor_id
            &&& health == spawning.health
            &&& stopping == flag
        },
        Launch::Supervised { actor, recipe, rx, tx, supervisor, control, health, stopping } => {
            &&& spawning.rebuild == Some(recipe.rebuild)
            &&& actor == spawning.actor
            &&& recipe.actor_type == spawning.actor_type
            &&& recipe.ctx == spawning.ctx
            &&& recipe.node == spawning.actor_id
            &&& recipe.failure == spawning.failure
            &&& recipe.emit == spawning.emit
            &&& recipe.dead_letter == spawning.dead_letter
            &&& rx == spawning.rx
            &&& tx.channel() == spawning.tx.channel()
            &&& supervisor@ == SupervisorModel {
                policy: spawning.failure.restart,
                poison_after: spawning.failure.poison_after,
                restarts: 0,
                phase: Phase::Live,
            }
            &&& !control.forced()
            &&& !control.dead()
            &&& health == spawning.health
            &&& stopping == flag
        },
    }
}

/// A prepared actor is the one that was asked for: under its identity, type and
/// policy, with both ends of one mailbox of 32 places, counters at zero, and a
/// context that stands for itself. What a rebuild needs is kept exactly where there
/// is a restart to spend.
pub proof fn a_prepared_actor_is_what_was_asked_for<C: ActorCreator>(
    spawning: Spawning<C>,
    actor_id: ActorId,
    actor_type: Seq<char>,
    config: ActorConfig,
)
    requires
        spawning.prepared(actor_id, actor_type, config),
    ensures
        spawning.actor_id == actor_id,
        spawning.actor_type@ == actor_type,
        (*spawning.ctx.execution_id)@ == actor_id@,
        (*spawning.ctx.node_id)@ == actor_id@,
        spawning.ctx.task_id == 0,
        spawning.tx.channel().bound == 32,
        spawning.rx.channel() == spawning.tx.channel(),
        exists|health: Health|
            health@.handled == 0 && health@.errored == 0 && health@.died == 0 && health@.poisoned
                == 0 && health@.crashed == 0 && #[trigger] was_guarded(health, *spawning.health),
        spawning.failure == config.failure,
        spawning.rebuild is Some <==> config.failure.restart.max_restarts > 0,
        spawning.rebuild matches Some(rebuild) ==> {
            &&& rebuild.config.env@ == config.env@
            &&& rebuild.config.settings@ == config.settings@
            &&& rebuild.config.failure == config.failure
        },
{
    let health = choose|health: Health|
        health@ == Counts::zero() && #[trigger] was_guarded(health, *spawning.health);
    assert(was_guarded(health, *spawning.health));
}

/// An actor is made by its creator from the capabilities that were granted, with a
/// timer on its own mailbox and counters; its output and its sink come from the same
/// capabilities, and a rebuild would use them again, with the same creator.
pub proof fn an_actor_is_made_from_what_was_granted<C: ActorCreator>(
    spawning: Spawning<C>,
    creator: C,
    config: ActorConfig,
    caps: C::Capabilities,
) -> (full: C::Capabilities)
    requires
        spawning.made_by(creator, config, caps),
    ensures
        exists|timer: WeakMailboxTx|
            timer.channel() == spawning.tx.channel() && #[trigger] call_ensures(
                C::with_schedule,
                (caps, timer, spawning.health),
                full,
            ),
        call_ensures(C::create, (&creator, &config, &full), Ok(spawning.actor)),
        call_ensures(C::output_ports, (&creator, &config), spawning.output_ports),
        call_ensures(C::emit, (&full,), spawning.emit),
        call_ensures(C::dead_letter, (&full,), spawning.dead_letter),
        spawning.rebuild matches Some(rebuild) ==> rebuild.caps == full && call_ensures(
            C::share,
            (&creator,),
            rebuild.creator,
        ),
{
    let (timer, full) = choose|timer: WeakMailboxTx, full: C::Capabilities|
        {
            &&& timer.channel() == spawning.tx.channel()
            &&& #[trigger] call_ensures(C::with_schedule, (caps, timer, spawning.health), full)
            &&& call_ensures(C::create, (&creator, &config, &full), Ok(spawning.actor))
            &&& call_ensures(C::output_ports, (&creator, &config), spawning.output_ports)
            &&& call_ensures(C::emit, (&full,), spawning.emit)
            &&& call_ensures(C::dead_letter, (&full,), spawning.dead_letter)
            &&& spawning.rebuild matches Some(rebuild) ==> {
                &&& rebuild.caps == full
                &&& call_ensures(C::share, (&creator,), rebuild.creator)
            }
        };
    full
}

/// A refusal is the creator's own: it answered with this very error, on the
/// configuration that was given and capabilities made from those that were granted.
pub proof fn a_refusal_is_the_creators_own<C: ActorCreator>(
    creator: C,
    config: ActorConfig,
    caps: C::Capabilities,
    e: ActorError,
) -> (full: C::Capabilities)
    requires
        refused_by(creator, config, caps, e),
    ensures
        exists|timer: WeakMailboxTx, health: SharedHealth| #[trigger]
            call_ensures(C::with_schedule, (caps, timer, health), full),
        call_ensures(C::create, (&creator, &config, &full), Err(e)),
{
    let (timer, health, full) = choose|
        timer: WeakMailboxTx,
        health: SharedHealth,
        full: C::Capabilities,
    |
        {
            &&& #[trigger] call_ensures(C::with_schedule, (caps, timer, health), full)
            &&& call_ensures(C::create, (&creator, &config, &full), Err(e))
        };
    full
}

/// Nothing that was prepared is lost when an actor is launched, on either task: the
/// actor, its context, its mailbox, its policy, its output, its sink, its identity
/// and its counters are those it was prepared with, and the stop flag is the one of
/// its entry.
pub proof fn a_launch_keeps_everything_that_was_prepared<C: ActorCreator>(
    spawning: Spawning<C>,
    flag: Arc<AtomicBool>,
    launch: Launch<C>,
)
    requires
        launched(spawning, flag, launch),
    ensures
        launch is Supervised <==> spawning.rebuild is Some,
        launch matches Launch::Lean {
            actor,
            ctx,
            rx,
            failure,
            emit,
            dead_letter,
            node,
            health,
            stopping,
        } ==> {
            &&& actor == spawning.actor && ctx == spawning.ctx && rx == spawning.rx
            &&& failure == spawning.failure && emit == spawning.emit
            &&& dead_letter == spawning.dead_letter && node == spawning.actor_id
            &&& health == spawning.health && stopping == flag
        },
        launch matches Launch::Supervised {
            actor,
            recipe,
            rx,
            tx,
            supervisor,
            control,
            health,
            stopping,
        } ==> {
            &&& actor == spawning.actor && recipe.ctx == spawning.ctx && rx == spawning.rx
            &&& recipe.failure == spawning.failure && recipe.emit == spawning.emit
            &&& recipe.dead_letter == spawning.dead_letter && recipe.node == spawning.actor_id
            &&& recipe.actor_type == spawning.actor_type
            &&& Some(recipe.rebuild) == spawning.rebuild
            &&& tx.channel() == spawning.tx.channel()
            &&& health == spawning.health && stopping == flag
            &&& supervisor@.policy == spawning.failure.restart
            &&& supervisor@.poison_after == spawning.failure.poison_after
            &&& supervisor@.restarts == 0 && supervisor@.phase == Phase::Live
            &&& !control.forced() && !control.dead()
        },
{
}

/// A node runs under a restart supervisor exactly where its configuration grants
/// it a restart budget, and that supervisor starts with the whole of it.
pub proof fn a_node_is_supervised_exactly_when_it_has_a_budget<C: ActorCreator>(
    spawning: Spawning<C>,
    actor_id: ActorId,
    actor_type: Seq<char>,
    config: ActorConfig,
    flag: Arc<AtomicBool>,
    launch: Launch<C>,
)
    requires
        spawning.prepared(actor_id, actor_type, config),
        launched(spawning, flag, launch),
    ensures
        launch is Supervised <==> config.failure.restart.max_restarts > 0,
        launch matches Launch::Supervised { supervisor, .. } ==> supervisor@.policy
            == config.failure.restart && supervisor@.restarts == 0,
{
}

/// What to answer once a mailbox has taken a delivery or handed it back.
pub fn delivered(sent: Result<(), Delivery>) -> (r: Result<(), RuntimeError>)
    ensures
        match sent {
            Ok(()) => r is Ok,
            Err(_) => r matches Err(RuntimeError::Send(reason)) && reason@ == "mailbox closed"@,
        },
{
    match sent {
        Ok(()) => Ok(()),
        Err(_) => Err(RuntimeError::Send("mailbox closed".to_owned())),
    }
}

} // verus!
