//! The address book of running actors.

use crate::actor::ActorId;
use crate::delivery::SharedHealth;
use crate::mailbox::MailboxTx;
use crate::table::Table;
use std::sync::atomic::{AtomicBool, Ordering};
use std::sync::Arc;
use vstd::prelude::*;

verus! {

/// Whether the flag was made unset.
pub open spec fn starts_unset(flag: AtomicBool) -> bool {
    call_ensures(AtomicBool::new, (false,), flag)
}

/// Whether the flag was set. It is shared with another task, so this says that
/// `true` was stored in it, and not what it holds from then on.
pub open spec fn was_raised(flag: AtomicBool) -> bool {
    call_ensures(AtomicBool::store, (&flag, true, Ordering::SeqCst), ())
}

/// A flag that was raised had `true` stored in it; one that starts unset was made
/// with `false`.
pub proof fn a_raised_flag_had_true_stored_in_it(flag: AtomicBool)
    ensures
        was_raised(flag) ==> call_ensures(AtomicBool::store, (&flag, true, Ordering::SeqCst), ()),
        starts_unset(flag) ==> call_ensures(AtomicBool::new, (false,), flag),
{
}

/// A running actor's entry: its identity, its type, the mailbox to deliver into,
/// its health counters, and a stop flag shared with its supervisor.
///
/// The stop flag is how a supervisor tells an intentional shutdown from a death:
/// a deliberate stop sets it before the mailbox closes, so an exit with the flag
/// unset is a death.
#[derive(Debug)]
pub struct ActorHandle {
    id: ActorId,
    actor_type: String,
    mailbox: MailboxTx,
    health: SharedHealth,
    stopping: Arc<AtomicBool>,
}

/// What an [`ActorHandle`] holds.
pub struct HandleModel {
    pub id: Seq<char>,
    pub actor_type: Seq<char>,
    pub mailbox: MailboxTx,
    pub health: SharedHealth,
    pub stopping: Arc<AtomicBool>,
}

impl View for ActorHandle {
    type V = HandleModel;

    closed spec fn view(&self) -> HandleModel {
        HandleModel {
            id: self.id@,
            actor_type: self.actor_type@,
            mailbox: self.mailbox,
            health: self.health,
            stopping: self.stopping,
        }
    }
}

impl ActorHandle {
    /// An entry with a stop flag of its own, not yet set.
    pub fn new(id: ActorId, actor_type: &str, mailbox: MailboxTx, health: SharedHealth) -> (h: Self)
        ensures
            h@.id == id@,
            h@.actor_type == actor_type@,
            h@.mailbox == mailbox,
            h@.health == health,
            starts_unset(*h@.stopping),
    {
        ActorHandle::new_sharing(id, actor_type, mailbox, health, Arc::new(AtomicBool::new(false)))
    }

    /// An entry that reuses the given stop flag, so that a revived node shares
    /// the flag its supervisor already reads.
    pub fn new_sharing(
        id: ActorId,
        actor_type: &str,
        mailbox: MailboxTx,
        health: SharedHealth,
        stopping: Arc<AtomicBool>,
    ) -> (h: Self)
        ensures
            h@ == (HandleModel { id: id@, actor_type: actor_type@, mailbox, health, stopping }),
    {
        ActorHandle { id, actor_type: actor_type.to_owned(), mailbox, health, stopping }
    }

    pub fn id(&self) -> (id: &ActorId)
        ensures
            id@ == self@.id,
    {
        &self.id
    }

    pub fn actor_type(&self) -> (s: &str)
        ensures
            s@ == self@.actor_type,
    {
        self.actor_type.as_str()
    }

    pub fn mailbox(&self) -> (tx: &MailboxTx)
        ensures
            *tx == self@.mailbox,
    {
        &self.mailbox
    }

    pub fn health(&self) -> (h: &SharedHealth)
        ensures
            *h == self@.health,
    {
        &self.health
    }

    /// The stop flag, shared with the node's supervisor.
    pub fn stopping(&self) -> (flag: Arc<AtomicBool>)
        ensures
            flag == self@.stopping,
    {
        Arc::clone(&self.stopping)
    }

    /// Marks the node as intentionally stopping, so that its supervisor treats
    /// the exit that follows as a clean shutdown.
    pub fn mark_stopping(&self)
        ensures
            was_raised(*self@.stopping),
    {
        self.stopping.store(true, Ordering::SeqCst);
    }
}

impl ActorHandle {
    /// Drops the entry, and its sender with it.
    fn end(self)
        requires
            was_raised(*self@.stopping),
        ensures
            was_raised(*self@.stopping),
    {
    }

    /// Lets go of the entry of a stopped node, and of its sender with it. Only an
    /// entry whose stop flag was raised is let go of, so its mailbox closes no
    /// sooner than that.
    pub fn let_go(self)
        requires
            was_raised(*self@.stopping),
        ensures
            was_let_go(self),
    {
        self.end()
    }
}

/// Whether this entry was dropped, which is done only once its stop flag was
/// raised.
pub closed spec fn was_let_go(entry: ActorHandle) -> bool {
    call_ensures(ActorHandle::end, (entry,), ())
}

/// An entry that was let go of was given up itself.
proof fn what_was_let_go_of_was_given_up(entry: ActorHandle)
    requires
        was_let_go(entry),
    ensures
        call_ensures(ActorHandle::end, (entry,), ()),
{
}

/// A stopped node's sender is never dropped before its stop flag is raised, so that
/// when its mailbox closes the exit reads as a clean shutdown.
pub proof fn an_entry_is_let_go_of_only_with_its_flag_raised(entry: ActorHandle)
    requires
        was_let_go(entry),
    ensures
        was_raised(*entry@.stopping),
{
}

impl Clone for ActorHandle {
    fn clone(&self) -> (other: Self)
        ensures
            other@.id == self@.id,
            other@.actor_type == self@.actor_type,
            other@.mailbox.channel() == self@.mailbox.channel(),
            other@.health == self@.health,
            other@.stopping == self@.stopping,
    {
        ActorHandle {
            id: self.id.clone(),
            actor_type: self.actor_type.clone(),
            mailbox: self.mailbox.clone(),
            health: Arc::clone(&self.health),
            stopping: Arc::clone(&self.stopping),
        }
    }
}

/// The running actors, by identity.
pub struct ActorRegistry {
    actors: Table<ActorHandle>,
}

impl View for ActorRegistry {
    type V = Map<Seq<char>, ActorHandle>;

    closed spec fn view(&self) -> Map<Seq<char>, ActorHandle> {
        self.actors@
    }
}

impl ActorRegistry {
    /// Every entry stands under its own identity.
    pub closed spec fn wf(&self) -> bool {
        &&& self.actors.wf()
        &&& forall|k: Seq<char>| #[trigger]
            self.actors@.contains_key(k) ==> self.actors@[k]@.id == k
    }

    /// What is found under an identity bears that identity.
    pub proof fn an_entry_stands_under_its_own_id(&self, id: Seq<char>)
        requires
            self.wf(),
            self@.contains_key(id),
        ensures
            self@[id]@.id == id,
    {
    }

    /// What is registered is found until it is removed, and then no more; no
    /// other entry is touched by either.
    pub proof fn an_entry_resolves_until_it_is_removed(
        entries: Map<Seq<char>, ActorHandle>,
        handle: ActorHandle,
        other: Seq<char>,
    )
        requires
            other != handle@.id,
        ensures
            ({
                let with = entries.insert(handle@.id, handle);
                let without = with.remove(handle@.id);
                &&& with.contains_key(handle@.id) && with[handle@.id] == handle
                &&& !without.contains_key(handle@.id)
                &&& with.contains_key(other) == entries.contains_key(other)
                &&& without.contains_key(other) == entries.contains_key(other)
                &&& entries.contains_key(other) ==> with[other] == entries[other]
                    && without[other] == entries[other]
            }),
    {
    }

    pub fn new() -> (r: Self)
        ensures
            r.wf(),
            r@ == Map::<Seq<char>, ActorHandle>::empty(),
    {
        ActorRegistry { actors: Table::new() }
    }

    /// Adds an entry, in place of any earlier one of the same identity.
    pub fn insert(&mut self, handle: ActorHandle)
        requires
            old(self).wf(),
        ensures
            final(self).wf(),
            final(self)@ == old(self)@.insert(handle@.id, handle),
    {
        let key = handle.id.as_str().to_owned();
        self.actors.insert(key, handle);
    }

    pub fn get(&self, id: &ActorId) -> (handle: Option<&ActorHandle>)
        requires
            self.wf(),
        ensures
            match handle {
                Some(h) => self@.contains_key(id@) && *h == self@[id@] && h@.id == id@,
                None => !self@.contains_key(id@),
            },
    {
        self.actors.get(id.as_str())
    }

    pub fn remove(&mut self, id: &ActorId) -> (handle: Option<ActorHandle>)
        requires
            old(self).wf(),
        ensures
            final(self).wf(),
            final(self)@ == old(self)@.remove(id@),
            match handle {
                Some(h) => old(self)@.contains_key(id@) && h == old(self)@[id@] && h@.id == id@,
                None => !old(self)@.contains_key(id@),
            },
    {
        self.actors.remove(id.as_str())
    }

    pub fn contains(&self, id: &ActorId) -> (b: bool)
        requires
            self.wf(),
        ensures
            b == self@.contains_key(id@),
    {
        self.actors.contains(id.as_str())
    }
}

impl Default for ActorRegistry {
    fn default() -> (r: Self)
        ensures
            r.wf(),
            r@ == Map::<Seq<char>, ActorHandle>::empty(),
    {
        ActorRegistry::new()
    }
}

} // verus!
