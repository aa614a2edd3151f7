//! The run a message belongs to.

use crate::counter::{a_counter_repeats_only_after_a_full_round, bumped, counted_on};
use crate::text::{decimal, decimal_is_injective, decimal_text, same_text};
use std::sync::Arc;
use vstd::prelude::*;
use vstd::std_specs::cmp::{PartialEqSpec, PartialEqSpecImpl};
use vstd::std_specs::convert::FromSpecImpl;

verus! {

/// Copies `s` into a shared allocation, by `Arc::<str>::from(&str)`: the new
/// allocation holds the characters of `s`.
#[verifier::external_body]
pub(crate) fn shared_text(s: &str) -> (shared: Arc<str>)
    ensures
        (*shared)@ == s@,
{
    Arc::from(s)
}

/// Identifies the **run** a message belongs to: minted once at the trigger that
/// starts a run, then carried unchanged through every hop, so that an error, a
/// metric or a final result can be tied back to the request that caused it.
///
/// A clone shares the allocation of the id.
#[derive(Debug, Hash)]
pub struct CorrelationId(Arc<str>);

impl View for CorrelationId {
    type V = Seq<char>;

    closed spec fn view(&self) -> Seq<char> {
        (*self.0)@
    }
}

/// The source of fresh ids. It hands out each number once until it has gone
/// through all of them.
pub struct CorrelationIds {
    next: u64,
}

impl CorrelationIds {
    /// The number that the next fresh id will carry.
    pub closed spec fn upcoming(&self) -> u64 {
        self.next
    }

    /// A source that has minted nothing yet; the first number is 1.
    pub fn new() -> (ids: Self)
        ensures
            ids.upcoming() == 1,
    {
        CorrelationIds { next: 1 }
    }
}

/// The text of the id minted from the number `n`.
pub open spec fn minted(n: u64) -> Seq<char> {
    "cid-"@ + decimal(n as nat)
}

/// Ids minted from different numbers are different.
pub proof fn minted_ids_are_distinct(a: u64, b: u64)
    requires
        a != b,
    ensures
        minted(a) != minted(b),
{
    if minted(a) == minted(b) {
        let prefix = "cid-"@.len() as int;
        assert(minted(a).skip(prefix) =~= decimal(a as nat));
        assert(minted(b).skip(prefix) =~= decimal(b as nat));
        decimal_is_injective(a as nat, b as nat);
    }
}

/// A source mints no id twice: the ids of any two of its mints differ, until it
/// has gone through all its numbers.
pub proof fn a_source_mints_no_id_twice(first: u64, i: nat, j: nat)
    requires
        i < j,
        j - i <= u64::MAX,
    ensures
        minted(counted_on(first, i)) != minted(counted_on(first, j)),
{
    a_counter_repeats_only_after_a_full_round(first, i, j);
    minted_ids_are_distinct(counted_on(first, i), counted_on(first, j));
}

impl CorrelationId {
    /// Mints a fresh id: what a trigger calls when it has nothing external to
    /// correlate to.
    pub fn new(ids: &mut CorrelationIds) -> (id: Self)
        ensures
            id@ == minted(old(ids).upcoming()),
            id@ == "cid-"@ + decimal(old(ids).upcoming() as nat),
            final(ids).upcoming() == bumped(old(ids).upcoming()),
    {
        let n: u64 = ids.next;
        ids.next = n.wrapping_add(1);
        let mut text = "cid-".to_owned();
        text.append(decimal_text(n).as_str());
        CorrelationId(shared_text(text.as_str()))
    }

    /// The id as a string slice.
    pub fn as_str(&self) -> (s: &str)
        ensures
            s@ == self@,
    {
        &self.0
    }

    /// The shared id itself: no copy of the text is made.
    pub fn as_arc(&self) -> (shared: Arc<str>)
        ensures
            (*shared)@ == self@,
    {
        Arc::clone(&self.0)
    }

    /// The id as owned text.
    pub fn to_string(&self) -> (s: String)
        ensures
            s@ == self@,
    {
        self.as_str().to_owned()
    }

    /// The scope in which `self` is the current correlation. A delivery made
    /// inside it belongs to this run.
    pub fn scope(self) -> (scope: CorrelationScope)
        ensures
            scope.in_scope() == Some(self),
    {
        CorrelationScope { current: Some(self) }
    }

    /// The correlation in scope, if one is set.
    pub fn current(scope: &CorrelationScope) -> (id: Option<CorrelationId>)
        ensures
            id == scope.in_scope(),
    {
        match &scope.current {
            Some(id) => Some(id.clone()),
            None => None,
        }
    }
}

/// The correlation in scope on a task, set for the duration of each handling.
pub struct CorrelationScope {
    current: Option<CorrelationId>,
}

impl CorrelationScope {
    /// The correlation in scope, if one is set.
    pub closed spec fn in_scope(&self) -> Option<CorrelationId> {
        self.current
    }

    /// A scope with no run in it.
    pub fn none() -> (scope: Self)
        ensures
            scope.in_scope() is None,
    {
        CorrelationScope { current: None }
    }
}

impl Clone for CorrelationId {
    fn clone(&self) -> (copy: Self)
        ensures
            copy == *self,
    {
        CorrelationId(Arc::clone(&self.0))
    }
}

impl PartialEq for CorrelationId {
    fn eq(&self, other: &Self) -> (same: bool) {
        same_text(&self.0, &other.0)
    }
}

impl Eq for CorrelationId {

}

/// Two runs are equal exactly where their texts are.
pub proof fn equal_runs_have_the_same_text(a: CorrelationId, b: CorrelationId)
    ensures
        <CorrelationId as PartialEqSpec>::obeys_eq_spec(),
        PartialEqSpec::eq_spec(&a, &b) <==> a@ == b@,
{
}

impl PartialEqSpecImpl for CorrelationId {
    open spec fn obeys_eq_spec() -> bool {
        true
    }

    open spec fn eq_spec(&self, other: &Self) -> bool {
        self@ == other@
    }
}

/// Adopts an existing id, such as an external request id or a parent run's id.
impl From<Arc<str>> for CorrelationId {
    fn from(s: Arc<str>) -> (id: Self)
        ensures
            id@ == (*s)@,
    {
        CorrelationId(s)
    }
}

impl FromSpecImpl<Arc<str>> for CorrelationId {
    open spec fn obeys_from_spec() -> bool {
        true
    }

    closed spec fn from_spec(s: Arc<str>) -> Self {
        CorrelationId(s)
    }
}

/// Adopts an existing id.
impl From<&str> for CorrelationId {
    fn from(s: &str) -> (id: Self)
        ensures
            id@ == s@,
    {
        CorrelationId(shared_text(s))
    }
}

impl FromSpecImpl<&str> for CorrelationId {
    open spec fn obeys_from_spec() -> bool {
        false
    }

    open spec fn from_spec(s: &str) -> Self {
        choose|id: CorrelationId| id@ == s@
    }
}

/// Adopts an existing id.
impl From<String> for CorrelationId {
    fn from(s: String) -> (id: Self)
        ensures
            id@ == s@,
    {
        CorrelationId(shared_text(s.as_str()))
    }
}

impl FromSpecImpl<String> for CorrelationId {
    open spec fn obeys_from_spec() -> bool {
        false
    }

    open spec fn from_spec(s: String) -> Self {
        choose|id: CorrelationId| id@ == s@
    }
}

} // verus!
