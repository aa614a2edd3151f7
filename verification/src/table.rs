//! A table keyed by text that remembers the order in which keys first arrived.

use crate::text::same_text;
use vstd::prelude::*;
use vstd::std_specs::cmp::{PartialEqSpec, PartialEqSpecImpl};

verus! {

/// Values keyed by text. Each key occurs once; iteration follows the order in
/// which the keys were first inserted. `==` compares the values key by key,
/// whatever the order.
#[derive(Debug)]
pub struct Table<V> {
    keys: Vec<String>,
    values: Vec<V>,
}

impl<V> View for Table<V> {
    type V = Map<Seq<char>, V>;

    closed spec fn view(&self) -> Map<Seq<char>, V> {
        Map::new(
            |k: Seq<char>| self.order().contains(k),
            |k: Seq<char>| self.values@[self.order().index_of(k)],
        )
    }
}

impl<V> Table<V> {
    /// The keys, in the order of their first insertion.
    pub closed spec fn order(&self) -> Seq<Seq<char>> {
        self.keys@.map_values(|k: String| k@)
    }

    /// Every key has one value, and no key occurs twice.
    pub closed spec fn wf(&self) -> bool {
        &&& self.keys@.len() == self.values@.len()
        &&& self.order().no_duplicates()
    }

    /// The order lists exactly the keys of the map, each once.
    pub proof fn order_lists_the_keys(&self)
        requires
            self.wf(),
        ensures
            self.order().no_duplicates(),
            forall|k: Seq<char>| #[trigger] self.order().contains(k) <==> self@.contains_key(k),
    {
    }

    /// The values, in the order of their keys.
    pub closed spec fn items(&self) -> Seq<V> {
        self.values@
    }

    /// A value is part of the table that holds it, so that what is defined of
    /// tables may go down into their values.
    pub proof fn an_item_is_part_of_the_table(&self, i: int)
        requires
            0 <= i < self.items().len(),
        ensures
            decreases_to!(*self => self.items()[i]),
    {
        assert(decreases_to!(*self => self.values));
        assert(decreases_to!(self.values => self.values@));
        assert(decreases_to!(self.values@ => self.values@[i]));
    }

    /// A table whose keys are in the same order as another's, with as many values,
    /// is well-formed where the other is, and holds the `i`-th value under the
    /// `i`-th key.
    pub proof fn tables_of_one_shape(&self, other: Table<V>)
        requires
            self.wf(),
            self.order() == other.order(),
            self.items().len() == other.items().len(),
        ensures
            other.wf(),
            self.items().len() == self.order().len(),
            forall|i: int|
                0 <= i < self.items().len() ==> {
                    &&& self@.contains_key(#[trigger] self.order()[i])
                    &&& self@[self.order()[i]] == self.items()[i]
                    &&& other@[self.order()[i]] == other.items()[i]
                },
    {
        assert forall|i: int| 0 <= i < self.items().len() implies {
            &&& self@.contains_key(#[trigger] self.order()[i])
            &&& self@[self.order()[i]] == self.items()[i]
            &&& other@[self.order()[i]] == other.items()[i]
        } by {
            let k = self.order()[i];
            assert(self.order().contains(k));
            assert(self.order()[self.order().index_of(k)] == k);
        }
    }

    /// The values, in the order of their keys.
    pub(crate) fn all_values(&self) -> (values: &Vec<V>)
        ensures
            values@ == self.items(),
    {
        &self.values
    }

    /// The table with the same keys in the same order, and these values.
    pub(crate) fn with_values(&self, values: Vec<V>) -> (t: Self)
        ensures
            t.order() == self.order(),
            t.items() == values@,
    {
        let t = Table { keys: self.keys.clone(), values };
        assert(t.order() =~= self.order());
        t
    }

    pub fn new() -> (t: Self)
        ensures
            t.wf(),
            t@ == Map::<Seq<char>, V>::empty(),
            t.order() == Seq::<Seq<char>>::empty(),
    {
        let t = Table { keys: Vec::new(), values: Vec::new() };
        assert(t.order() =~= Seq::<Seq<char>>::empty());
        assert(t@ =~= Map::<Seq<char>, V>::empty());
        t
    }

    /// How many keys the table holds.
    pub fn len(&self) -> (n: usize)
        requires
            self.wf(),
        ensures
            n == self.order().len(),
    {
        self.keys.len()
    }

    /// The `i`-th key, in order of first insertion.
    pub fn key(&self, i: usize) -> (k: &String)
        requires
            self.wf(),
            i < self.order().len(),
        ensures
            k@ == self.order()[i as int],
            self@.contains_key(k@),
    {
        let k = &self.keys[i];
        assert(self.order()[i as int] == k@);
        assert(self.order().contains(k@));
        k
    }

    /// The value of the `i`-th key.
    pub fn value(&self, i: usize) -> (v: &V)
        requires
            self.wf(),
            i < self.order().len(),
        ensures
            self@.contains_key(self.order()[i as int]),
            *v == self@[self.order()[i as int]],
    {
        let v = &self.values[i];
        assert(self.order().contains(self.order()[i as int]));
        v
    }

    fn position(&self, key: &str) -> (p: Option<usize>)
        ensures
            match p {
                Some(i) => i < self.order().len() && self.order()[i as int] == key@,
                None => !self.order().contains(key@),
            },
    {
        let mut i: usize = 0;
        while i < self.keys.len()
            invariant
                i <= self.keys@.len(),
                forall|j: int| 0 <= j < i ==> self.order()[j] != key@,
            decreases self.keys@.len() - i,
        {
            if same_text(self.keys[i].as_str(), key) {
                assert(self.order()[i as int] == key@);
                return Some(i);
            }
            assert(self.order()[i as int] != key@);
            i += 1;
        }
        None
    }

    /// The value stored under `key`, if there is one.
    pub fn get(&self, key: &str) -> (v: Option<&V>)
        requires
            self.wf(),
        ensures
            match v {
                Some(v) => self@.contains_key(key@) && *v == self@[key@],
                None => !self@.contains_key(key@),
            },
    {
        match self.position(key) {
            Some(i) => {
                assert(self.order().contains(key@));
                Some(&self.values[i])
            },
            None => None,
        }
    }

    /// Whether `key` has a value.
    pub fn contains(&self, key: &str) -> (b: bool)
        requires
            self.wf(),
        ensures
            b == self@.contains_key(key@),
    {
        self.get(key).is_some()
    }

    /// Stores `value` under `key`, in place of any earlier value. A new key goes
    /// to the end of the order; a known key keeps its place.
    pub fn insert(&mut self, key: String, value: V)
        requires
            old(self).wf(),
        ensures
            final(self).wf(),
            final(self)@ == old(self)@.insert(key@, value),
            final(self).order() == (if old(self)@.contains_key(key@) {
                old(self).order()
            } else {
                old(self).order().push(key@)
            }),
    {
        match self.position(key.as_str()) {
            Some(i) => {
                self.values.set(i, value);
                proof {
                    assert(self.order() =~= old(self).order());
                    assert(self.order().contains(key@));
                    assert(self@ =~= old(self)@.insert(key@, value));
                }
            },
            None => {
                self.keys.push(key);
                self.values.push(value);
                proof {
                    assert(self.order() =~= old(self).order().push(key@));
                    let last = old(self).order().len() as int;
                    assert(self.order()[last] == key@);
                    assert forall|k: Seq<char>| #[trigger] self@.contains_key(k) implies (k == key@
                        || old(self)@.contains_key(k)) by {
                        let i = self.order().index_of(k);
                        assert(self.order()[i] == k);
                        if i < last {
                            assert(old(self).order()[i] == k);
                        }
                    }
                    assert forall|k: Seq<char>| #[trigger] old(self)@.contains_key(k) implies (
                    self@.contains_key(k) && self@[k] == old(self)@[k]) by {
                        let i = old(self).order().index_of(k);
                        assert(old(self).order()[i] == k);
                        assert(self.order()[i] == k);
                        assert(self.order().contains(k));
                        let j = self.order().index_of(k);
                        assert(self.order()[j] == k);
                    }
                    assert(self.order().contains(key@));
                    assert(self@ =~= old(self)@.insert(key@, value));
                }
            },
        }
    }

    /// Takes the value stored under `key` out of the table, if there is one.
    pub fn remove(&mut self, key: &str) -> (v: Option<V>)
        requires
            old(self).wf(),
        ensures
            final(self).wf(),
            final(self)@ == old(self)@.remove(key@),
            match v {
                Some(v) => old(self)@.contains_key(key@) && v == old(self)@[key@],
                None => !old(self)@.contains_key(key@),
            },
    {
        match self.position(key) {
            Some(i) => {
                let ghost before = self.order();
                let _key = self.keys.remove(i);
                let v = self.values.remove(i);
                proof {
                    assert(self.order() =~= before.remove(i as int));
                    assert(before.contains(key@));
                    assert(before.index_of(key@) == i as int);
                    assert forall|a: int, b: int|
                        0 <= a < b < self.order().len() implies self.order()[a]
                        != self.order()[b] by {
                        let c = if a < i {
                            a
                        } else {
                            a + 1
                        };
                        let d = if b < i {
                            b
                        } else {
                            b + 1
                        };
                        assert(self.order()[a] == before[c]);
                        assert(self.order()[b] == before[d]);
                    }
                    assert forall|k: Seq<char>| #[trigger] self@.contains_key(k) implies (k != key@
                        && old(self)@.contains_key(k) && self@[k] == old(self)@[k]) by {
                        let a = self.order().index_of(k);
                        assert(self.order()[a] == k);
                        let c = if a < i {
                            a
                        } else {
                            a + 1
                        };
                        assert(before[c] == k);
                        assert(before.contains(k));
                        assert(before.index_of(k) == c);
                    }
                    assert forall|k: Seq<char>| #[trigger] old(self)@.contains_key(k) && k
                        != key@ implies self@.contains_key(k) by {
                        let c = before.index_of(k);
                        assert(before[c] == k);
                        let a = if c < i {
                            c
                        } else {
                            c - 1
                        };
                        assert(self.order()[a] == k);
                    }
                    assert(self@ =~= old(self)@.remove(key@));
                }
                Some(v)
            },
            None => {
                assert(self@ =~= old(self)@.remove(key@));
                None
            },
        }
    }
}

impl<V: PartialEq> Table<V> {
    /// Whether the two tables have the same keys, with equal values.
    pub open spec fn same_entries(&self, other: Table<V>) -> bool {
        &&& forall|k: Seq<char>| #[trigger] self@.contains_key(k) <==> other@.contains_key(k)
        &&& forall|k: Seq<char>|
            self@.contains_key(k) ==> (#[trigger] self@[k]).eq_spec(&other@[k])
    }
}

/// Equal tables have the same keys, and equal values under each.
pub proof fn equal_tables_hold_equal_values<V: PartialEq>(a: Table<V>, b: Table<V>, key: Seq<char>)
    requires
        a.same_entries(b),
    ensures
        a@.contains_key(key) <==> b@.contains_key(key),
        a@.contains_key(key) ==> a@[key].eq_spec(&b@[key]),
{
}

/// Tables with the same keys and equal values under each are equal, whatever the order
/// in which either was filled.
pub proof fn tables_of_equal_values_are_equal<V: PartialEq>(a: Table<V>, b: Table<V>)
    requires
        a@.dom() == b@.dom(),
        forall|k: Seq<char>| a@.contains_key(k) ==> (#[trigger] a@[k]).eq_spec(&b@[k]),
    ensures
        a.same_entries(b),
        PartialEqSpec::eq_spec(&a, &b),
{
    assert forall|k: Seq<char>| #[trigger] a@.contains_key(k) <==> b@.contains_key(k) by {
        assert(a@.dom().contains(k) == b@.dom().contains(k));
    }
}

impl<V: PartialEq> PartialEq for Table<V> {
    fn eq(&self, other: &Self) -> (same: bool)
        ensures
            self.wf() && other.wf() && V::obeys_eq_spec() ==> same == self.same_entries(*other),
    {
        let mut i: usize = 0;
        while i < self.keys.len()
            invariant
                i <= self.keys@.len(),
                self.wf() && other.wf() && V::obeys_eq_spec() ==> forall|j: int|
                    0 <= j < i ==> other@.contains_key(#[trigger] self.order()[j])
                        && self@[self.order()[j]].eq_spec(&other@[self.order()[j]]),
            decreases self.keys@.len() - i,
        {
            let ghost key = self.order()[i as int];
            assert(self.order().contains(key));
            let at = other.position(self.keys[i].as_str());
            match at {
                Some(j) => {
                    assert(other.order().contains(key));
                    if i >= self.values.len() || j >= other.values.len() {
                        return false;
                    }
                    if !self.values[i].eq(&other.values[j]) {
                        assert(self.wf() ==> self@[key] == self.values@[i as int]);
                        return false;
                    }
                },
                None => {
                    assert(self.wf() && other.wf() ==> self@.contains_key(key)
                        && !other@.contains_key(key));
                    return false;
                },
            }
            i += 1;
        }
        let mut j: usize = 0;
        while j < other.keys.len()
            invariant
                j <= other.keys@.len(),
                forall|k: int| 0 <= k < j ==> self.order().contains(#[trigger] other.order()[k]),
            decreases other.keys@.len() - j,
        {
            let ghost key = other.order()[j as int];
            assert(other.order().contains(key));
            if self.position(other.keys[j].as_str()).is_none() {
                assert(other@.contains_key(key) && !self@.contains_key(key));
                return false;
            }
            assert(self.order().contains(key));
            j += 1;
        }
        proof {
            if self.wf() && other.wf() && V::obeys_eq_spec() {
                assert forall|k: Seq<char>| #[trigger] self@.contains_key(k) implies (
                other@.contains_key(k) && self@[k].eq_spec(&other@[k])) by {
                    let p = self.order().index_of(k);
                    assert(self.order()[p] == k);
                }
                assert forall|k: Seq<char>| #[trigger] other@.contains_key(k) implies (
                self@.contains_key(k)) by {
                    let p = other.order().index_of(k);
                    assert(other.order()[p] == k);
                }
            }
        }
        true
    }
}

impl<V: PartialEq> PartialEqSpecImpl for Table<V> {
    open spec fn obeys_eq_spec() -> bool {
        false
    }

    open spec fn eq_spec(&self, other: &Self) -> bool {
        self.same_entries(*other)
    }
}

impl<V: Clone> Clone for Table<V> {
    /// A table with the same keys in the same order, and a clone of each value.
    fn clone(&self) -> (copy: Self)
        ensures
            copy.order() == self.order(),
            copy.items().len() == self.items().len(),
            forall|i: int|
                0 <= i < self.items().len() ==> cloned::<V>(
                    #[trigger] self.items()[i],
                    copy.items()[i],
                ),
    {
        self.with_values(self.values.clone())
    }
}

} // verus!
