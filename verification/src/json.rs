//! JSON values as the runtime carries them.

use crate::text::same_text;
use vstd::prelude::*;
use vstd::std_specs::cmp::{PartialEqSpec, PartialEqSpecImpl};

verus! {

/// A JSON value. A number is kept in the form it was read in: a non-negative
/// integer, a negative one, or the bits of a double.
///
/// An object lists its members in order of insertion. Where a key occurs more
/// than once, the last member counts. `==` compares objects by key and numbers by
/// what they stand for, as [`alike`] says.
#[derive(Debug)]
pub enum Json {
    Null,
    Bool(bool),
    UInt(u64),
    Int(i64),
    Float(u64),
    Str(String),
    Array(Vec<Json>),
    Object(Vec<(String, Json)>),
}

/// What a [`Json`] value means: text as characters, an object as a map.
pub enum JsonModel {
    Null,
    Bool(bool),
    UInt(u64),
    Int(i64),
    Float(u64),
    Str(Seq<char>),
    Array(Seq<JsonModel>),
    Object(Map<Seq<char>, JsonModel>),
}

/// The map of the first `n` members; a later member replaces an earlier one.
pub open spec fn members(entries: Seq<(String, Json)>, n: nat) -> Map<Seq<char>, JsonModel>
    decreases entries, n,
{
    if n == 0 || n > entries.len() {
        Map::empty()
    } else {
        members(entries, (n - 1) as nat).insert(entries[n - 1].0@, entries[n - 1].1.model())
    }
}

impl Json {
    /// The value, with text as characters and objects as maps.
    pub open spec fn model(self) -> JsonModel
        decreases self, 0nat,
    {
        match self {
            Json::Null => JsonModel::Null,
            Json::Bool(b) => JsonModel::Bool(b),
            Json::UInt(n) => JsonModel::UInt(n),
            Json::Int(n) => JsonModel::Int(n),
            Json::Float(bits) => JsonModel::Float(bits),
            Json::Str(s) => JsonModel::Str(s@),
            Json::Array(items) => JsonModel::Array(
                Seq::new(
                    items@.len(),
                    |i: int|
                        if 0 <= i < items@.len() {
                            items@[i].model()
                        } else {
                            JsonModel::Null
                        },
                ),
            ),
            Json::Object(entries) => JsonModel::Object(members(entries@, entries@.len())),
        }
    }
}

/// Values that mean the same are of the same kind and hold the same: the same truth,
/// number or text, equal items in the same places, and equal members.
pub proof fn values_that_mean_the_same_hold_the_same(a: Json, b: Json)
    requires
        a@ == b@,
    ensures
        a is Null <==> b is Null,
        a matches Json::Bool(x) ==> b == Json::Bool(x),
        a matches Json::UInt(x) ==> b == Json::UInt(x),
        a matches Json::Int(x) ==> b == Json::Int(x),
        a matches Json::Float(x) ==> b == Json::Float(x),
        a matches Json::Str(x) ==> (b matches Json::Str(y) && x@ == y@),
        a matches Json::Array(x) ==> (b matches Json::Array(y) && x@.len() == y@.len() && forall|
            i: int,
        |
            0 <= i < x@.len() ==> (#[trigger] x@[i])@ == y@[i]@),
        a is Object <==> b is Object,
{
    if let Json::Array(x) = a {
        if let Json::Array(y) = b {
            let (left, right) = (a.model()->Array_0, b.model()->Array_0);
            assert(left == right);
            assert(left.len() == x@.len() && right.len() == y@.len());
            assert forall|i: int| 0 <= i < x@.len() implies (#[trigger] x@[i])@ == y@[i]@ by {
                assert(left[i] == x@[i].model());
                assert(right[i] == y@[i].model());
            }
        }
    }
}

/// A value is equal to itself.
pub proof fn a_value_is_equal_to_itself(a: JsonModel)
    ensures
        alike(a, a),
    decreases a,
{
    match a {
        JsonModel::Array(items) => {
            assert forall|i: int| 0 <= i < items.len() implies alike(
                #[trigger] items[i],
                items[i],
            ) by {
                a_value_is_equal_to_itself(items[i]);
            }
        },
        JsonModel::Object(members) => {
            assert forall|k: Seq<char>| members.contains_key(k) implies alike(
                #[trigger] members[k],
                members[k],
            ) by {
                a_value_is_equal_to_itself(members[k]);
            }
        },
        _ => {},
    }
}

/// What makes two values equal. Truths, texts and integers are equal where they are
/// the same, doubles where their bits are or both are zero, arrays item by item in
/// the same order, objects member by member in any order; values of different kinds
/// never are.
pub proof fn equal_values_agree_throughout(a: JsonModel, b: JsonModel)
    requires
        alike(a, b),
    ensures
        a is Null <==> b is Null,
        a matches JsonModel::Bool(x) ==> b == JsonModel::Bool(x),
        a matches JsonModel::Str(x) ==> b == JsonModel::Str(x),
        a matches JsonModel::UInt(x) ==> b == JsonModel::UInt(x) || (b matches JsonModel::Int(y) && y
            == x),
        a matches JsonModel::Int(x) ==> b == JsonModel::Int(x) || (b matches JsonModel::UInt(y) && y
            == x),
        a matches JsonModel::Float(x) ==> (b matches JsonModel::Float(y) && (x == y || ((x == 0 || x
            == 0x8000_0000_0000_0000) && (y == 0 || y == 0x8000_0000_0000_0000)))),
        a matches JsonModel::Array(x) ==> (b matches JsonModel::Array(y) && x.len() == y.len()
            && forall|i: int| 0 <= i < x.len() ==> alike(#[trigger] x[i], y[i])),
        a matches JsonModel::Object(x) ==> (b matches JsonModel::Object(y) && x.dom() == y.dom()
            && forall|k: Seq<char>| x.contains_key(k) ==> alike(#[trigger] x[k], y[k])),
{
    if let JsonModel::Object(x) = a {
        if let JsonModel::Object(y) = b {
            assert forall|k: Seq<char>| x.dom().contains(k) == y.dom().contains(k) by {
                assert(x.contains_key(k) <==> y.contains_key(k));
            }
            assert(x.dom() =~= y.dom());
        }
    }
}

/// What agrees throughout is equal: the same truth or text, the same integer in
/// whichever form, the same bits of a double or two zeros, equal items in the same
/// places, and equal members under the same keys.
pub proof fn values_that_agree_throughout_are_equal(a: JsonModel, b: JsonModel)
    requires
        ({
            ||| a is Null && b is Null
            ||| a is Bool && a == b
            ||| a is Str && a == b
            ||| a is UInt && a == b
            ||| a is Int && a == b
            ||| a is UInt && b is Int && a->UInt_0 == b->Int_0
            ||| a is Int && b is UInt && a->Int_0 == b->UInt_0
            ||| a is Float && a == b
            ||| a is Float && b is Float && (a->Float_0 == 0 || a->Float_0 == 0x8000_0000_0000_0000)
                && (b->Float_0 == 0 || b->Float_0 == 0x8000_0000_0000_0000)
            ||| a is Array && b is Array && a->Array_0.len() == b->Array_0.len() && forall|i: int|
                0 <= i < a->Array_0.len() ==> alike(#[trigger] a->Array_0[i], b->Array_0[i])
            ||| a is Object && b is Object && a->Object_0.dom() == b->Object_0.dom() && forall|
                k: Seq<char>,
            |
                a->Object_0.contains_key(k) ==> alike(#[trigger] a->Object_0[k], b->Object_0[k])
        }),
    ensures
        alike(a, b),
{
    if a is Object && b is Object {
        let (x, y) = (a->Object_0, b->Object_0);
        if x.dom() == y.dom() {
            assert forall|k: Seq<char>| #[trigger] x.contains_key(k) <==> y.contains_key(k) by {
                assert(x.dom().contains(k) == y.dom().contains(k));
            }
        }
    }
}

/// `==` on values is equality of what they mean, and nothing else.
pub proof fn values_compare_by_what_they_mean(a: Json, b: Json)
    ensures
        <Json as PartialEqSpec>::obeys_eq_spec(),
        PartialEqSpec::eq_spec(&a, &b) <==> alike(a@, b@),
{
}

/// Whether these bits are those of a zero, of either sign.
pub open spec fn is_zero(bits: u64) -> bool {
    bits == 0 || bits == 0x8000_0000_0000_0000
}

/// Whether two values are equal: objects key by key, in whatever order their
/// members stand; an integer is the same in either form, and a double is equal to
/// itself, zeros of both signs being one.
pub open spec fn alike(a: JsonModel, b: JsonModel) -> bool
    decreases a,
{
    match (a, b) {
        (JsonModel::Null, JsonModel::Null) => true,
        (JsonModel::Bool(a), JsonModel::Bool(b)) => a == b,
        (JsonModel::UInt(a), JsonModel::UInt(b)) => a == b,
        (JsonModel::UInt(a), JsonModel::Int(b)) => a == b,
        (JsonModel::Int(a), JsonModel::UInt(b)) => a == b,
        (JsonModel::Int(a), JsonModel::Int(b)) => a == b,
        (JsonModel::Float(a), JsonModel::Float(b)) => a == b || (is_zero(a) && is_zero(b)),
        (JsonModel::Str(a), JsonModel::Str(b)) => a == b,
        (JsonModel::Array(a), JsonModel::Array(b)) => {
            &&& a.len() == b.len()
            &&& forall|i: int| 0 <= i < a.len() ==> alike(#[trigger] a[i], b[i])
        },
        (JsonModel::Object(a), JsonModel::Object(b)) => {
            &&& forall|k: Seq<char>| #[trigger] a.contains_key(k) <==> b.contains_key(k)
            &&& forall|k: Seq<char>| a.contains_key(k) ==> alike(#[trigger] a[k], b[k])
        },
        _ => false,
    }
}

impl View for Json {
    type V = JsonModel;

    open spec fn view(&self) -> JsonModel {
        self.model()
    }
}

impl Clone for Json {
    /// A deep copy: the same value.
    fn clone(&self) -> (copy: Self)
        ensures
            copy@ == self@,
        decreases self,
    {
        match self {
            Json::Null => Json::Null,
            Json::Bool(b) => Json::Bool(*b),
            Json::UInt(n) => Json::UInt(*n),
            Json::Int(n) => Json::Int(*n),
            Json::Float(bits) => Json::Float(*bits),
            Json::Str(s) => Json::Str(s.clone()),
            Json::Array(items) => {
                let mut out: Vec<Json> = Vec::new();
                let mut i: usize = 0;
                while i < items.len()
                    invariant
                        self == Json::Array(*items),
                        i <= items@.len(),
                        out@.len() == i,
                        forall|j: int| 0 <= j < i ==> (#[trigger] out@[j]).model() == items@[j].model(),
                    decreases items@.len() - i,
                {
                    assert(decreases_to!(self => items@[i as int])) by {
                        assert(decreases_to!(self => self->Array_0));
                        assert(decreases_to!(items => items@));
                        assert(decreases_to!(items@ => items@[i as int]));
                    }
                    out.push(items[i].clone());
                    i += 1;
                }
                let copy = Json::Array(out);
                assert(copy.model()->Array_0 =~= self.model()->Array_0);
                copy
            },
            Json::Object(entries) => {
                let mut out: Vec<(String, Json)> = Vec::new();
                let mut i: usize = 0;
                while i < entries.len()
                    invariant
                        self == Json::Object(*entries),
                        i <= entries@.len(),
                        out@.len() == i,
                        forall|j: int|
                            0 <= j < i ==> (#[trigger] out@[j]).0@ == entries@[j].0@ && out@[j].1.model()
                                == entries@[j].1.model(),
                    decreases entries@.len() - i,
                {
                    assert(decreases_to!(self => entries@[i as int].1)) by {
                        assert(decreases_to!(self => self->Object_0));
                        assert(decreases_to!(entries => entries@));
                        assert(decreases_to!(entries@ => entries@[i as int]));
                        assert(decreases_to!(entries@[i as int] => entries@[i as int].1));
                    }
                    out.push((entries[i].0.clone(), entries[i].1.clone()));
                    i += 1;
                }
                proof {
                    members_agree(out@, entries@, i as nat);
                }
                Json::Object(out)
            },
        }
    }
}

/// Listings whose members agree one by one make the same map.
proof fn members_agree(a: Seq<(String, Json)>, b: Seq<(String, Json)>, n: nat)
    requires
        n <= a.len(),
        n <= b.len(),
        forall|j: int|
            0 <= j < n ==> (#[trigger] a[j]).0@ == b[j].0@ && a[j].1.model() == b[j].1.model(),
    ensures
        members(a, n) == members(b, n),
    decreases n,
{
    if n > 0 {
        members_agree(a, b, (n - 1) as nat);
        assert(a[n - 1].0@ == b[n - 1].0@);
    }
}

/// The first `n` members of a listing make the same map whatever follows them.
proof fn members_of_a_prefix(a: Seq<(String, Json)>, b: Seq<(String, Json)>, n: nat)
    requires
        n <= a.len(),
        n <= b.len(),
        forall|j: int| 0 <= j < n ==> #[trigger] a[j] == b[j],
    ensures
        members(a, n) == members(b, n),
{
    members_agree(a, b, n);
}

/// A key of the map stands on some member of the listing; the last such member
/// holds its value.
proof fn members_last_wins(entries: Seq<(String, Json)>, n: nat, key: Seq<char>, last: int)
    requires
        n <= entries.len(),
        -1 <= last < n,
        last >= 0 ==> entries[last].0@ == key,
        forall|j: int| last < j < n ==> (#[trigger] entries[j]).0@ != key,
    ensures
        members(entries, n).contains_key(key) <==> last >= 0,
        last >= 0 ==> members(entries, n)[key] == entries[last].1.model(),
    decreases n,
{
    if n > 0 && last < n - 1 {
        assert(entries[n - 1].0@ != key);
        members_last_wins(entries, (n - 1) as nat, key, last);
    }
}

/// Where the member that counts under `key` stands, if there is one.
fn last_position(entries: &Vec<(String, Json)>, key: &str) -> (p: Option<usize>)
    ensures
        match p {
            Some(i) => {
                &&& i < entries@.len()
                &&& members(entries@, entries@.len()).contains_key(key@)
                &&& members(entries@, entries@.len())[key@] == entries@[i as int].1.model()
            },
            None => !members(entries@, entries@.len()).contains_key(key@),
        },
{
    let mut i: usize = entries.len();
    while i > 0
        invariant
            i <= entries@.len(),
            forall|j: int| i <= j < entries@.len() ==> (#[trigger] entries@[j]).0@ != key@,
        decreases i,
    {
        i -= 1;
        if same_text(entries[i].0.as_str(), key) {
            proof {
                members_last_wins(entries@, entries@.len(), key@, i as int);
            }
            return Some(i);
        }
    }
    proof {
        members_last_wins(entries@, entries@.len(), key@, -1);
    }
    None
}

impl Json {
    /// The member of an object under `key`. Any other value has no members.
    pub fn get(&self, key: &str) -> (v: Option<&Json>)
        ensures
            match v {
                Some(v) => self@ is Object && self@->Object_0.contains_key(key@) && v@
                    == self@->Object_0[key@],
                None => !(self@ is Object && self@->Object_0.contains_key(key@)),
            },
    {
        match self {
            Json::Object(entries) => match last_position(entries, key) {
                Some(i) => Some(&entries[i].1),
                None => None,
            },
            _ => None,
        }
    }
}

/// A key of the map stands on some member of the listing.
proof fn members_stand_in_the_listing(entries: Seq<(String, Json)>, n: nat, key: Seq<char>)
    requires
        n <= entries.len(),
        members(entries, n).contains_key(key),
    ensures
        exists|i: int| 0 <= i < n && (#[trigger] entries[i]).0@ == key,
    decreases n,
{
    if n > 0 && entries[n - 1].0@ != key {
        members_stand_in_the_listing(entries, (n - 1) as nat, key);
    }
}

fn same_items(a: &Vec<Json>, b: &Vec<Json>) -> (same: bool)
    ensures
        same == alike(Json::Array(*a).model(), Json::Array(*b).model()),
    decreases a, 1nat,
{
    let ghost left = Json::Array(*a).model()->Array_0;
    let ghost right = Json::Array(*b).model()->Array_0;
    if a.len() != b.len() {
        return false;
    }
    let mut i: usize = 0;
    while i < a.len()
        invariant
            a@.len() == b@.len(),
            left == Json::Array(*a).model()->Array_0,
            right == Json::Array(*b).model()->Array_0,
            i <= a@.len(),
            forall|j: int| 0 <= j < i ==> alike(#[trigger] left[j], right[j]),
        decreases a@.len() - i,
    {
        assert(decreases_to!(a => a@[i as int])) by {
            assert(decreases_to!(a => a@));
            assert(decreases_to!(a@ => a@[i as int]));
        }
        assert(left[i as int] == a@[i as int].model());
        assert(right[i as int] == b@[i as int].model());
        if !same_value(&a[i], &b[i]) {
            return false;
        }
        i += 1;
    }
    true
}

/// Two objects that differ under some key are not equal.
proof fn one_key_tells_objects_apart(
    a: Map<Seq<char>, JsonModel>,
    b: Map<Seq<char>, JsonModel>,
    key: Seq<char>,
)
    requires
        a.contains_key(key) != b.contains_key(key) || (a.contains_key(key) && !alike(
            a[key],
            b[key],
        )),
    ensures
        !alike(JsonModel::Object(a), JsonModel::Object(b)),
{
    let (x, y) = (JsonModel::Object(a), JsonModel::Object(b));
    if alike(x, y) {
        assert(x->Object_0 == a);
        assert(a.contains_key(key) <==> b.contains_key(key));
    }
}

fn same_members(a: &Vec<(String, Json)>, b: &Vec<(String, Json)>) -> (same: bool)
    ensures
        same == alike(Json::Object(*a).model(), Json::Object(*b).model()),
    decreases a, 1nat,
{
    let ghost left = members(a@, a@.len());
    let ghost right = members(b@, b@.len());
    let mut i: usize = 0;
    while i < a.len()
        invariant
            left == members(a@, a@.len()),
            right == members(b@, b@.len()),
            Json::Object(*a).model() == JsonModel::Object(left),
            Json::Object(*b).model() == JsonModel::Object(right),
            i <= a@.len(),
            forall|j: int|
                0 <= j < i ==> right.contains_key((#[trigger] a@[j]).0@) && alike(
                    left[a@[j].0@],
                    right[a@[j].0@],
                ),
        decreases a@.len() - i,
    {
        let key = a[i].0.as_str();
        match (last_position(a, key), last_position(b, key)) {
            (Some(p), Some(q)) => {
                assert(decreases_to!(a => a@[p as int].1)) by {
                    assert(decreases_to!(a => a@));
                    assert(decreases_to!(a@ => a@[p as int]));
                    assert(decreases_to!(a@[p as int] => a@[p as int].1));
                }
                if !same_value(&a[p].1, &b[q].1) {
                    proof {
                        one_key_tells_objects_apart(left, right, key@);
                    }
                    return false;
                }
            },
            _ => {
                proof {
                    members_hold_every_key(a@, a@.len(), i as int);
                    one_key_tells_objects_apart(left, right, key@);
                }
                return false;
            },
        }
        i += 1;
    }
    let mut j: usize = 0;
    while j < b.len()
        invariant
            left == members(a@, a@.len()),
            right == members(b@, b@.len()),
            Json::Object(*a).model() == JsonModel::Object(left),
            Json::Object(*b).model() == JsonModel::Object(right),
            j <= b@.len(),
            forall|k: int| 0 <= k < j ==> left.contains_key((#[trigger] b@[k]).0@),
        decreases b@.len() - j,
    {
        let key = b[j].0.as_str();
        if last_position(a, key).is_none() {
            proof {
                members_hold_every_key(b@, b@.len(), j as int);
                one_key_tells_objects_apart(left, right, key@);
            }
            return false;
        }
        j += 1;
    }
    proof {
        assert forall|k: Seq<char>| #[trigger] left.contains_key(k) implies right.contains_key(k)
            && alike(left[k], right[k]) by {
            members_stand_in_the_listing(a@, a@.len(), k);
        }
        assert forall|k: Seq<char>| #[trigger] right.contains_key(k) implies left.contains_key(
            k,
        ) by {
            members_stand_in_the_listing(b@, b@.len(), k);
        }
    }
    true
}

/// Every member's key is a key of the map.
proof fn members_hold_every_key(entries: Seq<(String, Json)>, n: nat, i: int)
    requires
        0 <= i < n <= entries.len(),
    ensures
        members(entries, n).contains_key(entries[i].0@),
    decreases n,
{
    if i < n - 1 {
        members_hold_every_key(entries, (n - 1) as nat, i);
    }
}

/// Whether two values are equal.
fn same_value(a: &Json, b: &Json) -> (same: bool)
    ensures
        same == alike(a@, b@),
    decreases a, 2nat,
{
    match (a, b) {
        (Json::Null, Json::Null) => true,
        (Json::Bool(a), Json::Bool(b)) => *a == *b,
        (Json::UInt(a), Json::UInt(b)) => *a == *b,
        (Json::UInt(a), Json::Int(b)) => *b >= 0 && *a == *b as u64,
        (Json::Int(a), Json::UInt(b)) => *a >= 0 && *a as u64 == *b,
        (Json::Int(a), Json::Int(b)) => *a == *b,
        (Json::Float(a), Json::Float(b)) => {
            let (a, b) = (*a, *b);
            a == b || ((a == 0 || a == 0x8000_0000_0000_0000) && (b == 0 || b
                == 0x8000_0000_0000_0000))
        },
        (Json::Str(a), Json::Str(b)) => same_text(a.as_str(), b.as_str()),
        (Json::Array(x), Json::Array(y)) => {
            assert(decreases_to!(a => a->Array_0));
            same_items(x, y)
        },
        (Json::Object(x), Json::Object(y)) => {
            assert(decreases_to!(a => a->Object_0));
            same_members(x, y)
        },
        _ => false,
    }
}

impl PartialEq for Json {
    fn eq(&self, other: &Self) -> (same: bool) {
        same_value(self, other)
    }
}

impl PartialEqSpecImpl for Json {
    open spec fn obeys_eq_spec() -> bool {
        true
    }

    open spec fn eq_spec(&self, other: &Self) -> bool {
        alike(self@, other@)
    }
}

/// An object under construction.
pub struct JsonObject {
    entries: Vec<(String, Json)>,
}

impl View for JsonObject {
    type V = Map<Seq<char>, JsonModel>;

    closed spec fn view(&self) -> Map<Seq<char>, JsonModel> {
        members(self.entries@, self.entries@.len())
    }
}

impl JsonObject {
    /// An object without members.
    pub fn new() -> (o: Self)
        ensures
            o@ == Map::<Seq<char>, JsonModel>::empty(),
    {
        JsonObject { entries: Vec::new() }
    }

    /// The object with `key` set to `value`.
    pub fn with(self, key: &str, value: Json) -> (o: Self)
        ensures
            o@ == self@.insert(key@, value@),
    {
        let mut entries = self.entries;
        entries.push((key.to_owned(), value));
        proof {
            members_of_a_prefix(entries@, self.entries@, self.entries@.len());
        }
        JsonObject { entries }
    }

    /// The finished value.
    pub fn build(self) -> (v: Json)
        ensures
            v@ == JsonModel::Object(self@),
    {
        Json::Object(self.entries)
    }
}

} // verus!
