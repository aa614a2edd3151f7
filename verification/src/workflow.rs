//! Workflow definitions: the node graph that a running graph is built from, and
//! what is decided when one is created, updated or checked.

use crate::actor::ends_with;
use crate::text::{decimal, same_text};
use std::collections::BTreeMap;
use vstd::prelude::*;
use vstd::utf8::encode_utf8;

verus! {

/// A BSON document of `bson`, carried as it is.
#[verifier::external_type_specification]
#[verifier::external_body]
pub struct ExDocument(bson::Document);

/// `Clone::clone` of `bson::Document`, which its source derives: the copy is the
/// same document, with the same members in the same order.
pub assume_specification[ <bson::Document as Clone>::clone ](document: &bson::Document) -> (copy:
    bson::Document)
    ensures
        copy == *document,
;

// ── Nodes and edges ────────────────────────────────────────────────────────

/// A node's identifier, unique within its workflow and chosen by its author.
#[derive(Debug, PartialEq, Eq)]
pub struct NodeId(pub String);

impl Clone for NodeId {
    fn clone(&self) -> (copy: Self)
        ensures
            copy == *self,
    {
        NodeId(self.0.clone())
    }
}

/// A node: a stable identity, what it does, and optionally what fires it.
#[derive(Debug, PartialEq)]
pub struct Node {
    pub id: NodeId,
    pub definition: NodeDefinition,
    /// What feeds this node from outside the graph. A node with a trigger is an
    /// entry; a node without one is fed by edges alone.
    pub trigger: Option<Trigger>,
}

/// A node's external input source.
#[derive(Debug, PartialEq, Eq)]
pub enum Trigger {
    /// Fires when the named entity's state changes.
    EntityChanged { entity: String },
}

impl Clone for Trigger {
    fn clone(&self) -> (copy: Self)
        ensures
            copy == *self,
    {
        match self {
            Trigger::EntityChanged { entity } => Trigger::EntityChanged { entity: entity.clone() },
        }
    }
}

/// What a node does, with the configuration that goes with it.
#[derive(Debug, PartialEq)]
pub enum NodeDefinition {
    /// A native node, resolved by its registered type name.
    Builtin(BuiltinConfig),
    /// Behaviour supplied by a registered component.
    Component(ComponentConfig),
}

/// Configuration of a native node.
#[derive(Debug, PartialEq)]
pub struct BuiltinConfig {
    pub name: String,
    /// The environment the host exposes to this node.
    pub env: BTreeMap<String, String>,
    /// Opaque settings, passed through.
    pub settings: bson::Document,
}

impl BuiltinConfig {
    /// Whether two configurations say the same.
    pub open spec fn same_as(self, other: BuiltinConfig) -> bool {
        &&& self.name == other.name
        &&& self.env@ == other.env@
        &&& self.settings == other.settings
    }
}

impl Clone for BuiltinConfig {
    fn clone(&self) -> (copy: Self)
        ensures
            self.same_as(copy),
            copy.name == self.name,
            copy.env@ == self.env@,
            copy.settings == self.settings,
    {
        BuiltinConfig {
            name: self.name.clone(),
            env: self.env.clone(),
            settings: self.settings.clone(),
        }
    }
}

/// Which sandboxed runtime backs a component.
#[derive(Debug, Clone, Copy, PartialEq, Eq, Structural)]
pub enum Runtime {
    Wasm,
    Lua,
}

/// A registered component and its configuration.
#[derive(Debug, PartialEq)]
pub struct ComponentConfig {
    pub runtime: Runtime,
    pub component: String,
    pub settings: bson::Document,
}

impl Clone for ComponentConfig {
    fn clone(&self) -> (copy: Self)
        ensures
            copy == *self,
    {
        ComponentConfig {
            runtime: self.runtime,
            component: self.component.clone(),
            settings: self.settings.clone(),
        }
    }
}

impl NodeDefinition {
    /// Whether two definitions say the same.
    pub open spec fn same_as(self, other: NodeDefinition) -> bool {
        match (self, other) {
            (NodeDefinition::Builtin(a), NodeDefinition::Builtin(b)) => a.same_as(b),
            (NodeDefinition::Component(a), NodeDefinition::Component(b)) => a == b,
            _ => false,
        }
    }
}

impl Clone for NodeDefinition {
    fn clone(&self) -> (copy: Self)
        ensures
            self.same_as(copy),
            self is Builtin <==> copy is Builtin,
            self matches NodeDefinition::Component(config) ==> copy == NodeDefinition::Component(
                *config,
            ),
            self matches NodeDefinition::Builtin(a) ==> (copy matches NodeDefinition::Builtin(b)
                && a.name == b.name && a.env@ == b.env@ && a.settings == b.settings),
    {
        match self {
            NodeDefinition::Builtin(config) => NodeDefinition::Builtin(config.clone()),
            NodeDefinition::Component(config) => NodeDefinition::Component(config.clone()),
        }
    }
}

impl Node {
    /// Whether two nodes say the same.
    pub open spec fn same_as(self, other: Node) -> bool {
        &&& self.id == other.id
        &&& self.definition.same_as(other.definition)
        &&& self.trigger == other.trigger
    }
}

impl Clone for Node {
    fn clone(&self) -> (copy: Self)
        ensures
            self.same_as(copy),
            copy.id == self.id,
            copy.trigger == self.trigger,
    {
        Node {
            id: self.id.clone(),
            definition: self.definition.clone(),
            trigger: match &self.trigger {
                Some(trigger) => Some(trigger.clone()),
                None => None,
            },
        }
    }
}

/// A directed edge between two nodes.
#[derive(Debug, PartialEq, Eq)]
pub struct Edge {
    pub from: NodeId,
    pub to: NodeId,
}

impl Clone for Edge {
    fn clone(&self) -> (copy: Self)
        ensures
            copy == *self,
    {
        Edge { from: self.from.clone(), to: self.to.clone() }
    }
}

// ── Identities ─────────────────────────────────────────────────────────────

/// The hexadecimal digit `n`, for `n` below sixteen, in lower case.
pub open spec fn hex_digit(n: nat) -> char {
    if n < 10 {
        (48 + n) as char
    } else {
        (87 + n) as char
    }
}

/// Bytes in hexadecimal: two digits each, the high one first.
pub open spec fn hex_text(bytes: Seq<u8>) -> Seq<char> {
    Seq::new(
        2 * bytes.len(),
        |i: int|
            hex_digit(
                if i % 2 == 0 {
                    (bytes[i / 2] / 16) as nat
                } else {
                    (bytes[i / 2] % 16) as nat
                },
            ),
    )
}

/// The value of a hexadecimal digit, in either case.
pub open spec fn hex_value(c: char) -> Option<nat> {
    if '0' <= c && c <= '9' {
        Some((c as nat - 48) as nat)
    } else if 'a' <= c && c <= 'f' {
        Some((c as nat - 87) as nat)
    } else if 'A' <= c && c <= 'F' {
        Some((c as nat - 55) as nat)
    } else {
        None
    }
}

/// Whether `s` is an identity in hexadecimal: 24 digits.
pub open spec fn is_id_text(s: Seq<char>) -> bool {
    s.len() == 24 && forall|i: int| 0 <= i < 24 ==> (#[trigger] hex_value(s[i])) is Some
}

/// The bytes that an identity's text stands for.
pub open spec fn id_bytes(s: Seq<char>) -> Seq<u8> {
    Seq::new(12, |i: int| (hex_value(s[2 * i])->0 * 16 + hex_value(s[2 * i + 1])->0) as u8)
}

/// Where the first byte stands that is no hexadecimal digit.
pub open spec fn first_non_digit(bytes: Seq<u8>) -> Option<nat>
    decreases bytes.len(),
{
    if bytes.len() == 0 {
        None
    } else {
        match first_non_digit(bytes.drop_last()) {
            Some(i) => Some(i),
            None => if hex_value(bytes.last() as char) is None {
                Some((bytes.len() - 1) as nat)
            } else {
                None
            },
        }
    }
}

/// Why a text is refused as an identity: a wrong character, named with its place
/// among the bytes, or else a wrong length in bytes. A text of odd length is
/// refused for its length, whatever it holds.
pub open spec fn id_refusal(s: Seq<char>) -> Seq<char> {
    let bytes = encode_utf8(s);
    match first_non_digit(bytes) {
        Some(i) if bytes.len() % 2 == 0 => "invalid character '"@ + seq![bytes[i as int] as char]
            + "' was found at index "@ + decimal(i) + " in the provided hex string: \""@ + s
            + "\""@,
        _ => "provided hex string representation must be exactly 12 bytes, instead got: \""@ + s
            + "\", length "@ + decimal(bytes.len()),
    }
}

/// A fresh identity, by `bson::oid::ObjectId::new`. Which one it is depends on
/// the clock, on chance and on the ids made before. The call panics where the
/// clock stands before 1970 or after 2106.
#[verifier::external_body]
fn fresh_object_id() -> (bytes: [u8; 12]) {
    bson::oid::ObjectId::new().bytes()
}

/// Whether these bytes were made as a fresh identity.
pub closed spec fn was_made_fresh(bytes: [u8; 12]) -> bool {
    call_ensures(fresh_object_id, (), bytes)
}

/// An identity that was made fresh was made by the source of fresh ones.
proof fn what_was_made_fresh_came_from_the_source(bytes: [u8; 12])
    requires
        was_made_fresh(bytes),
    ensures
        call_ensures(fresh_object_id, (), bytes),
{
}

/// Reads an identity by `bson::oid::ObjectId::parse_str`: 24 hexadecimal digits
/// in either case stand for 12 bytes; any other text is refused with a reason.
#[verifier::external_body]
fn parse_object_id(s: &str) -> (r: Result<[u8; 12], String>)
    ensures
        match r {
            Ok(bytes) => is_id_text(s@) && bytes@ == id_bytes(s@),
            Err(reason) => !is_id_text(s@) && reason@ == id_refusal(s@),
        },
{
    match bson::oid::ObjectId::parse_str(s) {
        Ok(id) => Ok(id.bytes()),
        Err(e) => Err(e.to_string()),
    }
}

/// Writes an identity in hexadecimal by `bson::oid::ObjectId::to_hex`.
#[verifier::external_body]
fn object_id_text(bytes: [u8; 12]) -> (s: String)
    ensures
        s@ == hex_text(bytes@),
{
    bson::oid::ObjectId::from_bytes(bytes).to_hex()
}

/// A workflow's identity.
#[derive(Debug, Clone, Copy, PartialEq, Eq)]
pub struct WorkflowId(pub [u8; 12]);

impl View for WorkflowId {
    type V = Seq<u8>;

    open spec fn view(&self) -> Seq<u8> {
        self.0@
    }
}

impl WorkflowId {
    /// A fresh identity.
    pub fn new() -> (id: Self)
        ensures
            was_made_fresh(id.0),
    {
        WorkflowId(fresh_object_id())
    }

    /// Reads an identity from its hexadecimal form, such as a path segment. A
    /// text that is none is refused with a reason.
    pub fn parse(s: &str) -> (r: Result<Self, String>)
        ensures
            match r {
                Ok(id) => is_id_text(s@) && id@ == id_bytes(s@),
                Err(reason) => !is_id_text(s@) && reason@ == id_refusal(s@),
            },
    {
        match parse_object_id(s) {
            Ok(bytes) => Ok(WorkflowId(bytes)),
            Err(reason) => Err(reason),
        }
    }

    /// The identity in hexadecimal.
    pub fn to_string(&self) -> (s: String)
        ensures
            s@ == hex_text(self@),
    {
        object_id_text(self.0)
    }
}

proof fn a_digit_reads_back(n: nat)
    requires
        n < 16,
    ensures
        hex_value(hex_digit(n)) == Some(n),
{
    if n < 10 {
        assert(hex_digit(n) as nat == 48 + n);
    } else {
        assert(hex_digit(n) as nat == 87 + n);
    }
}

/// An identity that is written out reads back as itself: its text is accepted,
/// and stands for the same bytes.
pub proof fn an_id_reads_back_from_its_text(id: Seq<u8>)
    requires
        id.len() == 12,
    ensures
        is_id_text(hex_text(id)),
        id_bytes(hex_text(id)) == id,
{
    let text = hex_text(id);
    assert forall|i: int| 0 <= i < 24 implies (#[trigger] hex_value(text[i])) is Some by {
        let b = id[i / 2];
        a_digit_reads_back((b / 16) as nat);
        a_digit_reads_back((b % 16) as nat);
    }
    assert forall|i: int| 0 <= i < 12 implies #[trigger] id_bytes(text)[i] == id[i] by {
        let b = id[i];
        assert((2 * i) / 2 == i && (2 * i) % 2 == 0);
        assert((2 * i + 1) / 2 == i && (2 * i + 1) % 2 == 1);
        a_digit_reads_back((b / 16) as nat);
        a_digit_reads_back((b % 16) as nat);
        assert(text[2 * i] == hex_digit((b / 16) as nat));
        assert(text[2 * i + 1] == hex_digit((b % 16) as nat));
        assert((b / 16) * 16 + b % 16 == b);
    }
    assert(id_bytes(text) =~= id);
}

/// The lower-case form of a hexadecimal text.
pub open spec fn lower_case(s: Seq<char>) -> Seq<char> {
    s.map_values(|c: char| hex_digit(hex_value(c)->0))
}

/// An accepted text is written back in lower case: reading it does not depend on
/// the case of its digits and loses nothing else.
pub proof fn a_text_is_written_back_in_lower_case(s: Seq<char>)
    requires
        is_id_text(s),
    ensures
        hex_text(id_bytes(s)) == lower_case(s),
{
    let bytes = id_bytes(s);
    assert forall|i: int| 0 <= i < 24 implies #[trigger] hex_text(bytes)[i] == lower_case(s)[i] by {
        let h = i / 2;
        assert(hex_value(s[2 * h]) is Some && hex_value(s[2 * h + 1]) is Some);
        let high = hex_value(s[2 * h])->0;
        let low = hex_value(s[2 * h + 1])->0;
        assert(high < 16 && low < 16);
        assert(bytes[h] == high * 16 + low);
        assert((high * 16 + low) / 16 == high && (high * 16 + low) % 16 == low);
        assert(i == 2 * h || i == 2 * h + 1);
    }
    assert(hex_text(bytes) =~= lower_case(s));
}

// ── Workflows ──────────────────────────────────────────────────────────────

/// A workflow definition: a directed graph of nodes.
#[derive(Debug, PartialEq)]
pub struct Workflow {
    pub id: WorkflowId,
    pub name: String,
    pub nodes: Vec<Node>,
    pub edges: Vec<Edge>,
    pub created_at: i64,
    pub updated_at: i64,
}

impl Workflow {
    /// Whether two workflows say the same.
    pub open spec fn same_as(self, other: Workflow) -> bool {
        &&& self.id == other.id
        &&& self.name == other.name
        &&& self.nodes@.len() == other.nodes@.len()
        &&& forall|i: int|
            0 <= i < self.nodes@.len() ==> (#[trigger] self.nodes@[i]).same_as(other.nodes@[i])
        &&& self.edges@ == other.edges@
        &&& self.created_at == other.created_at
        &&& self.updated_at == other.updated_at
    }
}

impl Clone for Workflow {
    fn clone(&self) -> (copy: Self)
        ensures
            self.same_as(copy),
            copy.id == self.id,
            copy.name == self.name,
            copy.edges@ == self.edges@,
            copy.nodes@.len() == self.nodes@.len(),
            forall|i: int|
                0 <= i < self.nodes@.len() ==> (#[trigger] copy.nodes@[i]).id == self.nodes@[i].id
                    && copy.nodes@[i].trigger == self.nodes@[i].trigger,
            copy.created_at == self.created_at,
            copy.updated_at == self.updated_at,
    {
        let nodes = self.nodes.clone();
        let edges = self.edges.clone();
        proof {
            assert forall|i: int| 0 <= i < nodes@.len() implies (
            #[trigger] self.nodes@[i]).same_as(nodes@[i]) by {
                assert(cloned::<Node>(self.nodes@[i], nodes@[i]));
            }
            assert forall|i: int| 0 <= i < edges@.len() implies #[trigger] self.edges@[i]
                == edges@[i] by {
                assert(cloned::<Edge>(self.edges@[i], edges@[i]));
            }
            assert(edges@ =~= self.edges@);
        }
        Workflow {
            id: self.id,
            name: self.name.clone(),
            nodes,
            edges,
            created_at: self.created_at,
            updated_at: self.updated_at,
        }
    }
}

/// What it takes to create a workflow; the id and the times are assigned.
#[derive(Debug, PartialEq)]
pub struct NewWorkflow {
    pub name: String,
    pub nodes: Vec<Node>,
    pub edges: Vec<Edge>,
}

/// Why a workflow was not stored, found or accepted.
#[derive(Debug, PartialEq, Eq)]
pub enum WorkflowError {
    Db(String),
    Serialization(String),
    NotFound(String),
    Invalid(String),
}

impl WorkflowError {
    /// The error as it is shown.
    pub open spec fn text(&self) -> Seq<char> {
        match self {
            WorkflowError::Db(reason) => "database: "@ + reason@,
            WorkflowError::Serialization(reason) => "serialization: "@ + reason@,
            WorkflowError::NotFound(id) => "workflow not found: "@ + id@,
            WorkflowError::Invalid(reason) => "invalid workflow: "@ + reason@,
        }
    }

    /// The error as it is shown.
    pub fn to_string(&self) -> (s: String)
        ensures
            s@ == self.text(),
            self matches WorkflowError::Db(reason) ==> s@ == "database: "@ + reason@,
            self matches WorkflowError::Serialization(reason) ==> s@ == "serialization: "@ + reason@,
            self matches WorkflowError::NotFound(id) ==> s@ == "workflow not found: "@ + id@,
            self matches WorkflowError::Invalid(reason) ==> s@ == "invalid workflow: "@ + reason@,
    {
        match self {
            WorkflowError::Db(reason) => {
                let mut s = "database: ".to_owned();
                s.append(reason.as_str());
                s
            },
            WorkflowError::Serialization(reason) => {
                let mut s = "serialization: ".to_owned();
                s.append(reason.as_str());
                s
            },
            WorkflowError::NotFound(id) => {
                let mut s = "workflow not found: ".to_owned();
                s.append(id.as_str());
                s
            },
            WorkflowError::Invalid(reason) => {
                let mut s = "invalid workflow: ".to_owned();
                s.append(reason.as_str());
                s
            },
        }
    }
}

/// What is shown of an error ends with its reason.
pub proof fn a_workflow_error_shows_its_reason(e: WorkflowError)
    ensures
        match e {
            WorkflowError::Db(reason) => ends_with(e.text(), reason@),
            WorkflowError::Serialization(reason) => ends_with(e.text(), reason@),
            WorkflowError::NotFound(id) => ends_with(e.text(), id@),
            WorkflowError::Invalid(reason) => ends_with(e.text(), reason@),
        },
{
    let text = e.text();
    let end = match e {
        WorkflowError::Db(reason) => reason@,
        WorkflowError::Serialization(reason) => reason@,
        WorkflowError::NotFound(id) => id@,
        WorkflowError::Invalid(reason) => reason@,
    };
    assert(text.subrange(text.len() - end.len(), text.len() as int) =~= end);
}

impl Workflow {
    /// Whether some edge leads into the node with this id.
    pub open spec fn is_fed(&self, id: Seq<char>) -> bool {
        exists|i: int| 0 <= i < self.edges@.len() && (#[trigger] self.edges@[i]).to.0@ == id
    }

    /// Whether the `i`-th node breaks the rule that a trigger node is a source:
    /// an edge into it would be a second, competing input.
    pub open spec fn offends(&self, i: int) -> bool {
        self.nodes@[i].trigger is Some && self.is_fed(self.nodes@[i].id.0@)
    }

    fn has_incoming_edge(&self, id: &NodeId) -> (b: bool)
        ensures
            b == self.is_fed(id.0@),
    {
        let mut i: usize = 0;
        while i < self.edges.len()
            invariant
                i <= self.edges@.len(),
                forall|j: int| 0 <= j < i ==> (#[trigger] self.edges@[j]).to.0@ != id.0@,
            decreases self.edges@.len() - i,
        {
            if same_text(self.edges[i].to.0.as_str(), id.0.as_str()) {
                assert(self.edges@[i as int].to.0@ == id.0@);
                return true;
            }
            i += 1;
        }
        false
    }

    /// Structural validation: a node with a trigger has no incoming edge. The
    /// first node that breaks the rule is named.
    pub fn validate(&self) -> (r: Result<(), WorkflowError>)
        ensures
            match r {
                Ok(()) => forall|i: int| 0 <= i < self.nodes@.len() ==> !#[trigger] self.offends(i),
                Err(e) => exists|i: int|
                    {
                        &&& 0 <= i < self.nodes@.len()
                        &&& #[trigger] self.offends(i)
                        &&& forall|j: int| 0 <= j < i ==> !#[trigger] self.offends(j)
                        &&& e matches WorkflowError::Invalid(message) && message@ == "trigger node `"@
                            + self.nodes@[i].id.0@
                            + "` has an incoming edge; a trigger node must be a source"@
                    },
            },
            r is Ok <==> forall|i: int, j: int|
                0 <= i < self.nodes@.len() && 0 <= j < self.edges@.len() && (
                #[trigger] self.nodes@[i]).trigger is Some ==> (#[trigger] self.edges@[j]).to.0@
                    != self.nodes@[i].id.0@,
    {
        let mut i: usize = 0;
        while i < self.nodes.len()
            invariant
                i <= self.nodes@.len(),
                forall|j: int| 0 <= j < i ==> !#[trigger] self.offends(j),
            decreases self.nodes@.len() - i,
        {
            let node = &self.nodes[i];
            if node.trigger.is_some() && self.has_incoming_edge(&node.id) {
                let mut message = "trigger node `".to_owned();
                message.append(node.id.0.as_str());
                message.append("` has an incoming edge; a trigger node must be a source");
                assert(self.offends(i as int));
                return Err(WorkflowError::Invalid(message));
            }
            assert(!self.offends(i as int));
            i += 1;
        }
        assert forall|i: int, j: int|
            0 <= i < self.nodes@.len() && 0 <= j < self.edges@.len() && (
            #[trigger] self.nodes@[i]).trigger is Some implies (#[trigger] self.edges@[j]).to.0@
            != self.nodes@[i].id.0@ by {
            assert(!self.offends(i));
        }
        Ok(())
    }
}

/// A node breaks the rule exactly where it has a trigger and some edge ends in it.
pub proof fn a_trigger_node_with_an_edge_in_offends(workflow: Workflow, i: int)
    requires
        0 <= i < workflow.nodes@.len(),
    ensures
        workflow.offends(i) <==> workflow.nodes@[i].trigger is Some && exists|j: int|
            0 <= j < workflow.edges@.len() && (#[trigger] workflow.edges@[j]).to.0@
                == workflow.nodes@[i].id.0@,
{
}

// ── What the store decides ─────────────────────────────────────────────────

/// A count of milliseconds cut to 64 bits, read as a signed number.
pub open spec fn signed_millis(millis: u128) -> int {
    let low = millis % 0x1_0000_0000_0000_0000;
    if low < 0x8000_0000_0000_0000 {
        low as int
    } else {
        low - 0x1_0000_0000_0000_0000
    }
}

/// The time to stamp onto a workflow, given the milliseconds since the epoch; 0
/// where the clock stands before it.
pub fn now_millis(since_epoch: Option<u128>) -> (now: i64)
    ensures
        now == (match since_epoch {
            Some(millis) => signed_millis(millis),
            None => 0,
        }),
        since_epoch is None ==> now == 0,
        since_epoch matches Some(millis) ==> {
            &&& millis <= i64::MAX ==> now == millis
            &&& (millis - now) % 0x1_0000_0000_0000_0000 == 0
        },
{
    match since_epoch {
        Some(millis) => {
            let low: u64 = (millis % 0x1_0000_0000_0000_0000) as u64;
            proof {
                assert(low < 0x8000_0000_0000_0000 ==> (low as i64) == low) by (bit_vector);
                assert(low >= 0x8000_0000_0000_0000 ==> (low as i64) == low
                    - 0x1_0000_0000_0000_0000) by (bit_vector);
            }
            low as i64
        },
        None => 0,
    }
}

/// A new workflow under a fresh id, created and updated now.
pub fn create(new: NewWorkflow, now: i64) -> (w: Workflow)
    ensures
        was_made_fresh(w.id.0),
        w.name == new.name,
        w.nodes == new.nodes,
        w.edges == new.edges,
        w.created_at == now,
        w.updated_at == now,
{
    Workflow {
        id: WorkflowId::new(),
        name: new.name,
        nodes: new.nodes,
        edges: new.edges,
        created_at: now,
        updated_at: now,
    }
}

/// The workflow as it replaces its stored self: updated now, all else kept.
pub fn update(workflow: Workflow, now: i64) -> (w: Workflow)
    ensures
        w == (Workflow { updated_at: now, ..workflow }),
{
    let mut w = workflow;
    w.updated_at = now;
    w
}

} // verus!
