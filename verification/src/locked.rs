//! Locked workflows: every component resolved, ready to be executed.

use crate::json::Json;
use crate::table::Table;
use crate::text::same_text;
use vstd::prelude::*;

verus! {

/// The runtime a component is configured for.
#[derive(Debug, Clone, Copy, PartialEq, Eq, Structural)]
pub enum ConfigRuntimeType {
    Wasm,
    Lua,
    Js,
}

/// The runtime a component is executed on.
#[derive(Debug, Clone, Copy, PartialEq, Eq, Structural)]
pub enum RuntimeType {
    Wasm,
    Lua,
}

/// Which branches a join waits for.
#[derive(Debug, Clone, Copy, PartialEq, Eq, Structural)]
pub enum JoinStrategy {
    All,
}

/// How a loop runs its iterations.
#[derive(Debug, Clone, Copy, PartialEq, Eq, Structural)]
pub enum ExecutionMode {
    Sequential,
    Parallel,
}

/// What a loop does when an iteration fails.
#[derive(Debug, Clone, Copy, PartialEq, Eq, Structural)]
pub enum LoopFailureMode {
    Stop,
    Continue,
}

/// A resolved node.
#[derive(Debug, PartialEq)]
pub struct Node {
    pub node_id: String,
    pub node_type: NodeType,
    /// The template of each input, by input name.
    pub inputs: Table<String>,
    pub timeout_ms: Option<u64>,
    pub max_retry_attempts: Option<u32>,
    pub fail_workflow: bool,
}

/// What a resolved node is.
#[derive(Debug, PartialEq)]
pub enum NodeType {
    /// A task of a component.
    Component(LockedComponent),
    /// A merge of several branches.
    Join { strategy: JoinStrategy },
    /// A loop over a nested workflow.
    Loop(LockedLoop),
}

/// A component task that has been resolved.
#[derive(Debug, PartialEq)]
pub struct LockedComponent {
    pub name: String,
    pub version: String,
    /// Digest of the component's binary.
    pub digest: String,
    /// The task within the component.
    pub task_name: String,
    /// Schema of the task's input.
    pub input_schema: Json,
    pub runtime_type: ConfigRuntimeType,
}

/// A loop and the workflow inside it.
#[derive(Debug, PartialEq)]
pub struct LockedLoop {
    pub execution_mode: ExecutionMode,
    pub concurrency: Option<u32>,
    pub failure_mode: LoopFailureMode,
    pub workflow: Box<Workflow>,
}

/// A locked workflow: a directed graph of resolved nodes.
#[derive(Debug, PartialEq)]
pub struct Workflow {
    pub workflow_id: String,
    pub name: String,
    pub nodes: Table<Node>,
    /// From and to, by node id.
    pub edges: Vec<(String, String)>,
    pub timeout_ms: Option<u64>,
    pub max_retry_attempts: Option<u32>,
}

// ── Copies ─────────────────────────────────────────────────────────────────

impl LockedComponent {
    /// Whether two components say the same.
    pub open spec fn same_as(self, other: LockedComponent) -> bool {
        &&& self.name == other.name
        &&& self.version == other.version
        &&& self.digest == other.digest
        &&& self.task_name == other.task_name
        &&& self.input_schema@ == other.input_schema@
        &&& self.runtime_type == other.runtime_type
    }
}

impl Clone for LockedComponent {
    fn clone(&self) -> (copy: Self)
        ensures
            self.same_as(copy),
            copy.name == self.name,
            copy.version == self.version,
            copy.digest == self.digest,
            copy.task_name == self.task_name,
            copy.input_schema@ == self.input_schema@,
            copy.runtime_type == self.runtime_type,
    {
        LockedComponent {
            name: self.name.clone(),
            version: self.version.clone(),
            digest: self.digest.clone(),
            task_name: self.task_name.clone(),
            input_schema: self.input_schema.clone(),
            runtime_type: self.runtime_type,
        }
    }
}

impl Node {
    /// Whether two nodes say the same.
    pub open spec fn same_as(self, other: Node) -> bool
        decreases self,
    {
        &&& self.node_id == other.node_id
        &&& self.node_type.same_as(other.node_type)
        &&& self.inputs.order() == other.inputs.order()
        &&& self.inputs.items() == other.inputs.items()
        &&& self.timeout_ms == other.timeout_ms
        &&& self.max_retry_attempts == other.max_retry_attempts
        &&& self.fail_workflow == other.fail_workflow
    }
}

impl NodeType {
    /// Whether two nodes are of the same type, with the same configuration.
    pub open spec fn same_as(self, other: NodeType) -> bool
        decreases self,
    {
        match (self, other) {
            (NodeType::Component(a), NodeType::Component(b)) => a.same_as(b),
            (NodeType::Join { strategy: a }, NodeType::Join { strategy: b }) => a == b,
            (NodeType::Loop(a), NodeType::Loop(b)) => a.same_as(b),
            _ => false,
        }
    }
}

impl LockedLoop {
    /// Whether two loops say the same.
    pub open spec fn same_as(self, other: LockedLoop) -> bool
        decreases self,
    {
        &&& self.execution_mode == other.execution_mode
        &&& self.concurrency == other.concurrency
        &&& self.failure_mode == other.failure_mode
        &&& self.workflow.same_as(*other.workflow)
    }
}

impl Workflow {
    /// Whether two workflows say the same.
    pub open spec fn same_as(self, other: Workflow) -> bool
        decreases self,
    {
        proof {
            assert forall|i: int| 0 <= i < self.nodes.items().len() implies decreases_to!(
                self => #[trigger] self.nodes.items()[i]
            ) by {
                self.nodes.an_item_is_part_of_the_table(i);
                assert(decreases_to!(self => self.nodes));
            }
        }
        &&& self.workflow_id == other.workflow_id
        &&& self.name == other.name
        &&& self.edges@ == other.edges@
        &&& self.timeout_ms == other.timeout_ms
        &&& self.max_retry_attempts == other.max_retry_attempts
        &&& self.nodes.order() == other.nodes.order()
        &&& self.nodes.items().len() == other.nodes.items().len()
        &&& forall|i: int|
            0 <= i < self.nodes.items().len() ==> (#[trigger] self.nodes.items()[i]).same_as(
                other.nodes.items()[i],
            )
    }
}

fn copy_of_node(node: &Node) -> (copy: Node)
    ensures
        node.same_as(copy),
    decreases node,
{
    let node_type = match &node.node_type {
        NodeType::Component(component) => NodeType::Component(component.clone()),
        NodeType::Join { strategy } => NodeType::Join { strategy: *strategy },
        NodeType::Loop(l) => {
            assert(decreases_to!(node => node.node_type));
            assert(decreases_to!(node.node_type => node.node_type->Loop_0));
            assert(decreases_to!(l => l.workflow));
            NodeType::Loop(
                LockedLoop {
                    execution_mode: l.execution_mode,
                    concurrency: l.concurrency,
                    failure_mode: l.failure_mode,
                    workflow: Box::new(copy_of_workflow(&l.workflow)),
                },
            )
        },
    };
    let inputs = node.inputs.clone();
    assert(inputs.items() =~= node.inputs.items());
    Node {
        node_id: node.node_id.clone(),
        node_type,
        inputs,
        timeout_ms: node.timeout_ms,
        max_retry_attempts: node.max_retry_attempts,
        fail_workflow: node.fail_workflow,
    }
}

fn copy_of_edges(edges: &Vec<(String, String)>) -> (copy: Vec<(String, String)>)
    ensures
        copy@ == edges@,
{
    let mut copy: Vec<(String, String)> = Vec::new();
    let mut i: usize = 0;
    while i < edges.len()
        invariant
            i <= edges@.len(),
            copy@ == edges@.take(i as int),
        decreases edges@.len() - i,
    {
        copy.push((edges[i].0.clone(), edges[i].1.clone()));
        assert(copy@ =~= edges@.take(i + 1));
        i += 1;
    }
    assert(edges@.take(i as int) =~= edges@);
    copy
}

fn copy_of_workflow(workflow: &Workflow) -> (copy: Workflow)
    ensures
        workflow.same_as(copy),
    decreases workflow,
{
    let nodes = workflow.nodes.all_values();
    let mut copies: Vec<Node> = Vec::new();
    let mut i: usize = 0;
    while i < nodes.len()
        invariant
            nodes@ == workflow.nodes.items(),
            i <= nodes@.len(),
            copies@.len() == i,
            forall|j: int| 0 <= j < i ==> (#[trigger] nodes@[j]).same_as(copies@[j]),
        decreases nodes@.len() - i,
    {
        proof {
            workflow.nodes.an_item_is_part_of_the_table(i as int);
            assert(decreases_to!(workflow => workflow.nodes));
        }
        copies.push(copy_of_node(&nodes[i]));
        i += 1;
    }
    Workflow {
        workflow_id: workflow.workflow_id.clone(),
        name: workflow.name.clone(),
        nodes: workflow.nodes.with_values(copies),
        edges: copy_of_edges(&workflow.edges),
        timeout_ms: workflow.timeout_ms,
        max_retry_attempts: workflow.max_retry_attempts,
    }
}

impl Clone for Node {
    fn clone(&self) -> (copy: Self)
        ensures
            self.same_as(copy),
            copy.node_id == self.node_id,
            copy.inputs.order() == self.inputs.order(),
            copy.inputs.items() == self.inputs.items(),
            copy.timeout_ms == self.timeout_ms,
            copy.max_retry_attempts == self.max_retry_attempts,
            copy.fail_workflow == self.fail_workflow,
            self.node_type is Component <==> copy.node_type is Component,
            self.node_type is Join <==> copy.node_type is Join,
    {
        copy_of_node(self)
    }
}

impl Clone for LockedLoop {
    fn clone(&self) -> (copy: Self)
        ensures
            self.same_as(copy),
    {
        LockedLoop {
            execution_mode: self.execution_mode,
            concurrency: self.concurrency,
            failure_mode: self.failure_mode,
            workflow: Box::new(copy_of_workflow(&self.workflow)),
        }
    }
}

impl Clone for NodeType {
    fn clone(&self) -> (copy: Self)
        ensures
            self.same_as(copy),
    {
        match self {
            NodeType::Component(component) => NodeType::Component(component.clone()),
            NodeType::Join { strategy } => NodeType::Join { strategy: *strategy },
            NodeType::Loop(l) => NodeType::Loop(l.clone()),
        }
    }
}

impl Clone for Workflow {
    fn clone(&self) -> (copy: Self)
        ensures
            self.same_as(copy),
            self.wf() ==> copy.wf(),
            copy.workflow_id == self.workflow_id,
            copy.name == self.name,
            copy.edges@ == self.edges@,
            copy.nodes.order() == self.nodes.order(),
            copy.nodes.items().len() == self.nodes.items().len(),
            copy.timeout_ms == self.timeout_ms,
            copy.max_retry_attempts == self.max_retry_attempts,
    {
        let copy = copy_of_workflow(self);
        proof {
            if self.wf() {
                self.nodes.tables_of_one_shape(copy.nodes);
            }
        }
        copy
    }
}

// ── The graph ──────────────────────────────────────────────────────────────

/// The nodes with an edge into `id`, in the order of the edges.
pub open spec fn sources(edges: Seq<(String, String)>, id: Seq<char>) -> Seq<Seq<char>>
    decreases edges.len(),
{
    if edges.len() == 0 {
        Seq::empty()
    } else if edges.last().1@ == id {
        sources(edges.drop_last(), id).push(edges.last().0@)
    } else {
        sources(edges.drop_last(), id)
    }
}

/// A node is a source of `id` exactly where there is an edge from it to `id`.
pub proof fn sources_are_the_edges_in(edges: Seq<(String, String)>, id: Seq<char>, from: Seq<char>)
    ensures
        sources(edges, id).contains(from) <==> exists|i: int|
            0 <= i < edges.len() && (#[trigger] edges[i]).0@ == from && edges[i].1@ == id,
    decreases edges.len(),
{
    if edges.len() > 0 {
        let rest = edges.drop_last();
        sources_are_the_edges_in(rest, id, from);
        let before = sources(rest, id);
        let last = edges.last();
        if before.contains(from) {
            let i = choose|i: int|
                0 <= i < rest.len() && (#[trigger] rest[i]).0@ == from && rest[i].1@ == id;
            assert(edges[i] == rest[i]);
            let j = choose|j: int| 0 <= j < before.len() && before[j] == from;
            if last.1@ == id {
                assert(before.push(last.0@)[j] == from);
            }
        }
        if last.1@ == id && last.0@ == from {
            assert(edges[edges.len() - 1] == last);
            assert(before.push(last.0@)[before.len() as int] == from);
        }
        if sources(edges, id).contains(from) && !before.contains(from) {
            let j = choose|j: int|
                0 <= j < sources(edges, id).len() && sources(edges, id)[j] == from;
            assert(last.1@ == id);
            if j < before.len() {
                assert(before[j] == from);
            }
        }
        if exists|i: int|
            0 <= i < edges.len() && (#[trigger] edges[i]).0@ == from && edges[i].1@ == id {
            let i = choose|i: int|
                0 <= i < edges.len() && (#[trigger] edges[i]).0@ == from && edges[i].1@ == id;
            if i < rest.len() {
                assert(rest[i] == edges[i]);
            }
        }
    }
}

/// Nothing is upstream of a node exactly where no edge leads into it, and several
/// branches meet in it exactly where two edges do.
pub proof fn sources_number_the_edges_in(edges: Seq<(String, String)>, id: Seq<char>)
    ensures
        sources(edges, id).len() == 0 <==> forall|i: int|
            0 <= i < edges.len() ==> (#[trigger] edges[i]).1@ != id,
        sources(edges, id).len() > 1 <==> exists|i: int, j: int|
            0 <= i < j < edges.len() && (#[trigger] edges[i]).1@ == id && (#[trigger] edges[j]).1@
                == id,
    decreases edges.len(),
{
    if edges.len() > 0 {
        let rest = edges.drop_last();
        let last = edges.len() - 1;
        sources_number_the_edges_in(rest, id);
        assert(forall|i: int| 0 <= i < last ==> rest[i] == #[trigger] edges[i]);
        if sources(rest, id).len() > 1 {
            let (i, j) = choose|i: int, j: int|
                0 <= i < j < rest.len() && (#[trigger] rest[i]).1@ == id && (
                #[trigger] rest[j]).1@ == id;
            assert(edges[i].1@ == id && edges[j].1@ == id);
        }
        if sources(rest, id).len() == 1 && edges[last].1@ == id {
            let i = choose|i: int| 0 <= i < rest.len() && (#[trigger] rest[i]).1@ == id;
            assert(edges[i].1@ == id && edges[last].1@ == id);
        }
        if exists|i: int, j: int|
            0 <= i < j < edges.len() && (#[trigger] edges[i]).1@ == id && (#[trigger] edges[j]).1@
                == id {
            let (i, j) = choose|i: int, j: int|
                0 <= i < j < edges.len() && (#[trigger] edges[i]).1@ == id && (
                #[trigger] edges[j]).1@ == id;
            assert(rest[i].1@ == id);
            if j < last {
                assert(rest[j].1@ == id);
            }
        }
        if sources(edges, id).len() == 0 {
            assert(edges[last].1@ != id);
            assert forall|i: int| 0 <= i < edges.len() implies (#[trigger] edges[i]).1@ != id by {
                if i < last {
                    assert(rest[i].1@ != id);
                }
            }
        } else if edges[last].1@ != id {
            let i = choose|i: int| 0 <= i < rest.len() && (#[trigger] rest[i]).1@ == id;
            assert(edges[i].1@ == id);
        }
    }
}

/// The sources stand in the order of the edges: an edge into `id` contributes the node
/// it comes from, any other edge nothing, and what the first edges contribute comes
/// before what the others do.
pub proof fn sources_follow_the_order_of_the_edges(
    first: Seq<(String, String)>,
    others: Seq<(String, String)>,
    edge: (String, String),
    id: Seq<char>,
)
    ensures
        sources(first + others, id) == sources(first, id) + sources(others, id),
        edge.1@ == id ==> sources(seq![edge], id) == seq![edge.0@],
        edge.1@ != id ==> sources(seq![edge], id).len() == 0,
    decreases others.len(),
{
    let one = seq![edge];
    assert(one.drop_last().len() == 0);
    assert(sources(one.drop_last(), id) =~= Seq::empty());
    if edge.1@ == id {
        assert(sources(one, id) =~= seq![edge.0@]);
    }
    if others.len() == 0 {
        assert(first + others =~= first);
        assert(sources(others, id) =~= Seq::empty());
        assert(sources(first, id) + sources(others, id) =~= sources(first, id));
    } else {
        let all = first + others;
        assert(all.drop_last() =~= first + others.drop_last());
        assert(all.last() == others.last());
        sources_follow_the_order_of_the_edges(first, others.drop_last(), edge, id);
        assert(sources(all, id) =~= sources(first, id) + sources(others, id));
    }
}

impl Workflow {
    pub open spec fn wf(&self) -> bool {
        self.nodes.wf()
    }

    /// The nodes that must complete before `id` can run.
    pub open spec fn sources_of(&self, id: Seq<char>) -> Seq<Seq<char>> {
        sources(self.edges@, id)
    }

    pub fn get_node(&self, id: &str) -> (node: Option<&Node>)
        requires
            self.wf(),
        ensures
            match node {
                Some(node) => self.nodes@.contains_key(id@) && *node == self.nodes@[id@],
                None => !self.nodes@.contains_key(id@),
            },
    {
        self.nodes.get(id)
    }

    /// The nodes with an edge into `id`, in the order of the edges.
    pub fn upstream(&self, id: &str) -> (up: Vec<String>)
        ensures
            up@.map_values(|s: String| s@) == self.sources_of(id@),
    {
        let mut up: Vec<String> = Vec::new();
        let mut i: usize = 0;
        assert(up@.map_values(|s: String| s@) =~= sources(self.edges@.take(0), id@));
        while i < self.edges.len()
            invariant
                i <= self.edges@.len(),
                up@.map_values(|s: String| s@) == sources(self.edges@.take(i as int), id@),
            decreases self.edges@.len() - i,
        {
            let ghost before = up@;
            assert(self.edges@.take(i + 1).drop_last() =~= self.edges@.take(i as int));
            assert(self.edges@.take(i + 1).last() == self.edges@[i as int]);
            if same_text(self.edges[i].1.as_str(), id) {
                up.push(self.edges[i].0.clone());
                assert(up@.map_values(|s: String| s@) =~= before.map_values(|s: String| s@).push(
                    self.edges@[i as int].0@,
                ));
            }
            i += 1;
        }
        assert(self.edges@.take(i as int) =~= self.edges@);
        up
    }

    /// Whether several branches meet in `id`.
    pub fn is_join_point(&self, id: &str) -> (b: bool)
        ensures
            b == (self.sources_of(id@).len() > 1),
    {
        let up = self.upstream(id);
        assert(up@.map_values(|s: String| s@).len() == up@.len());
        up.len() > 1
    }

    /// The nodes without an edge into them, in the order of the nodes.
    pub open spec fn entries(&self) -> Seq<Seq<char>> {
        self.nodes.order().filter(|id: Seq<char>| self.sources_of(id).len() == 0)
    }

    /// The nodes without an edge into them, in the order of the nodes.
    pub fn entry_points(&self) -> (ids: Vec<String>)
        requires
            self.wf(),
        ensures
            ids@.map_values(|s: String| s@) == self.entries(),
    {
        let ghost entry = |id: Seq<char>| self.sources_of(id).len() == 0;
        let mut ids: Vec<String> = Vec::new();
        let mut i: usize = 0;
        proof {
            reveal(Seq::filter);
            assert(self.nodes.order().take(0).filter(entry) =~= Seq::empty());
            assert(ids@.map_values(|s: String| s@) =~= Seq::<Seq<char>>::empty());
        }
        while i < self.nodes.len()
            invariant
                self.wf(),
                i <= self.nodes.order().len(),
                entry == (|id: Seq<char>| self.sources_of(id).len() == 0),
                ids@.map_values(|s: String| s@) == self.nodes.order().take(i as int).filter(entry),
            decreases self.nodes.order().len() - i,
        {
            let ghost before = ids@;
            let id = self.nodes.key(i);
            proof {
                reveal(Seq::filter);
                assert(self.nodes.order().take(i + 1).drop_last() =~= self.nodes.order().take(
                    i as int,
                ));
                assert(self.nodes.order().take(i + 1).last() == id@);
            }
            let up = self.upstream(id.as_str());
            assert(up@.map_values(|s: String| s@).len() == up@.len());
            if up.len() == 0 {
                ids.push(id.clone());
                assert(ids@.map_values(|s: String| s@) =~= before.map_values(
                    |s: String| s@,
                ).push(id@));
            }
            i += 1;
        }
        assert(self.nodes.order().take(i as int) =~= self.nodes.order());
        ids
    }
}

} // verus!
