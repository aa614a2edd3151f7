//! Execution of locked workflows, wave by wave.
//!
//! A node runs once every node with an edge into it has completed. What a node
//! is handed, what comes of it, and when a workflow is finished, refused or
//! cancelled is decided here; the host resolves templates, loads components and
//! runs tasks.

use crate::actor::ends_with;
use crate::json::{Json, JsonModel, JsonObject};
use crate::locked::{
    ConfigRuntimeType, LockedComponent, Node, NodeType, RuntimeType, Workflow,
};
use crate::table::Table;
use vstd::prelude::*;

verus! {

/// The key under which entry points see the workflow's payload.
pub const PAYLOAD_KEY: &'static str = "_payload";

/// Why a workflow or a node could not be executed.
#[derive(Debug, PartialEq, Eq)]
pub enum OrchestratorError {
    /// The graph does not admit what was asked.
    InvalidGraph { message: String },
    /// A component could not be loaded.
    ComponentLoad { node_id: String, message: String },
    /// A node's inputs could not be resolved.
    Input { node_id: String, message: String },
    /// A task failed.
    TaskExecution { source: String },
    /// The execution was cancelled.
    Cancelled,
}

/// The meaning of an [`OrchestratorError`].
pub enum ErrorModel {
    InvalidGraph { message: Seq<char> },
    ComponentLoad { node_id: Seq<char>, message: Seq<char> },
    Input { node_id: Seq<char>, message: Seq<char> },
    TaskExecution { source: Seq<char> },
    Cancelled,
}

impl View for OrchestratorError {
    type V = ErrorModel;

    open spec fn view(&self) -> ErrorModel {
        match self {
            OrchestratorError::InvalidGraph { message } => ErrorModel::InvalidGraph {
                message: message@,
            },
            OrchestratorError::ComponentLoad { node_id, message } => ErrorModel::ComponentLoad {
                node_id: node_id@,
                message: message@,
            },
            OrchestratorError::Input { node_id, message } => ErrorModel::Input {
                node_id: node_id@,
                message: message@,
            },
            OrchestratorError::TaskExecution { source } => ErrorModel::TaskExecution {
                source: source@,
            },
            OrchestratorError::Cancelled => ErrorModel::Cancelled,
        }
    }
}

impl ErrorModel {
    /// The error as it is shown.
    pub open spec fn text(self) -> Seq<char> {
        match self {
            ErrorModel::InvalidGraph { message } => "invalid graph: "@ + message,
            ErrorModel::ComponentLoad { node_id, message } => "failed to load component '"@
                + node_id + "': "@ + message,
            ErrorModel::Input { node_id, message } => "failed to resolve inputs of node '"@
                + node_id + "': "@ + message,
            ErrorModel::TaskExecution { source } => "task execution failed: "@ + source,
            ErrorModel::Cancelled => "workflow cancelled"@,
        }
    }
}

impl OrchestratorError {
    /// The error as it is shown.
    pub fn to_string(&self) -> (s: String)
        ensures
            s@ == self@.text(),
            self matches OrchestratorError::InvalidGraph { message } ==> s@ == "invalid graph: "@
                + message@,
            self matches OrchestratorError::ComponentLoad { node_id, message } ==> s@
                == "failed to load component '"@ + node_id@ + "': "@ + message@,
            self matches OrchestratorError::Input { node_id, message } ==> s@
                == "failed to resolve inputs of node '"@ + node_id@ + "': "@ + message@,
            self matches OrchestratorError::TaskExecution { source } ==> s@
                == "task execution failed: "@ + source@,
            self is Cancelled ==> s@ == "workflow cancelled"@,
    {
        match self {
            OrchestratorError::InvalidGraph { message } => {
                let mut s = "invalid graph: ".to_owned();
                s.append(message.as_str());
                s
            },
            OrchestratorError::ComponentLoad { node_id, message } => {
                let mut s = "failed to load component '".to_owned();
                s.append(node_id.as_str());
                s.append("': ");
                s.append(message.as_str());
                s
            },
            OrchestratorError::Input { node_id, message } => {
                let mut s = "failed to resolve inputs of node '".to_owned();
                s.append(node_id.as_str());
                s.append("': ");
                s.append(message.as_str());
                s
            },
            OrchestratorError::TaskExecution { source } => {
                let mut s = "task execution failed: ".to_owned();
                s.append(source.as_str());
                s
            },
            OrchestratorError::Cancelled => "workflow cancelled".to_owned(),
        }
    }

    /// A refusal of the graph, for a message of three parts.
    fn invalid_graph(before: &str, id: &str, after: &str) -> (e: Self)
        ensures
            e@ == (ErrorModel::InvalidGraph { message: before@ + id@ + after@ }),
    {
        let mut message = before.to_owned();
        message.append(id);
        message.append(after);
        OrchestratorError::InvalidGraph { message }
    }
}

/// Errors that mean the same are of the same kind and tell the same.
pub proof fn errors_that_mean_the_same_tell_the_same(a: OrchestratorError, b: OrchestratorError)
    requires
        a@ == b@,
    ensures
        a matches OrchestratorError::InvalidGraph { message } ==> (
        b matches OrchestratorError::InvalidGraph { message: told } && told@ == message@),
        a matches OrchestratorError::ComponentLoad { node_id, message } ==> (
        b matches OrchestratorError::ComponentLoad { node_id: of, message: told } && of@ == node_id@
            && told@ == message@),
        a matches OrchestratorError::Input { node_id, message } ==> (
        b matches OrchestratorError::Input { node_id: of, message: told } && of@ == node_id@ && told@
            == message@),
        a matches OrchestratorError::TaskExecution { source } ==> (
        b matches OrchestratorError::TaskExecution { source: told } && told@ == source@),
        a is Cancelled <==> b is Cancelled,
{
}

/// What is shown of an error ends with its message.
pub proof fn an_execution_error_shows_its_message(e: ErrorModel)
    ensures
        match e {
            ErrorModel::InvalidGraph { message } => ends_with(e.text(), message),
            ErrorModel::ComponentLoad { message, .. } => ends_with(e.text(), message),
            ErrorModel::Input { message, .. } => ends_with(e.text(), message),
            ErrorModel::TaskExecution { source } => ends_with(e.text(), source),
            ErrorModel::Cancelled => true,
        },
{
    let text = e.text();
    let end = match e {
        ErrorModel::InvalidGraph { message } => message,
        ErrorModel::ComponentLoad { message, .. } => message,
        ErrorModel::Input { message, .. } => message,
        ErrorModel::TaskExecution { source } => source,
        ErrorModel::Cancelled => Seq::empty(),
    };
    assert(text.subrange(text.len() - end.len(), text.len() as int) =~= end);
}

/// What came of one node.
#[derive(Debug, PartialEq)]
pub struct NodeResult {
    pub task_id: String,
    pub node_id: String,
    /// What flowed in from upstream.
    pub input: Json,
    /// What the node's templates made of it.
    pub resolved_input: Json,
    pub output: Json,
}

/// The meaning of a [`NodeResult`].
pub struct NodeResultModel {
    pub task_id: Seq<char>,
    pub node_id: Seq<char>,
    pub input: JsonModel,
    pub resolved_input: JsonModel,
    pub output: JsonModel,
}

impl View for NodeResult {
    type V = NodeResultModel;

    open spec fn view(&self) -> NodeResultModel {
        NodeResultModel {
            task_id: self.task_id@,
            node_id: self.node_id@,
            input: self.input@,
            resolved_input: self.resolved_input@,
            output: self.output@,
        }
    }
}

/// Results that mean the same hold the same.
pub proof fn results_that_mean_the_same_hold_the_same(a: NodeResult, b: NodeResult)
    requires
        a@ == b@,
    ensures
        a.task_id@ == b.task_id@,
        a.node_id@ == b.node_id@,
        a.input@ == b.input@,
        a.resolved_input@ == b.resolved_input@,
        a.output@ == b.output@,
{
}

/// What came of a workflow.
#[derive(Debug, PartialEq)]
pub struct InvokeResult {
    pub execution_id: String,
    pub node_results: Table<NodeResult>,
}

/// Configuration of an orchestrator.
#[derive(Debug)]
pub struct OrchestratorConfig {}

impl Default for OrchestratorConfig {
    fn default() -> (c: Self)
        ensures
            c == (OrchestratorConfig {  }),
    {
        OrchestratorConfig {  }
    }
}

/// Executes one workflow.
pub struct Orchestrator {
    workflow: Workflow,
    config: OrchestratorConfig,
}

/// What a completed set of nodes has left behind.
pub type Completed = Map<Seq<char>, NodeResult>;

/// Whether every node with an edge into `id` has completed.
pub open spec fn unblocked(workflow: Workflow, done: Set<Seq<char>>, id: Seq<char>) -> bool {
    forall|up: Seq<char>| #[trigger] workflow.sources_of(id).contains(up) ==> done.contains(up)
}

/// Whether `id` can run now: it has not completed, and everything upstream has.
pub open spec fn ready(workflow: Workflow, done: Set<Seq<char>>, id: Seq<char>) -> bool {
    !done.contains(id) && unblocked(workflow, done, id)
}

/// The nodes that can run now, in the order of the nodes.
pub open spec fn wave(workflow: Workflow, done: Set<Seq<char>>) -> Seq<Seq<char>> {
    workflow.nodes.order().filter(|id: Seq<char>| ready(workflow, done, id))
}

impl Orchestrator {
    /// The workflow it executes.
    pub closed spec fn graph(&self) -> Workflow {
        self.workflow
    }

    /// An orchestrator for the given workflow; no workflow is refused here.
    pub fn new(workflow: Workflow, config: OrchestratorConfig) -> (r: Result<
        Self,
        OrchestratorError,
    >)
        ensures
            r matches Ok(o) && o.graph() == workflow,
    {
        Ok(Orchestrator { workflow, config })
    }

    pub fn workflow(&self) -> (w: &Workflow)
        ensures
            *w == self.graph(),
    {
        &self.workflow
    }

    /// Refuses a workflow in which nothing can start.
    pub fn validate_workflow(&self) -> (r: Result<(), OrchestratorError>)
        requires
            self.graph().wf(),
        ensures
            if self.graph().entries().len() == 0 {
                r matches Err(e) && e@ == (ErrorModel::InvalidGraph {
                    message: "workflow has no entry points"@,
                })
            } else {
                r is Ok
            },
    {
        let entries = self.workflow.entry_points();
        assert(entries@.map_values(|s: String| s@).len() == entries@.len());
        if entries.len() == 0 {
            return Err(
                OrchestratorError::InvalidGraph {
                    message: "workflow has no entry points".to_owned(),
                },
            );
        }
        Ok(())
    }

    /// Whether everything upstream of `id` has completed.
    fn is_unblocked(&self, id: &str, completed: &Table<NodeResult>) -> (b: bool)
        requires
            completed.wf(),
        ensures
            b == unblocked(self.graph(), completed@.dom(), id@),
    {
        let up = self.workflow.upstream(id);
        let ghost ids = up@.map_values(|s: String| s@);
        let mut i: usize = 0;
        while i < up.len()
            invariant
                completed.wf(),
                i <= up@.len(),
                ids == up@.map_values(|s: String| s@),
                ids == self.graph().sources_of(id@),
                forall|j: int| 0 <= j < i ==> completed@.contains_key(#[trigger] ids[j]),
            decreases up@.len() - i,
        {
            assert(ids[i as int] == up@[i as int]@);
            if !completed.contains(up[i].as_str()) {
                assert(self.graph().sources_of(id@).contains(ids[i as int]));
                return false;
            }
            i += 1;
        }
        true
    }

    /// The nodes that can run now: not completed, with everything upstream
    /// completed.
    pub fn find_ready_nodes(&self, completed: &Table<NodeResult>) -> (ids: Vec<String>)
        requires
            self.graph().wf(),
            completed.wf(),
        ensures
            ids@.map_values(|s: String| s@) == wave(self.graph(), completed@.dom()),
    {
        let ghost order = self.graph().nodes.order();
        let ghost is_ready = |id: Seq<char>| ready(self.graph(), completed@.dom(), id);
        let mut ids: Vec<String> = Vec::new();
        let mut i: usize = 0;
        proof {
            reveal(Seq::filter);
            assert(order.take(0).filter(is_ready) =~= Seq::empty());
            assert(ids@.map_values(|s: String| s@) =~= Seq::<Seq<char>>::empty());
        }
        while i < self.workflow.nodes.len()
            invariant
                self.graph().wf(),
                completed.wf(),
                order == self.graph().nodes.order(),
                i <= order.len(),
                is_ready == (|id: Seq<char>| ready(self.graph(), completed@.dom(), id)),
                ids@.map_values(|s: String| s@) == order.take(i as int).filter(is_ready),
            decreases order.len() - i,
        {
            let ghost before = ids@;
            let id = self.workflow.nodes.key(i);
            proof {
                reveal(Seq::filter);
                assert(order.take(i + 1).drop_last() =~= order.take(i as int));
                assert(order.take(i + 1).last() == id@);
            }
            if !completed.contains(id.as_str()) && self.is_unblocked(id.as_str(), completed) {
                ids.push(id.clone());
                assert(ids@.map_values(|s: String| s@) =~= before.map_values(
                    |s: String| s@,
                ).push(id@));
            }
            i += 1;
        }
        assert(order.take(i as int) =~= order);
        ids
    }
}

// ── What a node is handed ──────────────────────────────────────────────────

/// A table of JSON values, with each value's meaning.
pub open spec fn models(values: Map<Seq<char>, Json>) -> Map<Seq<char>, JsonModel> {
    values.map_values(|v: Json| v.model())
}

/// The data a node's templates see: the outputs of the completed nodes upstream,
/// by node, or the workflow's payload where nothing is upstream.
pub open spec fn gathered(
    upstream: Seq<Seq<char>>,
    completed: Completed,
    payload: JsonModel,
) -> Map<Seq<char>, JsonModel> {
    if upstream.len() == 0 {
        Map::empty().insert(PAYLOAD_KEY@, payload)
    } else {
        Map::new(
            |k: Seq<char>| upstream.contains(k) && completed.contains_key(k),
            |k: Seq<char>| completed[k].output@,
        )
    }
}

/// What flows into a node: the payload at an entry point, the one upstream
/// output on a straight edge, and all of them by node where branches meet.
pub open spec fn inflow(
    upstream: Seq<Seq<char>>,
    completed: Completed,
    payload: JsonModel,
) -> JsonModel {
    if upstream.len() > 1 {
        JsonModel::Object(gathered(upstream, completed, payload))
    } else if upstream.len() == 0 {
        payload
    } else if completed.contains_key(upstream[0]) {
        completed[upstream[0]].output@
    } else {
        JsonModel::Null
    }
}

/// A node that is about to run, and what it is handed.
pub struct NodePlan<'a> {
    pub node_id: String,
    pub node: &'a Node,
    /// What the node's templates see.
    pub upstream: Table<Json>,
    /// Whether several branches meet in the node.
    pub is_join: bool,
    /// What flows into the node.
    pub input: Json,
}

impl<'a> NodePlan<'a> {
    /// Whether this is the plan of node `id` of the workflow.
    pub open spec fn plans(
        &self,
        workflow: Workflow,
        id: Seq<char>,
        completed: Completed,
        payload: JsonModel,
    ) -> bool {
        let up = workflow.sources_of(id);
        &&& workflow.nodes@.contains_key(id)
        &&& self.node_id@ == id
        &&& *self.node == workflow.nodes@[id]
        &&& self.upstream.wf()
        &&& models(self.upstream@) == gathered(up, completed, payload)
        &&& self.is_join == (up.len() > 1)
        &&& self.input@ == inflow(up, completed, payload)
    }
}

/// The table as a JSON object.
fn object_of(values: &Table<Json>) -> (v: Json)
    requires
        values.wf(),
    ensures
        v@ == JsonModel::Object(models(values@)),
{
    let mut object = JsonObject::new();
    let mut i: usize = 0;
    let ghost order = values.order();
    proof {
        values.order_lists_the_keys();
    }
    while i < values.len()
        invariant
            values.wf(),
            order == values.order(),
            i <= order.len(),
            forall|k: Seq<char>| #[trigger]
                object@.contains_key(k) <==> order.take(i as int).contains(k),
            forall|k: Seq<char>| #[trigger]
                object@.contains_key(k) ==> values@.contains_key(k) && object@[k]
                    == values@[k].model(),
        decreases order.len() - i,
    {
        let ghost before = object@;
        let key = values.key(i);
        let value = values.value(i).clone();
        object = object.with(key.as_str(), value);
        proof {
            let now = order.take(i + 1);
            assert(now =~= order.take(i as int).push(key@));
            assert forall|k: Seq<char>| #[trigger] object@.contains_key(k) <==> now.contains(k) by {
                if order.take(i as int).contains(k) {
                    let j = choose|j: int|
                        0 <= j < i && order.take(i as int)[j] == k;
                    assert(now[j] == k);
                }
                if k == key@ {
                    assert(now[i as int] == k);
                }
                if now.contains(k) && k != key@ {
                    let j = choose|j: int| 0 <= j < now.len() && now[j] == k;
                    assert(order.take(i as int)[j] == k);
                }
            }
        }
        i += 1;
    }
    proof {
        assert(order.take(i as int) =~= order);
        assert(object@ =~= models(values@));
    }
    object.build()
}

impl Orchestrator {
    /// What the templates of a node see.
    fn gather(
        &self,
        upstream: &Vec<String>,
        completed: &Table<NodeResult>,
        payload: &Json,
    ) -> (data: Table<Json>)
        requires
            completed.wf(),
        ensures
            data.wf(),
            models(data@) == gathered(
                upstream@.map_values(|s: String| s@),
                completed@,
                payload@,
            ),
    {
        let ghost ids = upstream@.map_values(|s: String| s@);
        let mut data: Table<Json> = Table::new();
        if upstream.len() == 0 {
            data.insert(PAYLOAD_KEY.to_owned(), payload.clone());
            assert(models(data@) =~= gathered(ids, completed@, payload@));
            return data;
        }
        let mut i: usize = 0;
        while i < upstream.len()
            invariant
                completed.wf(),
                data.wf(),
                i <= upstream@.len(),
                ids == upstream@.map_values(|s: String| s@),
                forall|k: Seq<char>| #[trigger]
                    data@.contains_key(k) <==> ids.take(i as int).contains(k)
                        && completed@.contains_key(k),
                forall|k: Seq<char>| #[trigger]
                    data@.contains_key(k) ==> data@[k].model() == completed@[k].output@,
            decreases upstream@.len() - i,
        {
            let ghost before = data@;
            let id = &upstream[i];
            if let Some(result) = completed.get(id.as_str()) {
                data.insert(id.clone(), result.output.clone());
            }
            proof {
                let now = ids.take(i + 1);
                assert(now =~= ids.take(i as int).push(id@));
                assert forall|k: Seq<char>| #[trigger]
                    data@.contains_key(k) <==> now.contains(k) && completed@.contains_key(k) by {
                    if ids.take(i as int).contains(k) {
                        let j = choose|j: int| 0 <= j < i && ids.take(i as int)[j] == k;
                        assert(now[j] == k);
                    }
                    if k == id@ {
                        assert(now[i as int] == k);
                    }
                    if now.contains(k) && k != id@ {
                        let j = choose|j: int| 0 <= j < now.len() && now[j] == k;
                        assert(ids.take(i as int)[j] == k);
                    }
                }
            }
            i += 1;
        }
        proof {
            assert(ids.take(i as int) =~= ids);
            assert(models(data@) =~= gathered(ids, completed@, payload@));
        }
        data
    }

    /// Plans one node: looks it up and gathers what it is handed.
    pub fn plan_node(
        &self,
        node_id: &str,
        completed: &Table<NodeResult>,
        payload: &Json,
    ) -> (r: Result<NodePlan<'_>, OrchestratorError>)
        requires
            self.graph().wf(),
            completed.wf(),
        ensures
            if self.graph().nodes@.contains_key(node_id@) {
                r matches Ok(plan) && plan.plans(self.graph(), node_id@, completed@, payload@)
            } else {
                r matches Err(e) && e@ == (ErrorModel::InvalidGraph {
                    message: "node '"@ + node_id@ + "' not found in workflow"@,
                })
            },
    {
        let node = match self.workflow.get_node(node_id) {
            Some(node) => node,
            None => {
                return Err(
                    OrchestratorError::invalid_graph("node '", node_id, "' not found in workflow"),
                );
            },
        };
        let up = self.workflow.upstream(node_id);
        let ghost ids = up@.map_values(|s: String| s@);
        assert(ids.len() == up@.len());
        let is_join = self.workflow.is_join_point(node_id);
        let upstream = self.gather(&up, completed, payload);
        let input = if is_join {
            object_of(&upstream)
        } else if up.len() == 0 {
            payload.clone()
        } else {
            assert(ids[0] == up@[0]@);
            match completed.get(up[0].as_str()) {
                Some(result) => result.output.clone(),
                None => Json::Null,
            }
        };
        Ok(NodePlan { node_id: node_id.to_owned(), node, upstream, is_join, input })
    }

    /// Plans all nodes of a wave, in order. A node that is not in the workflow
    /// refuses the wave.
    pub fn execute_ready_nodes(
        &self,
        ready: &Vec<String>,
        completed: &Table<NodeResult>,
        payload: &Json,
    ) -> (r: Result<Vec<NodePlan<'_>>, OrchestratorError>)
        requires
            self.graph().wf(),
            completed.wf(),
        ensures
            match r {
                Ok(plans) => {
                    &&& plans@.len() == ready@.len()
                    &&& forall|i: int|
                        0 <= i < plans@.len() ==> (#[trigger] plans@[i]).plans(
                            self.graph(),
                            ready@[i]@,
                            completed@,
                            payload@,
                        )
                },
                Err(e) => exists|i: int|
                    {
                        &&& 0 <= i < ready@.len()
                        &&& !self.graph().nodes@.contains_key((#[trigger] ready@[i])@)
                        &&& forall|j: int|
                            0 <= j < i ==> self.graph().nodes@.contains_key(
                                (#[trigger] ready@[j])@,
                            )
                        &&& e@ == (ErrorModel::InvalidGraph {
                            message: "node '"@ + ready@[i]@ + "' not found in workflow"@,
                        })
                    },
            },
    {
        let mut plans: Vec<NodePlan<'_>> = Vec::new();
        let mut i: usize = 0;
        while i < ready.len()
            invariant
                self.graph().wf(),
                completed.wf(),
                i <= ready@.len(),
                plans@.len() == i,
                forall|j: int|
                    0 <= j < i ==> (#[trigger] plans@[j]).plans(
                        self.graph(),
                        ready@[j]@,
                        completed@,
                        payload@,
                    ),
                forall|j: int|
                    0 <= j < i ==> self.graph().nodes@.contains_key((#[trigger] ready@[j])@),
            decreases ready@.len() - i,
        {
            match self.plan_node(ready[i].as_str(), completed, payload) {
                Ok(plan) => {
                    plans.push(plan);
                },
                Err(e) => {
                    assert(!self.graph().nodes@.contains_key(ready@[i as int]@));
                    return Err(e);
                },
            }
            i += 1;
        }
        Ok(plans)
    }
}

// ── Running a node ─────────────────────────────────────────────────────────

/// The runtime a component runs on: scripts that no runtime supports yet fall
/// back to Wasm.
pub fn map_runtime_type(rt: &ConfigRuntimeType) -> (mapped: RuntimeType)
    ensures
        mapped == (if *rt == ConfigRuntimeType::Lua {
            RuntimeType::Lua
        } else {
            RuntimeType::Wasm
        }),
{
    match rt {
        ConfigRuntimeType::Wasm => RuntimeType::Wasm,
        ConfigRuntimeType::Lua => RuntimeType::Lua,
        ConfigRuntimeType::Js => RuntimeType::Wasm,
    }
}

/// A task that is about to run on its runtime.
pub struct Task {
    pub runtime: RuntimeType,
    /// The component's binary or script.
    pub bytes: Vec<u8>,
    pub task_id: String,
    pub node_id: String,
    pub input: Json,
    /// What the task is called with.
    pub resolved_input: Json,
}

impl Task {
    /// What comes of the task, given what its runtime answered.
    pub fn finish(self, output: Result<Json, String>) -> (r: Result<NodeResult, OrchestratorError>)
        ensures
            match output {
                Ok(output) => r matches Ok(result) && result@ == (NodeResultModel {
                    task_id: self.task_id@,
                    node_id: self.node_id@,
                    input: self.input@,
                    resolved_input: self.resolved_input@,
                    output: output@,
                }),
                Err(source) => r matches Err(e) && e@ == (ErrorModel::TaskExecution {
                    source: source@,
                }),
            },
            output matches Ok(output) ==> (r matches Ok(result) && {
                &&& result.task_id == self.task_id
                &&& result.node_id == self.node_id
                &&& result.input == self.input
                &&& result.resolved_input == self.resolved_input
                &&& result.output == output
            }),
            output matches Err(reason) ==> (r matches Err(OrchestratorError::TaskExecution { source })
                && source == reason),
    {
        match output {
            Ok(output) => Ok(
                NodeResult {
                    task_id: self.task_id,
                    node_id: self.node_id,
                    input: self.input,
                    resolved_input: self.resolved_input,
                    output,
                },
            ),
            Err(source) => Err(OrchestratorError::TaskExecution { source }),
        }
    }
}

/// How a planned node is carried out.
pub enum Dispatch {
    /// Run a task, then [`Task::finish`] it.
    Execute(Task),
    /// Nothing runs: this is what came of the node.
    Finished(Result<NodeResult, OrchestratorError>),
}

impl<'a> NodePlan<'a> {
    /// Carries out a planned node. A component runs its task on the inputs that
    /// its templates `resolved` to, once its bytes are loaded. A join passes on
    /// what flowed in. A loop is refused.
    pub fn dispatch(self, resolved: Json, bytes: Option<Vec<u8>>, task_id: String) -> (d: Dispatch)
        ensures
            match self.node.node_type {
                NodeType::Component(locked) => match bytes {
                    Some(bytes) => d matches Dispatch::Execute(task) && {
                        &&& task.runtime == (if locked.runtime_type == ConfigRuntimeType::Lua {
                            RuntimeType::Lua
                        } else {
                            RuntimeType::Wasm
                        })
                        &&& task.bytes == bytes
                        &&& task.task_id == task_id
                        &&& task.node_id == self.node_id
                        &&& task.input == self.input
                        &&& task.resolved_input == resolved
                    },
                    None => d matches Dispatch::Finished(Err(e)) && e@ == (
                    ErrorModel::InvalidGraph {
                        message: "component bytes not loaded for component node"@,
                    }),
                },
                NodeType::Join { .. } => d matches Dispatch::Finished(Ok(result)) && result@ == (
                NodeResultModel {
                    task_id: task_id@,
                    node_id: self.node_id@,
                    input: self.input@,
                    resolved_input: self.input@,
                    output: self.input@,
                }),
                NodeType::Loop(_) => d matches Dispatch::Finished(Err(e)) && e@ == (
                ErrorModel::InvalidGraph { message: "loop nodes not yet implemented"@ }),
            },
            self.node.node_type is Join ==> (d matches Dispatch::Finished(Ok(result)) && {
                &&& result.task_id == task_id
                &&& result.node_id == self.node_id
                &&& result.input@ == self.input@
                &&& result.resolved_input@ == self.input@
                &&& result.output == self.input
            }),
    {
        match &self.node.node_type {
            NodeType::Component(locked) => {
                let bytes = match bytes {
                    Some(bytes) => bytes,
                    None => {
                        return Dispatch::Finished(
                            Err(
                                OrchestratorError::InvalidGraph {
                                    message: "component bytes not loaded for component node".to_owned(),
                                },
                            ),
                        );
                    },
                };
                Dispatch::Execute(
                    Task {
                        runtime: map_runtime_type(&locked.runtime_type),
                        bytes,
                        task_id,
                        node_id: self.node_id,
                        input: self.input,
                        resolved_input: resolved,
                    },
                )
            },
            NodeType::Join { .. } => {
                Dispatch::Finished(
                    Ok(
                        NodeResult {
                            task_id,
                            node_id: self.node_id,
                            input: self.input.clone(),
                            resolved_input: self.input.clone(),
                            output: self.input,
                        },
                    ),
                )
            },
            NodeType::Loop(_) => {
                Dispatch::Finished(
                    Err(
                        OrchestratorError::InvalidGraph {
                            message: "loop nodes not yet implemented".to_owned(),
                        },
                    ),
                )
            },
        }
    }
}

// ── Running one node alone ─────────────────────────────────────────────────

/// A component node that is to run by itself, outside its graph.
pub struct SinglePlan<'a> {
    pub node_id: String,
    pub node: &'a Node,
    pub component: &'a LockedComponent,
    /// What the node's templates see: the payload alone.
    pub upstream: Table<Json>,
    pub input: Json,
}

impl Orchestrator {
    /// Plans one node to run by itself on the given payload. Joins and loops are
    /// matters of the whole graph and are refused.
    pub fn invoke_node(&self, node_id: &str, payload: Json) -> (r: Result<
        SinglePlan<'_>,
        OrchestratorError,
    >)
        requires
            self.graph().wf(),
        ensures
            if !self.graph().nodes@.contains_key(node_id@) {
                r matches Err(e) && e@ == (ErrorModel::InvalidGraph {
                    message: "node '"@ + node_id@ + "' not found in workflow"@,
                })
            } else {
                match self.graph().nodes@[node_id@].node_type {
                    NodeType::Component(locked) => r matches Ok(plan) && {
                        &&& plan.node_id@ == node_id@
                        &&& *plan.node == self.graph().nodes@[node_id@]
                        &&& *plan.component == locked
                        &&& plan.upstream.wf()
                        &&& models(plan.upstream@) == Map::<Seq<char>, JsonModel>::empty().insert(
                            PAYLOAD_KEY@,
                            payload@,
                        )
                        &&& plan.upstream@.dom() == set!["_payload"@]
                        &&& plan.upstream@["_payload"@]@ == payload@
                        &&& plan.input == payload
                    },
                    NodeType::Join { .. } => r matches Err(e) && e@ == (ErrorModel::InvalidGraph {
                        message: "cannot invoke_node on join node '"@ + node_id@
                            + "' — joins are graph-level concerns"@,
                    }),
                    NodeType::Loop(_) => r matches Err(e) && e@ == (ErrorModel::InvalidGraph {
                        message: "cannot invoke_node on loop node '"@ + node_id@
                            + "' — loops are graph-level concerns"@,
                    }),
                }
            },
    {
        let node = match self.workflow.get_node(node_id) {
            Some(node) => node,
            None => {
                return Err(
                    OrchestratorError::invalid_graph("node '", node_id, "' not found in workflow"),
                );
            },
        };
        match &node.node_type {
            NodeType::Component(component) => {
                let mut upstream: Table<Json> = Table::new();
                upstream.insert(PAYLOAD_KEY.to_owned(), payload.clone());
                assert(models(upstream@) =~= Map::<Seq<char>, JsonModel>::empty().insert(
                    PAYLOAD_KEY@,
                    payload@,
                ));
                assert(upstream@.dom() =~= set!["_payload"@]);
                Ok(
                    SinglePlan {
                        node_id: node_id.to_owned(),
                        node,
                        component,
                        upstream,
                        input: payload,
                    },
                )
            },
            NodeType::Join { .. } => Err(
                OrchestratorError::invalid_graph(
                    "cannot invoke_node on join node '",
                    node_id,
                    "' — joins are graph-level concerns",
                ),
            ),
            NodeType::Loop(_) => Err(
                OrchestratorError::invalid_graph(
                    "cannot invoke_node on loop node '",
                    node_id,
                    "' — loops are graph-level concerns",
                ),
            ),
        }
    }
}

impl<'a> SinglePlan<'a> {
    /// The task to run, once the inputs are resolved and the bytes are loaded,
    /// unless the caller has cancelled by then.
    pub fn task(self, resolved: Json, bytes: Vec<u8>, cancelled: bool, task_id: String) -> (r:
        Result<Task, OrchestratorError>)
        ensures
            if cancelled {
                r matches Err(e) && e@ == ErrorModel::Cancelled
            } else {
                r matches Ok(task) && task == (Task {
                    runtime: if self.component.runtime_type == ConfigRuntimeType::Lua {
                        RuntimeType::Lua
                    } else {
                        RuntimeType::Wasm
                    },
                    bytes,
                    task_id,
                    node_id: self.node_id,
                    input: self.input,
                    resolved_input: resolved,
                })
            },
    {
        if cancelled {
            return Err(OrchestratorError::Cancelled);
        }
        Ok(
            Task {
                runtime: map_runtime_type(&self.component.runtime_type),
                bytes,
                task_id,
                node_id: self.node_id,
                input: self.input,
                resolved_input: resolved,
            },
        )
    }
}

// ── Loading components ─────────────────────────────────────────────────────

impl Orchestrator {
    /// The component a node runs, whose bytes are loaded and whose inputs are
    /// resolved before the node is; joins, loops and unknown nodes run none.
    pub fn component_of(&self, node_id: &str) -> (component: Option<&LockedComponent>)
        requires
            self.graph().wf(),
        ensures
            match component {
                Some(locked) => self.graph().nodes@.contains_key(node_id@)
                    && self.graph().nodes@[node_id@].node_type == NodeType::Component(*locked),
                None => self.graph().nodes@.contains_key(node_id@)
                    ==> !(self.graph().nodes@[node_id@].node_type is Component),
            },
    {
        match self.workflow.get_node(node_id) {
            Some(node) => match &node.node_type {
                NodeType::Component(locked) => Some(locked),
                _ => None,
            },
            None => None,
        }
    }
}

/// Where a component is installed, given what the registry answered.
pub fn located<P>(name: &str, version: &str, found: Result<Option<P>, String>) -> (r: Result<
    P,
    OrchestratorError,
>)
    ensures
        match found {
            Ok(Some(place)) => r matches Ok(p) && p == place,
            Ok(None) => r matches Err(e) && e@ == (ErrorModel::ComponentLoad {
                node_id: name@,
                message: "component '"@ + name@ + "@"@ + version@ + "' not found in registry"@,
            }),
            Err(reason) => r matches Err(e) && e@ == (ErrorModel::ComponentLoad {
                node_id: name@,
                message: "registry error: "@ + reason@,
            }),
        },
{
    match found {
        Ok(Some(place)) => Ok(place),
        Ok(None) => {
            let mut message = "component '".to_owned();
            message.append(name);
            message.append("@");
            message.append(version);
            message.append("' not found in registry");
            Err(OrchestratorError::ComponentLoad { node_id: name.to_owned(), message })
        },
        Err(reason) => {
            let mut message = "registry error: ".to_owned();
            message.append(reason.as_str());
            Err(OrchestratorError::ComponentLoad { node_id: name.to_owned(), message })
        },
    }
}

/// A component's bytes, given what reading the file at `path` came to.
pub fn resolve_component_bytes(name: &str, path: &str, read: Result<Vec<u8>, String>) -> (r: Result<
    Vec<u8>,
    OrchestratorError,
>)
    ensures
        match read {
            Ok(bytes) => r matches Ok(b) && b == bytes,
            Err(reason) => r matches Err(e) && e@ == (ErrorModel::ComponentLoad {
                node_id: name@,
                message: "failed to read "@ + path@ + ": "@ + reason@,
            }),
        },
{
    match read {
        Ok(bytes) => Ok(bytes),
        Err(reason) => {
            let mut message = "failed to read ".to_owned();
            message.append(path);
            message.append(": ");
            message.append(reason.as_str());
            Err(OrchestratorError::ComponentLoad { node_id: name.to_owned(), message })
        },
    }
}

// ── The execution loop ─────────────────────────────────────────────────────

/// Whether `c` is a lower-case hexadecimal digit.
pub open spec fn is_hex_digit(c: char) -> bool {
    ('0' <= c && c <= '9') || ('a' <= c && c <= 'f')
}

/// Whether `s` has the form of a random id: groups of 8, 4, 4, 4 and 12
/// hexadecimal digits, of version 4 and of the standard variant.
pub open spec fn is_random_id(s: Seq<char>) -> bool {
    &&& s.len() == 36
    &&& forall|i: int|
        0 <= i < 36 ==> if i == 8 || i == 13 || i == 18 || i == 23 {
            #[trigger] s[i] == '-'
        } else {
            is_hex_digit(s[i])
        }
    &&& s[14] == '4'
    &&& s[19] == '8' || s[19] == '9' || s[19] == 'a' || s[19] == 'b'
}

/// A random id as text, by `uuid::Uuid::new_v4` and its `Display`. Which one it
/// is depends on chance; its form does not.
#[verifier::external_body]
fn random_id() -> (id: String)
    ensures
        is_random_id(id@),
{
    uuid::Uuid::new_v4().to_string()
}

/// Whether this text was drawn as a random id.
pub closed spec fn was_drawn(id: String) -> bool {
    call_ensures(random_id, (), id)
}

/// An id that was drawn was drawn at random.
proof fn what_was_drawn_was_drawn_at_random(id: String)
    requires
        was_drawn(id),
    ensures
        call_ensures(random_id, (), id),
{
}

/// A fresh id for an execution or a task.
pub fn fresh_id() -> (id: String)
    ensures
        was_drawn(id),
        is_random_id(id@),
{
    random_id()
}

/// What waiting for a task came to: its result, or why it could not be joined.
pub type Joined = Result<Result<NodeResult, OrchestratorError>, String>;

/// A workflow in execution.
pub struct Execution {
    pub execution_id: String,
    pub completed: Table<NodeResult>,
}

/// What the execution does next.
pub enum Wave {
    /// It was cancelled.
    Cancelled(OrchestratorError),
    /// Nothing is left to run.
    Finished,
    /// These nodes run now, side by side.
    Run(Vec<String>),
}

/// How a wave ended.
pub enum WaveEnd {
    /// Every task was waited for; here is what each came to, in the wave's order.
    Joined(Vec<Joined>),
    /// The execution was cancelled while the wave ran.
    Cancelled,
}

/// Whether a task ended with a result.
pub open spec fn succeeded(joined: Joined) -> bool {
    joined matches Ok(Ok(_))
}

/// The completed nodes once the results of a wave are in, taken in order up to
/// the first failure.
pub open spec fn absorbed(completed: Completed, results: Seq<Joined>) -> Completed
    decreases results.len(),
{
    if results.len() == 0 || !succeeded(results[0]) {
        completed
    } else {
        let result = results[0]->Ok_0->Ok_0;
        absorbed(completed.insert(result.node_id@, result), results.skip(1))
    }
}

/// The first failure among the results of a wave, if there is one.
pub open spec fn first_failure(results: Seq<Joined>) -> Option<ErrorModel>
    decreases results.len(),
{
    if results.len() == 0 {
        None
    } else {
        match results[0] {
            Ok(Ok(_)) => first_failure(results.skip(1)),
            Ok(Err(e)) => Some(e@),
            Err(reason) => Some(
                ErrorModel::InvalidGraph { message: "task join error: "@ + reason@ },
            ),
        }
    }
}

impl Orchestrator {
    /// Begins an execution, under a fresh id and with nothing completed.
    pub fn invoke(&self) -> (r: Result<Execution, OrchestratorError>)
        requires
            self.graph().wf(),
        ensures
            match r {
                Ok(execution) => {
                    &&& self.graph().entries().len() > 0
                    &&& was_drawn(execution.execution_id)
                    &&& is_random_id(execution.execution_id@)
                    &&& execution.completed.wf()
                    &&& execution.completed@ == Completed::empty()
                },
                Err(e) => self.graph().entries().len() == 0 && e@ == (ErrorModel::InvalidGraph {
                    message: "workflow has no entry points"@,
                }),
            },
    {
        match self.validate_workflow() {
            Ok(()) => Ok(Execution { execution_id: fresh_id(), completed: Table::new() }),
            Err(e) => Err(e),
        }
    }

    /// Decides what an execution does next.
    pub fn run_execution_loop(&self, execution: &Execution, cancelled: bool) -> (next: Wave)
        requires
            self.graph().wf(),
            execution.completed.wf(),
        ensures
            ({
                let ids = wave(self.graph(), execution.completed@.dom());
                match next {
                    Wave::Cancelled(e) => cancelled && e@ == ErrorModel::Cancelled,
                    Wave::Finished => !cancelled && ids.len() == 0,
                    Wave::Run(ready) => {
                        &&& !cancelled
                        &&& ids.len() > 0
                        &&& ready@.map_values(|s: String| s@) == ids
                    },
                }
            }),
    {
        if cancelled {
            return Wave::Cancelled(OrchestratorError::Cancelled);
        }
        let ready = self.find_ready_nodes(&execution.completed);
        assert(ready@.map_values(|s: String| s@).len() == ready@.len());
        if ready.len() == 0 {
            return Wave::Finished;
        }
        Wave::Run(ready)
    }
}

impl Execution {
    /// Takes in the results of a wave, in order. The first failure ends the
    /// execution; what came before it has completed.
    pub fn absorb(&mut self, results: Vec<Joined>) -> (r: Result<(), OrchestratorError>)
        requires
            old(self).completed.wf(),
        ensures
            final(self).completed.wf(),
            final(self).execution_id == old(self).execution_id,
            final(self).completed@ == absorbed(old(self).completed@, results@),
            match first_failure(results@) {
                Some(e) => r matches Err(failed) && failed@ == e,
                None => r is Ok,
            },
    {
        let ghost all = results@;
        let ghost start = self.completed@;
        let mut left: Vec<Joined> = results;
        while left.len() > 0
            invariant
                self.completed.wf(),
                self.execution_id == old(self).execution_id,
                all == results@,
                start == old(self).completed@,
                absorbed(start, all) == absorbed(self.completed@, left@),
                first_failure(all) == first_failure(left@),
            decreases left@.len(),
        {
            let ghost before = left@;
            let joined = left.remove(0);
            assert(left@ =~= before.skip(1));
            assert(joined == before[0]);
            match joined {
                Ok(Ok(result)) => {
                    self.completed.insert(result.node_id.clone(), result);
                },
                Ok(Err(e)) => {
                    return Err(e);
                },
                Err(reason) => {
                    let mut message = "task join error: ".to_owned();
                    message.append(reason.as_str());
                    return Err(OrchestratorError::InvalidGraph { message });
                },
            }
        }
        Ok(())
    }

    /// Ends a wave. A cancelled one ends the execution as cancelled, and nothing of
    /// it is taken in, whatever its tasks had come to by then.
    pub fn end_wave(&mut self, ended: WaveEnd) -> (r: Result<(), OrchestratorError>)
        requires
            old(self).completed.wf(),
        ensures
            final(self).completed.wf(),
            final(self).execution_id == old(self).execution_id,
            match ended {
                WaveEnd::Joined(results) => {
                    &&& final(self).completed@ == absorbed(old(self).completed@, results@)
                    &&& match first_failure(results@) {
                        Some(e) => r matches Err(failed) && failed@ == e,
                        None => r is Ok,
                    }
                },
                WaveEnd::Cancelled => {
                    &&& final(self).completed == old(self).completed
                    &&& r matches Err(e) && e@ == ErrorModel::Cancelled
                },
            },
    {
        match ended {
            WaveEnd::Joined(results) => self.absorb(results),
            WaveEnd::Cancelled => Err(OrchestratorError::Cancelled),
        }
    }

    /// What came of a finished execution.
    pub fn finish(self) -> (r: InvokeResult)
        ensures
            r == (InvokeResult {
                execution_id: self.execution_id,
                node_results: self.completed,
            }),
    {
        InvokeResult { execution_id: self.execution_id, node_results: self.completed }
    }
}

// ── Laws of execution ──────────────────────────────────────────────────────

/// Filtering keeps exactly the items that pass, in order.
proof fn filtered(s: Seq<Seq<char>>, p: spec_fn(Seq<char>) -> bool)
    ensures
        forall|x: Seq<char>| #[trigger] s.filter(p).contains(x) <==> s.contains(x) && p(x),
        s.no_duplicates() ==> s.filter(p).no_duplicates(),
    decreases s.len(),
{
    reveal(Seq::filter);
    if s.len() > 0 {
        let rest = s.drop_last();
        let kept = rest.filter(p);
        filtered(rest, p);
        assert forall|x: Seq<char>| #[trigger] s.filter(p).contains(x) <==> s.contains(x) && p(
            x,
        ) by {
            if rest.contains(x) {
                let i = choose|i: int| 0 <= i < rest.len() && rest[i] == x;
                assert(s[i] == x);
            }
            if s.contains(x) && x != s.last() {
                let i = choose|i: int| 0 <= i < s.len() && s[i] == x;
                assert(rest[i] == x);
            }
            assert(s[s.len() - 1] == s.last());
            if p(s.last()) {
                assert(kept.push(s.last())[kept.len() as int] == s.last());
                if kept.contains(x) {
                    let i = choose|i: int| 0 <= i < kept.len() && kept[i] == x;
                    assert(kept.push(s.last())[i] == x);
                }
                if kept.push(s.last()).contains(x) && x != s.last() {
                    let i = choose|i: int|
                        0 <= i < kept.push(s.last()).len() && kept.push(s.last())[i] == x;
                    assert(kept[i] == x);
                }
            }
        }
        if s.no_duplicates() {
            assert(!rest.contains(s.last()));
            assert(!kept.contains(s.last()));
            assert forall|i: int, j: int|
                0 <= i < s.filter(p).len() && 0 <= j < s.filter(p).len() && i != j implies s.filter(
                p,
            )[i] != s.filter(p)[j] by {
                assert(forall|k: int| 0 <= k < kept.len() ==> kept.contains(#[trigger] kept[k]));
            }
        }
    }
}

/// A wave holds exactly the workflow's nodes that have not completed and have
/// everything upstream completed, each once. So no node runs before its
/// upstream, and none runs twice.
pub proof fn a_wave_is_the_ready_nodes(workflow: Workflow, done: Set<Seq<char>>)
    requires
        workflow.wf(),
    ensures
        wave(workflow, done).no_duplicates(),
        forall|id: Seq<char>| #[trigger]
            wave(workflow, done).contains(id) <==> workflow.nodes@.contains_key(id) && ready(
                workflow,
                done,
                id,
            ),
{
    workflow.nodes.order_lists_the_keys();
    filtered(workflow.nodes.order(), |id: Seq<char>| ready(workflow, done, id));
}

/// A wave, in terms of the graph alone: it holds a node exactly where that is a node
/// of the workflow, has not completed, and every edge into it comes from a node that
/// has.
pub proof fn a_wave_holds_the_nodes_whose_edges_in_are_done(
    workflow: Workflow,
    done: Set<Seq<char>>,
    id: Seq<char>,
)
    requires
        workflow.wf(),
    ensures
        wave(workflow, done).no_duplicates(),
        wave(workflow, done).contains(id) <==> {
            &&& workflow.nodes@.contains_key(id)
            &&& !done.contains(id)
            &&& forall|i: int|
                0 <= i < workflow.edges@.len() && (#[trigger] workflow.edges@[i]).1@ == id
                    ==> done.contains(workflow.edges@[i].0@)
        },
{
    a_wave_is_the_ready_nodes(workflow, done);
    let edges_done = forall|i: int|
        0 <= i < workflow.edges@.len() && (#[trigger] workflow.edges@[i]).1@ == id
            ==> done.contains(workflow.edges@[i].0@);
    if unblocked(workflow, done, id) {
        assert forall|i: int|
            0 <= i < workflow.edges@.len() && (
            #[trigger] workflow.edges@[i]).1@ == id implies done.contains(workflow.edges@[i].0@) by {
            let from = workflow.edges@[i].0@;
            crate::locked::sources_are_the_edges_in(workflow.edges@, id, from);
            assert(workflow.sources_of(id).contains(from));
        }
    }
    if edges_done {
        assert forall|up: Seq<char>| #[trigger]
            workflow.sources_of(id).contains(up) implies done.contains(up) by {
            crate::locked::sources_are_the_edges_in(workflow.edges@, id, up);
        }
    }
}

/// The entry points are exactly the nodes that no edge leads into, each once.
pub proof fn the_entry_points_are_the_nodes_without_an_edge_in(workflow: Workflow, id: Seq<char>)
    requires
        workflow.wf(),
    ensures
        workflow.entries().no_duplicates(),
        workflow.entries().contains(id) <==> workflow.nodes@.contains_key(id) && forall|i: int|
            0 <= i < workflow.edges@.len() ==> (#[trigger] workflow.edges@[i]).1@ != id,
{
    workflow.nodes.order_lists_the_keys();
    filtered(
        workflow.nodes.order(),
        |id: Seq<char>| workflow.sources_of(id).len() == 0,
    );
    crate::locked::sources_number_the_edges_in(workflow.edges@, id);
}

/// What a node is handed, in terms of the edges into it and the recorded results. Of
/// each node upstream that has completed it sees that node's output, under that
/// node's id, however many there are, and it sees nothing else. An entry point sees
/// the payload instead.
///
/// What flows into it is, where two edges lead in, the object of just these outputs;
/// on a single edge, the output itself; and at an entry point the payload.
pub proof fn a_plan_hands_over_the_outputs_upstream(
    plan: NodePlan<'_>,
    workflow: Workflow,
    id: Seq<char>,
    completed: Completed,
    payload: JsonModel,
)
    requires
        plan.plans(workflow, id, completed, payload),
    ensures
        plan.node_id@ == id,
        workflow.nodes@.contains_key(id) && *plan.node == workflow.nodes@[id],
        // Every completed node upstream is there, with its output.
        forall|i: int|
            0 <= i < workflow.edges@.len() && (#[trigger] workflow.edges@[i]).1@ == id
                && completed.contains_key(workflow.edges@[i].0@) ==> {
                let up = workflow.edges@[i].0@;
                &&& plan.upstream@.contains_key(up)
                &&& plan.upstream@[up]@ == completed[up].output@
                &&& plan.is_join ==> plan.input@ is Object && plan.input@->Object_0.contains_key(up)
                    && plan.input@->Object_0[up] == completed[up].output@
                &&& !plan.is_join ==> plan.input@ == completed[up].output@
            },
        // On a single edge from a node that has not completed, nothing flows in.
        forall|i: int|
            !plan.is_join && 0 <= i < workflow.edges@.len() && (#[trigger] workflow.edges@[i]).1@
                == id && !completed.contains_key(workflow.edges@[i].0@) ==> plan.input@ is Null,
        // Nothing else is.
        (exists|i: int| 0 <= i < workflow.edges@.len() && (#[trigger] workflow.edges@[i]).1@ == id)
            ==> forall|k: Seq<char>| #[trigger]
            plan.upstream@.contains_key(k) ==> completed.contains_key(k) && exists|i: int|
                0 <= i < workflow.edges@.len() && (#[trigger] workflow.edges@[i]).1@ == id
                    && workflow.edges@[i].0@ == k,
        plan.is_join ==> plan.input@ is Object && forall|k: Seq<char>| #[trigger]
            plan.input@->Object_0.contains_key(k) ==> plan.upstream@.contains_key(k),
        // Several branches meet where two edges do.
        plan.is_join <==> exists|i: int, j: int|
            0 <= i < j < workflow.edges@.len() && (#[trigger] workflow.edges@[i]).1@ == id && (
            #[trigger] workflow.edges@[j]).1@ == id,
        // An entry point is handed the payload.
        (forall|i: int| 0 <= i < workflow.edges@.len() ==> (#[trigger] workflow.edges@[i]).1@ != id)
            ==> {
            &&& plan.input@ == payload
            &&& plan.upstream@.dom() == set!["_payload"@]
            &&& plan.upstream@["_payload"@]@ == payload
        },
{
    let up = workflow.sources_of(id);
    let data = models(plan.upstream@);
    crate::locked::sources_number_the_edges_in(workflow.edges@, id);
    assert forall|k: Seq<char>| #[trigger] plan.upstream@.contains_key(k) implies data.contains_key(
        k,
    ) && data[k] == plan.upstream@[k]@ by {}
    assert forall|k: Seq<char>| #[trigger] data.contains_key(k) implies plan.upstream@.contains_key(
        k,
    ) by {}
    assert forall|i: int|
        0 <= i < workflow.edges@.len() && (#[trigger] workflow.edges@[i]).1@ == id
            && completed.contains_key(workflow.edges@[i].0@) implies {
        let from = workflow.edges@[i].0@;
        &&& plan.upstream@.contains_key(from)
        &&& plan.upstream@[from]@ == completed[from].output@
        &&& plan.is_join ==> plan.input@ is Object && plan.input@->Object_0.contains_key(from)
            && plan.input@->Object_0[from] == completed[from].output@
        &&& !plan.is_join ==> plan.input@ == completed[from].output@
    } by {
        let from = workflow.edges@[i].0@;
        crate::locked::sources_are_the_edges_in(workflow.edges@, id, from);
        assert(up.contains(from));
        assert(data.contains_key(from));
        if up.len() == 1 {
            assert(up[0] == from);
        }
    }
    assert forall|i: int|
        !plan.is_join && 0 <= i < workflow.edges@.len() && (#[trigger] workflow.edges@[i]).1@ == id
            && !completed.contains_key(workflow.edges@[i].0@) implies plan.input@ is Null by {
        let from = workflow.edges@[i].0@;
        crate::locked::sources_are_the_edges_in(workflow.edges@, id, from);
        assert(up.contains(from));
        assert(up.len() == 1);
        assert(up[0] == from);
    }
    if exists|i: int| 0 <= i < workflow.edges@.len() && (#[trigger] workflow.edges@[i]).1@ == id {
        assert forall|k: Seq<char>| #[trigger]
            plan.upstream@.contains_key(k) implies completed.contains_key(k) && exists|i: int|
            0 <= i < workflow.edges@.len() && (#[trigger] workflow.edges@[i]).1@ == id
                && workflow.edges@[i].0@ == k by {
            assert(data.contains_key(k));
            crate::locked::sources_are_the_edges_in(workflow.edges@, id, k);
        }
    }
    if up.len() == 0 {
        assert(plan.upstream@.dom() =~= set![PAYLOAD_KEY@]) by {
            assert(data.dom() =~= plan.upstream@.dom());
        }
        assert(plan.upstream@.contains_key(PAYLOAD_KEY@));
    }
}

/// A node downstream of one that has not completed, because it failed or has
/// not run, is not run.
pub proof fn nothing_runs_past_an_incomplete_node(
    workflow: Workflow,
    done: Set<Seq<char>>,
    edge: int,
)
    requires
        workflow.wf(),
        0 <= edge < workflow.edges@.len(),
        !done.contains(workflow.edges@[edge].0@),
    ensures
        !wave(workflow, done).contains(workflow.edges@[edge].1@),
{
    let (from, to) = (workflow.edges@[edge].0@, workflow.edges@[edge].1@);
    a_wave_is_the_ready_nodes(workflow, done);
    crate::locked::sources_are_the_edges_in(workflow.edges@, to, from);
    assert(workflow.sources_of(to).contains(from));
}

/// Whether the edges run between nodes of the workflow, and always from a lower
/// to a higher rank: the graph has no cycle.
pub open spec fn ranked(workflow: Workflow, rank: spec_fn(Seq<char>) -> nat) -> bool {
    forall|i: int|
        0 <= i < workflow.edges@.len() ==> {
            &&& workflow.nodes@.contains_key((#[trigger] workflow.edges@[i]).0@)
            &&& rank(workflow.edges@[i].0@) < rank(workflow.edges@[i].1@)
        }
}

/// In a graph without cycles, an execution that finds nothing left to run has
/// completed every node.
pub proof fn a_finished_execution_completed_every_node(
    workflow: Workflow,
    done: Set<Seq<char>>,
    rank: spec_fn(Seq<char>) -> nat,
    id: Seq<char>,
)
    requires
        workflow.wf(),
        ranked(workflow, rank),
        wave(workflow, done).len() == 0,
        workflow.nodes@.contains_key(id),
    ensures
        done.contains(id),
    decreases rank(id),
{
    assert forall|up: Seq<char>| #[trigger] workflow.sources_of(id).contains(up) implies done.contains(
        up,
    ) by {
        crate::locked::sources_are_the_edges_in(workflow.edges@, id, up);
        a_finished_execution_completed_every_node(workflow, done, rank, up);
    }
    a_wave_is_the_ready_nodes(workflow, done);
    assert(unblocked(workflow, done, id));
    if !done.contains(id) {
        assert(ready(workflow, done, id));
        assert(wave(workflow, done).contains(id));
    }
}

/// A workflow with a node and without cycles has an entry point, so that it is
/// not refused.
pub proof fn a_graph_without_cycles_has_an_entry_point(
    workflow: Workflow,
    rank: spec_fn(Seq<char>) -> nat,
    id: Seq<char>,
)
    requires
        workflow.wf(),
        ranked(workflow, rank),
        workflow.nodes@.contains_key(id),
    ensures
        workflow.entries().len() > 0,
    decreases rank(id),
{
    let entry = |id: Seq<char>| workflow.sources_of(id).len() == 0;
    if workflow.sources_of(id).len() == 0 {
        workflow.nodes.order_lists_the_keys();
        filtered(workflow.nodes.order(), entry);
        assert(workflow.nodes.order().contains(id));
        assert(entry(id));
        assert(workflow.entries().contains(id));
    } else {
        let up = workflow.sources_of(id)[0];
        assert(workflow.sources_of(id).contains(up));
        crate::locked::sources_are_the_edges_in(workflow.edges@, id, up);
        a_graph_without_cycles_has_an_entry_point(workflow, rank, up);
    }
}

/// Whether these are the results of the nodes of a wave, in its order, and all
/// of them succeeded.
pub open spec fn carried_out(ids: Seq<Seq<char>>, results: Seq<Joined>) -> bool {
    &&& results.len() == ids.len()
    &&& forall|i: int|
        0 <= i < results.len() ==> succeeded(#[trigger] results[i])
            && results[i]->Ok_0->Ok_0.node_id@ == ids[i]
}

/// Once a wave has succeeded, its nodes have completed, along with what had
/// before, and nothing else has.
pub proof fn a_successful_wave_completes_its_nodes(
    completed: Completed,
    ids: Seq<Seq<char>>,
    results: Seq<Joined>,
)
    requires
        carried_out(ids, results),
    ensures
        first_failure(results) is None,
        forall|id: Seq<char>| #[trigger]
            absorbed(completed, results).contains_key(id) <==> completed.contains_key(id)
                || ids.contains(id),
    decreases results.len(),
{
    if results.len() > 0 {
        let rest = results.skip(1);
        let others = ids.skip(1);
        assert(succeeded(results[0]));
        assert forall|i: int| 0 <= i < rest.len() implies succeeded(#[trigger] rest[i])
            && rest[i]->Ok_0->Ok_0.node_id@ == others[i] by {
            assert(rest[i] == results[i + 1]);
        }
        let result = results[0]->Ok_0->Ok_0;
        let next = completed.insert(result.node_id@, result);
        a_successful_wave_completes_its_nodes(next, others, rest);
        assert(absorbed(completed, results) == absorbed(next, rest));
        assert(ids.contains(ids[0]));
        assert forall|id: Seq<char>| #[trigger]
            absorbed(completed, results).contains_key(id) <==> completed.contains_key(id)
                || ids.contains(id) by {
            assert(ids[0] == result.node_id@);
            assert(next.contains_key(id) <==> completed.contains_key(id) || id == ids[0]);
            assert(absorbed(next, rest).contains_key(id) <==> next.contains_key(id)
                || others.contains(id));
            if others.contains(id) {
                let i = choose|i: int| 0 <= i < others.len() && others[i] == id;
                assert(ids[i + 1] == id);
            }
            if ids.contains(id) && id != ids[0] {
                let i = choose|i: int| 0 <= i < ids.len() && ids[i] == id;
                assert(others[i - 1] == id);
            }
        }
    }
}

/// How many nodes have not completed.
pub open spec fn remaining(workflow: Workflow, done: Set<Seq<char>>) -> nat {
    workflow.nodes.order().filter(|id: Seq<char>| !done.contains(id)).len()
}

/// Completing more leaves less: never more nodes than before, and fewer where
/// one of these was among them.
proof fn fewer_remain(order: Seq<Seq<char>>, before: Set<Seq<char>>, after: Set<Seq<char>>)
    requires
        before.subset_of(after),
    ensures
        order.filter(|id: Seq<char>| !after.contains(id)).len() <= order.filter(
            |id: Seq<char>| !before.contains(id),
        ).len(),
        forall|id: Seq<char>|
            order.contains(id) && !before.contains(id) && after.contains(id) ==> order.filter(
                |id: Seq<char>| !after.contains(id),
            ).len() < order.filter(|id: Seq<char>| !before.contains(id)).len(),
    decreases order.len(),
{
    reveal(Seq::filter);
    if order.len() > 0 {
        let rest = order.drop_last();
        fewer_remain(rest, before, after);
        assert forall|id: Seq<char>|
            order.contains(id) && !before.contains(id) && after.contains(id) implies order.filter(
            |id: Seq<char>| !after.contains(id),
        ).len() < order.filter(|id: Seq<char>| !before.contains(id)).len() by {
            if id != order.last() {
                let i = choose|i: int| 0 <= i < order.len() && order[i] == id;
                assert(rest[i] == id);
                assert(rest.contains(id));
            }
        }
    }
}

/// Every successful wave leaves fewer nodes to run.
pub proof fn a_successful_wave_makes_progress(
    workflow: Workflow,
    completed: Completed,
    results: Seq<Joined>,
)
    requires
        workflow.wf(),
        wave(workflow, completed.dom()).len() > 0,
        carried_out(wave(workflow, completed.dom()), results),
    ensures
        remaining(workflow, absorbed(completed, results).dom()) < remaining(
            workflow,
            completed.dom(),
        ),
        remaining(workflow, completed.dom()) <= workflow.nodes.order().len(),
{
    let ids = wave(workflow, completed.dom());
    a_wave_is_the_ready_nodes(workflow, completed.dom());
    a_successful_wave_completes_its_nodes(completed, ids, results);
    workflow.nodes.order_lists_the_keys();
    let id = ids[0];
    assert(ids.contains(id));
    assert(workflow.nodes.order().contains(id));
    let after = absorbed(completed, results);
    assert(after.contains_key(id));
    assert(completed.dom().subset_of(after.dom())) by {
        assert forall|k: Seq<char>| completed.dom().contains(k) implies after.dom().contains(k) by {
            assert(completed.contains_key(k));
            assert(after.contains_key(k));
        }
    }
    fewer_remain(workflow.nodes.order(), completed.dom(), after.dom());
    workflow.nodes.order().lemma_filter_len(|id: Seq<char>| !completed.dom().contains(id));
}

/// A wave is never refused for a node that is not in the workflow.
pub proof fn a_wave_is_never_refused(workflow: Workflow, done: Set<Seq<char>>, i: int)
    requires
        workflow.wf(),
        0 <= i < wave(workflow, done).len(),
    ensures
        workflow.nodes@.contains_key(wave(workflow, done)[i]),
{
    a_wave_is_the_ready_nodes(workflow, done);
    assert(wave(workflow, done).contains(wave(workflow, done)[i]));
}

/// The results of a wave are recorded in order up to the first failure: each of them
/// stands, as it came, under its own node; whatever else had completed is untouched,
/// and nothing from the failure on is recorded. The wave fails exactly where one of
/// its results does, with the error of the first that does.
pub proof fn results_are_recorded_up_to_the_first_failure(
    completed: Completed,
    results: Seq<Joined>,
    n: int,
)
    requires
        0 <= n <= results.len(),
        forall|i: int| 0 <= i < n ==> ((#[trigger] results[i]) matches Ok(Ok(_))),
        n < results.len() ==> !(results[n] matches Ok(Ok(_))),
        forall|i: int, j: int|
            0 <= i < j < n ==> (#[trigger] results[i])->Ok_0->Ok_0.node_id@ != (
            #[trigger] results[j])->Ok_0->Ok_0.node_id@,
    ensures
        forall|i: int|
            0 <= i < n ==> {
                let result = (#[trigger] results[i])->Ok_0->Ok_0;
                &&& absorbed(completed, results).contains_key(result.node_id@)
                &&& absorbed(completed, results)[result.node_id@] == result
            },
        forall|k: Seq<char>|
            (forall|i: int| 0 <= i < n ==> (#[trigger] results[i])->Ok_0->Ok_0.node_id@ != k) ==> {
                &&& #[trigger] absorbed(completed, results).contains_key(k)
                    == completed.contains_key(k)
                &&& completed.contains_key(k) ==> absorbed(completed, results)[k] == completed[k]
            },
        n == results.len() <==> first_failure(results) is None,
        n < results.len() ==> (first_failure(results) matches Some(e) && match results[n] {
            Ok(Ok(_)) => false,
            Ok(Err(failed)) => e == failed@,
            Err(reason) => e matches ErrorModel::InvalidGraph { message } && message
                == "task join error: "@ + reason@,
        }),
    decreases results.len(),
{
    if n > 0 {
        let result = results[0]->Ok_0->Ok_0;
        let next = completed.insert(result.node_id@, result);
        let rest = results.skip(1);
        assert(results[0] matches Ok(Ok(_)));
        assert forall|i: int| 0 <= i < n - 1 implies ((#[trigger] rest[i]) matches Ok(Ok(_))) by {
            assert(rest[i] == results[i + 1]);
        }
        assert forall|i: int, j: int| 0 <= i < j < n - 1 implies (
        #[trigger] rest[i])->Ok_0->Ok_0.node_id@ != (#[trigger] rest[j])->Ok_0->Ok_0.node_id@ by {
            assert(rest[i] == results[i + 1]);
            assert(rest[j] == results[j + 1]);
        }
        results_are_recorded_up_to_the_first_failure(next, rest, n - 1);
        let after = absorbed(completed, results);
        assert(after == absorbed(next, rest));
        assert forall|i: int| 0 <= i < n implies {
            let result = (#[trigger] results[i])->Ok_0->Ok_0;
            &&& after.contains_key(result.node_id@)
            &&& after[result.node_id@] == result
        } by {
            if i > 0 {
                assert(rest[i - 1] == results[i]);
            } else {
                assert forall|j: int| 0 <= j < n - 1 implies (
                #[trigger] rest[j])->Ok_0->Ok_0.node_id@ != result.node_id@ by {
                    assert(rest[j] == results[j + 1]);
                    assert(results[0]->Ok_0->Ok_0.node_id@ != results[j + 1]->Ok_0->Ok_0.node_id@);
                }
                assert(absorbed(next, rest).contains_key(result.node_id@) == next.contains_key(
                    result.node_id@,
                ));
            }
        }
        assert forall|k: Seq<char>|
            (forall|i: int|
                0 <= i < n ==> (#[trigger] results[i])->Ok_0->Ok_0.node_id@ != k) implies {
            &&& #[trigger] after.contains_key(k) == completed.contains_key(k)
            &&& completed.contains_key(k) ==> after[k] == completed[k]
        } by {
            assert(results[0]->Ok_0->Ok_0.node_id@ != k);
            assert forall|j: int| 0 <= j < n - 1 implies (
            #[trigger] rest[j])->Ok_0->Ok_0.node_id@ != k by {
                assert(rest[j] == results[j + 1]);
            }
            assert(absorbed(next, rest).contains_key(k) == next.contains_key(k));
        }
        if n < results.len() {
            assert(rest[n - 1] == results[n]);
        }
    }
}

/// What a node put out in one wave is what the nodes behind it are handed in the
/// next: under its own id, and, where branches meet, in what flows in and out of the
/// join.
pub proof fn an_output_reaches_the_next_wave(
    workflow: Workflow,
    completed: Completed,
    results: Seq<Joined>,
    i: int,
    edge: int,
    plan: NodePlan<'_>,
    id: Seq<char>,
    payload: JsonModel,
)
    requires
        forall|j: int| 0 <= j < results.len() ==> ((#[trigger] results[j]) matches Ok(Ok(_))),
        forall|j: int, k: int|
            0 <= j < k < results.len() ==> (#[trigger] results[j])->Ok_0->Ok_0.node_id@ != (
            #[trigger] results[k])->Ok_0->Ok_0.node_id@,
        0 <= i < results.len(),
        0 <= edge < workflow.edges@.len(),
        workflow.edges@[edge].0@ == results[i]->Ok_0->Ok_0.node_id@,
        workflow.edges@[edge].1@ == id,
        plan.plans(workflow, id, absorbed(completed, results), payload),
    ensures
        ({
            let result = results[i]->Ok_0->Ok_0;
            let from = result.node_id@;
            &&& plan.upstream@.contains_key(from)
            &&& plan.upstream@[from]@ == result.output@
            &&& plan.is_join ==> plan.input@ is Object && plan.input@->Object_0.contains_key(from)
                && plan.input@->Object_0[from] == result.output@
            &&& !plan.is_join ==> plan.input@ == result.output@
        }),
{
    results_are_recorded_up_to_the_first_failure(completed, results, results.len() as int);
    a_plan_hands_over_the_outputs_upstream(
        plan,
        workflow,
        id,
        absorbed(completed, results),
        payload,
    );
    assert(workflow.edges@[edge].1@ == id);
}

// ── Laws of a whole execution ──────────────────────────────────────────────

/// Whether these are results of the nodes of a wave, in its order, as far as they
/// succeeded.
pub open spec fn answers(ids: Seq<Seq<char>>, results: Seq<Joined>) -> bool {
    &&& results.len() == ids.len()
    &&& forall|i: int|
        0 <= i < results.len() && succeeded(#[trigger] results[i]) ==> results[i]->Ok_0->Ok_0.node_id@
            == ids[i]
}

/// What has completed once the results of these waves are in, from the beginning.
pub open spec fn executed(waves: Seq<Seq<Joined>>) -> Completed
    decreases waves.len(),
{
    if waves.len() == 0 {
        Completed::empty()
    } else {
        absorbed(executed(waves.drop_last()), waves.last())
    }
}

/// Whether these are the waves of an execution of the workflow: each ran the nodes
/// that were ready once the results of those before it were in.
pub open spec fn is_execution(workflow: Workflow, waves: Seq<Seq<Joined>>) -> bool
    decreases waves.len(),
{
    waves.len() > 0 ==> {
        let earlier = waves.drop_last();
        &&& is_execution(workflow, earlier)
        &&& wave(workflow, executed(earlier).dom()).len() > 0
        &&& answers(wave(workflow, executed(earlier).dom()), waves.last())
    }
}

/// Whether everything completed is a node of the workflow, and each result stands
/// under the node it is of.
pub open spec fn own_results(workflow: Workflow, completed: Completed) -> bool {
    forall|id: Seq<char>| #[trigger]
        completed.contains_key(id) ==> workflow.nodes@.contains_key(id) && completed[id].node_id@
            == id
}

/// Taking in results of a workflow's nodes keeps each result under its own node.
pub proof fn results_stay_under_their_nodes(
    workflow: Workflow,
    completed: Completed,
    results: Seq<Joined>,
)
    requires
        own_results(workflow, completed),
        forall|i: int|
            0 <= i < results.len() && succeeded(#[trigger] results[i])
                ==> workflow.nodes@.contains_key(results[i]->Ok_0->Ok_0.node_id@),
    ensures
        own_results(workflow, absorbed(completed, results)),
    decreases results.len(),
{
    if results.len() > 0 && succeeded(results[0]) {
        let result = results[0]->Ok_0->Ok_0;
        let rest = results.skip(1);
        assert forall|i: int|
            0 <= i < rest.len() && succeeded(
                #[trigger] rest[i],
            ) implies workflow.nodes@.contains_key(rest[i]->Ok_0->Ok_0.node_id@) by {
            assert(rest[i] == results[i + 1]);
        }
        results_stay_under_their_nodes(
            workflow,
            completed.insert(result.node_id@, result),
            rest,
        );
    }
}

/// At every point of an execution, whatever failed in it, what has completed are
/// nodes of the workflow, and each result stands under the node it is of.
pub proof fn an_execution_completes_only_its_nodes(workflow: Workflow, waves: Seq<Seq<Joined>>)
    requires
        workflow.wf(),
        is_execution(workflow, waves),
    ensures
        own_results(workflow, executed(waves)),
    decreases waves.len(),
{
    if waves.len() > 0 {
        let earlier = waves.drop_last();
        let ids = wave(workflow, executed(earlier).dom());
        let results = waves.last();
        an_execution_completes_only_its_nodes(workflow, earlier);
        assert forall|i: int|
            0 <= i < results.len() && succeeded(
                #[trigger] results[i],
            ) implies workflow.nodes@.contains_key(results[i]->Ok_0->Ok_0.node_id@) by {
            a_wave_is_never_refused(workflow, executed(earlier).dom(), i);
        }
        results_stay_under_their_nodes(workflow, executed(earlier), results);
    }
}

/// An execution of a graph without cycles that finds nothing left to run has
/// completed the workflow's nodes, all of them and no others.
pub proof fn a_whole_execution_completes_exactly_its_nodes(
    workflow: Workflow,
    waves: Seq<Seq<Joined>>,
    rank: spec_fn(Seq<char>) -> nat,
)
    requires
        workflow.wf(),
        ranked(workflow, rank),
        is_execution(workflow, waves),
        wave(workflow, executed(waves).dom()).len() == 0,
    ensures
        executed(waves).dom() == workflow.nodes@.dom(),
        forall|id: Seq<char>| #[trigger]
            workflow.nodes@.contains_key(id) ==> executed(waves)[id].node_id@ == id,
{
    let completed = executed(waves);
    an_execution_completes_only_its_nodes(workflow, waves);
    assert forall|id: Seq<char>| #[trigger] workflow.nodes@.contains_key(
        id,
    ) implies completed.contains_key(id) by {
        a_finished_execution_completed_every_node(workflow, completed.dom(), rank, id);
    }
    assert forall|id: Seq<char>| completed.dom().contains(
        id,
    ) implies workflow.nodes@.dom().contains(id) by {
        assert(completed.contains_key(id));
    }
    assert forall|id: Seq<char>| workflow.nodes@.dom().contains(
        id,
    ) implies completed.dom().contains(id) by {
        assert(workflow.nodes@.contains_key(id));
    }
    assert(completed.dom() =~= workflow.nodes@.dom());
}

/// An execution in which every node succeeds takes at most as many waves as the
/// workflow has nodes, so it comes to an end.
pub proof fn an_execution_takes_at_most_one_wave_per_node(
    workflow: Workflow,
    waves: Seq<Seq<Joined>>,
)
    requires
        workflow.wf(),
        is_execution(workflow, waves),
        forall|n: int, i: int|
            0 <= n < waves.len() && 0 <= i < waves[n].len() ==> succeeded(#[trigger] waves[n][i]),
    ensures
        waves.len() + remaining(workflow, executed(waves).dom()) <= workflow.nodes.order().len(),
    decreases waves.len(),
{
    if waves.len() == 0 {
        workflow.nodes.order().lemma_filter_len(
            |id: Seq<char>| !executed(waves).dom().contains(id),
        );
    } else {
        let earlier = waves.drop_last();
        let completed = executed(earlier);
        let results = waves.last();
        assert forall|n: int, i: int|
            0 <= n < earlier.len() && 0 <= i < earlier[n].len() implies succeeded(
            #[trigger] earlier[n][i],
        ) by {
            assert(earlier[n][i] == waves[n][i]);
        }
        an_execution_takes_at_most_one_wave_per_node(workflow, earlier);
        assert forall|i: int| 0 <= i < results.len() implies succeeded(#[trigger] results[i])
            && results[i]->Ok_0->Ok_0.node_id@ == wave(workflow, completed.dom())[i] by {
            assert(results[i] == waves[waves.len() - 1][i]);
        }
        a_successful_wave_makes_progress(workflow, completed, results);
    }
}

} // verus!
