//! Workflow execution, with tasks that are plain functions and templates of the
//! form `{{ field }}`.

use fuchsia::json::{Json, JsonObject};
use fuchsia::locked::{
    ConfigRuntimeType, ExecutionMode, JoinStrategy, LockedComponent, LockedLoop, LoopFailureMode,
    Node, NodeType, RuntimeType, Workflow,
};
use fuchsia::orchestrator::{
    fresh_id, located, map_runtime_type, resolve_component_bytes, Dispatch, InvokeResult,
    NodeResult, Orchestrator, OrchestratorConfig, OrchestratorError, Wave, WaveEnd,
};
use fuchsia::table::Table;

// ---- Tasks --------------------------------------------------------------------

/// Runs the task a component's bytes name.
fn run_task(script: &[u8], data: &Json) -> Result<Json, String> {
    match script {
        b"echo" => Ok(data.clone()),
        b"transform" => Ok(JsonObject::new()
            .with("transformed", Json::Bool(true))
            .with("original", data.clone())
            .build()),
        _ => Err("intentional failure".to_owned()),
    }
}

/// Renders each `{{ field }}` input against the one upstream value.
fn resolve_inputs(inputs: &Table<String>, upstream: &Table<Json>) -> Json {
    let mut resolved = JsonObject::new();
    for i in 0..inputs.len() {
        let (name, template) = (inputs.key(i), inputs.value(i));
        let field = template.trim_start_matches("{{ ").trim_end_matches(" }}");
        let rendered = match upstream.value(0).get(field) {
            Some(Json::Str(s)) => s.clone(),
            Some(Json::Bool(b)) => b.to_string(),
            Some(Json::UInt(n)) => n.to_string(),
            _ => String::new(),
        };
        resolved = resolved.with(name, Json::Str(rendered));
    }
    resolved.build()
}

fn bytes_of(orch: &Orchestrator, node_id: &str) -> Option<Vec<u8>> {
    orch.component_of(node_id).map(|locked| locked.name.as_bytes().to_vec())
}

/// Executes the workflow to its end, and notes the waves it ran in.
fn invoke(
    orch: &Orchestrator,
    payload: Json,
    cancelled: bool,
    waves: &mut Vec<Vec<String>>,
) -> Result<InvokeResult, OrchestratorError> {
    let mut execution = orch.invoke()?;
    loop {
        let ready = match orch.run_execution_loop(&execution, cancelled) {
            Wave::Cancelled(e) => return Err(e),
            Wave::Finished => return Ok(execution.finish()),
            Wave::Run(ready) => ready,
        };
        waves.push(ready.clone());
        let mut results = Vec::new();
        for plan in orch.execute_ready_nodes(&ready, &execution.completed, &payload)? {
            let resolved = match orch.component_of(&plan.node_id) {
                Some(_) => resolve_inputs(&plan.node.inputs, &plan.upstream),
                None => Json::Null,
            };
            let bytes = bytes_of(orch, &plan.node_id);
            results.push(Ok(match plan.dispatch(resolved, bytes, fresh_id()) {
                Dispatch::Execute(task) => {
                    let output = run_task(&task.bytes, &task.resolved_input);
                    task.finish(output)
                }
                Dispatch::Finished(result) => result,
            }));
        }
        execution.end_wave(WaveEnd::Joined(results))?;
    }
}

fn run(orch: &Orchestrator, payload: Json) -> Result<InvokeResult, OrchestratorError> {
    invoke(orch, payload, false, &mut Vec::new())
}

// ---- Helpers ------------------------------------------------------------------

fn templates(inputs: &[(&str, &str)]) -> Table<String> {
    let mut table = Table::new();
    for (name, template) in inputs {
        table.insert(name.to_string(), template.to_string());
    }
    table
}

fn node(node_id: &str, node_type: NodeType, inputs: &[(&str, &str)]) -> (String, Node) {
    (
        node_id.to_string(),
        Node {
            node_id: node_id.to_string(),
            node_type,
            inputs: templates(inputs),
            timeout_ms: None,
            max_retry_attempts: None,
            fail_workflow: false,
        },
    )
}

fn lua_task_node_with_inputs(
    node_id: &str,
    component_name: &str,
    inputs: &[(&str, &str)],
) -> (String, Node) {
    let locked = LockedComponent {
        name: component_name.to_string(),
        version: "1.0.0".to_string(),
        digest: "sha256:test".to_string(),
        task_name: "execute".to_string(),
        input_schema: JsonObject::new().build(),
        runtime_type: ConfigRuntimeType::Lua,
    };
    node(node_id, NodeType::Component(locked), inputs)
}

fn lua_task_node(node_id: &str, component_name: &str) -> (String, Node) {
    lua_task_node_with_inputs(node_id, component_name, &[])
}

fn join_node(node_id: &str) -> (String, Node) {
    node(node_id, NodeType::Join { strategy: JoinStrategy::All }, &[])
}

fn loop_node(node_id: &str) -> (String, Node) {
    let inner = LockedLoop {
        execution_mode: ExecutionMode::Sequential,
        concurrency: None,
        failure_mode: LoopFailureMode::Stop,
        workflow: Box::new(make_workflow(vec![], vec![])),
    };
    node(node_id, NodeType::Loop(inner), &[])
}

fn make_workflow(nodes: Vec<(String, Node)>, edges: Vec<(&str, &str)>) -> Workflow {
    let mut table = Table::new();
    for (id, node) in nodes {
        table.insert(id, node);
    }
    Workflow {
        workflow_id: "test-workflow".to_string(),
        name: "Test Workflow".to_string(),
        nodes: table,
        edges: edges.into_iter().map(|(a, b)| (a.to_string(), b.to_string())).collect(),
        timeout_ms: None,
        max_retry_attempts: None,
    }
}

fn make_orchestrator(workflow: Workflow) -> Orchestrator {
    Orchestrator::new(workflow, OrchestratorConfig::default()).expect("failed to create orchestrator")
}

fn text(s: &str) -> Json {
    Json::Str(s.to_owned())
}

fn object(key: &str, value: Json) -> Json {
    JsonObject::new().with(key, value).build()
}

fn empty() -> Json {
    JsonObject::new().build()
}

fn output<'a>(result: &'a InvokeResult, id: &str) -> &'a Json {
    &result.node_results.get(id).unwrap().output
}

fn result_of(node_id: &str, output: Json) -> NodeResult {
    NodeResult {
        task_id: "t".to_owned(),
        node_id: node_id.to_owned(),
        input: Json::Null,
        resolved_input: Json::Null,
        output,
    }
}

// ---- Whole workflows ------------------------------------------------------------

/// echo entry node: verify output matches payload.
#[test]
fn test_single_node_success() {
    let workflow =
        make_workflow(vec![lua_task_node_with_inputs("A", "echo", &[("msg", "{{ msg }}")])], vec![]);
    let orch = make_orchestrator(workflow);
    let result = run(&orch, object("msg", text("hello"))).expect("invoke failed");
    assert_eq!(output(&result, "A").get("msg"), Some(&text("hello")));
}

/// A -> B -> C (linear chain), verify data flows through.
#[test]
fn test_linear_chain() {
    let workflow = make_workflow(
        vec![
            lua_task_node_with_inputs("A", "echo", &[("msg", "{{ msg }}")]),
            lua_task_node_with_inputs("B", "transform", &[("msg", "{{ msg }}")]),
            lua_task_node_with_inputs("C", "echo", &[("transformed", "{{ transformed }}")]),
        ],
        vec![("A", "B"), ("B", "C")],
    );
    let orch = make_orchestrator(workflow);
    let mut waves = Vec::new();
    let result =
        invoke(&orch, object("msg", text("hello")), false, &mut waves).expect("invoke failed");

    // B wraps A's output: { transformed: true, original: <A's output> }
    assert_eq!(output(&result, "B").get("transformed"), Some(&Json::Bool(true)));
    // C echoes B's transformed field (template renders bool as string)
    assert_eq!(output(&result, "C").get("transformed"), Some(&text("true")));
    assert_eq!(waves, vec![vec!["A"], vec!["B"], vec!["C"]]);
}

/// [A, B] in parallel (both entry points), verify both run.
#[test]
fn test_parallel_fan_out() {
    let workflow = make_workflow(
        vec![
            lua_task_node_with_inputs("A", "echo", &[("fan", "{{ fan }}")]),
            lua_task_node_with_inputs("B", "echo", &[("fan", "{{ fan }}")]),
        ],
        vec![],
    );
    let orch = make_orchestrator(workflow);
    let mut waves = Vec::new();
    let result = invoke(&orch, object("fan", text("out")), false, &mut waves).expect("invoke failed");
    assert!(result.node_results.contains("A"));
    assert!(result.node_results.contains("B"));
    assert_eq!(output(&result, "A").get("fan"), Some(&text("out")));
    assert_eq!(output(&result, "B").get("fan"), Some(&text("out")));
    assert_eq!(waves, vec![vec!["A", "B"]]);
}

/// [A, B] -> join -> C, verify join merges and C receives it.
#[test]
fn test_fan_out_join() {
    let workflow = make_workflow(
        vec![
            lua_task_node("A", "echo"),
            lua_task_node("B", "echo"),
            join_node("join"),
            lua_task_node("C", "echo"),
        ],
        vec![("A", "join"), ("B", "join"), ("join", "C")],
    );
    let orch = make_orchestrator(workflow);
    let result = run(&orch, object("data", Json::UInt(1))).expect("invoke failed");

    // Join should have merged A and B outputs
    assert!(result.node_results.contains("join"));
    let merged = output(&result, "join");
    assert_eq!(merged.get("A"), Some(&empty()));
    assert_eq!(merged.get("B"), Some(&empty()));
    // C receives the join output
    assert!(result.node_results.contains("C"));
    assert_eq!(&result.node_results.get("C").unwrap().input, merged);
}

/// A (fails) -> B, verify B never runs and workflow errors.
#[test]
fn test_task_failure_stops_workflow() {
    let workflow = make_workflow(
        vec![lua_task_node("A", "fail"), lua_task_node("B", "echo")],
        vec![("A", "B")],
    );
    let orch = make_orchestrator(workflow);
    let mut waves = Vec::new();
    let result = invoke(&orch, empty(), false, &mut waves);

    assert!(result.is_err(), "workflow should have failed");
    let msg = result.err().unwrap().to_string();
    assert!(
        msg.contains("task execution failed"),
        "expected TaskExecution error, got: {msg}"
    );
    assert_eq!(waves, vec![vec!["A"]]);
}

/// [A (ok), B (fails)] -> C, verify workflow fails.
#[test]
fn test_failure_in_parallel_batch() {
    let workflow = make_workflow(
        vec![
            lua_task_node("A", "echo"),
            lua_task_node("B", "fail"),
            lua_task_node("C", "echo"),
        ],
        vec![("A", "C"), ("B", "C")],
    );
    let orch = make_orchestrator(workflow);
    let result = run(&orch, empty());
    assert!(result.is_err(), "workflow should have failed due to B");
}

/// A -> B (with template input), verify template resolves.
#[test]
fn test_input_template_resolution() {
    let workflow = make_workflow(
        vec![
            // A (entry point) forwards the payload's `msg` field
            lua_task_node_with_inputs("A", "echo", &[("msg", "{{ msg }}")]),
            // B references A's output field
            lua_task_node_with_inputs("B", "echo", &[("greeting", "{{ msg }}")]),
        ],
        vec![("A", "B")],
    );
    let orch = make_orchestrator(workflow);
    let result = run(&orch, object("msg", text("hello world"))).expect("invoke failed");
    // B's resolved_input should have the template resolved
    let b_resolved = &result.node_results.get("B").unwrap().resolved_input;
    assert_eq!(b_resolved.get("greeting"), Some(&text("hello world")));
}

/// A (pre-cancelled), verify Cancelled error.
#[test]
fn test_cancellation() {
    let workflow = make_workflow(vec![lua_task_node("A", "echo")], vec![]);
    let orch = make_orchestrator(workflow);
    let mut waves = Vec::new();
    let result = invoke(&orch, empty(), true, &mut waves);

    assert!(result.is_err(), "should have been cancelled");
    let msg = result.err().unwrap().to_string();
    assert!(msg.contains("cancelled"), "expected cancellation error, got: {msg}");
    assert!(waves.is_empty());
}

/// A with empty payload, verify it still works.
#[test]
fn test_empty_input() {
    let workflow = make_workflow(vec![lua_task_node("A", "echo")], vec![]);
    let orch = make_orchestrator(workflow);
    let result = run(&orch, empty()).expect("invoke failed");
    assert!(result.node_results.contains("A"));
}

/// [10 parallel entry tasks] -> join, verify all run and merge.
#[test]
fn test_large_fan_out() {
    let task_ids: Vec<String> = (0..10).map(|i| format!("task_{i}")).collect();
    let mut nodes: Vec<(String, Node)> =
        task_ids.iter().map(|id| lua_task_node(id, "echo")).collect();
    nodes.push(join_node("join"));
    let edges = task_ids.iter().map(|id| (id.as_str(), "join")).collect();
    let mut workflow = make_workflow(nodes, edges);
    workflow.workflow_id = "fan-out-test".to_string();
    workflow.name = "Fan-out Test".to_string();

    let orch = make_orchestrator(workflow);
    let result = run(&orch, object("n", Json::UInt(10))).expect("invoke failed");

    // All 10 tasks + join = 11 nodes
    assert_eq!(result.node_results.len(), 11);
    for id in &task_ids {
        assert!(result.node_results.contains(id), "missing result for {id}");
    }
    assert!(result.node_results.contains("join"));
    for id in &task_ids {
        assert!(output(&result, "join").get(id).is_some());
    }
}

// ---- Decisions one by one ---------------------------------------------------------

#[test]
fn a_workflow_without_entry_points_is_refused() {
    let workflow = make_workflow(
        vec![lua_task_node("A", "echo"), lua_task_node("B", "echo")],
        vec![("A", "B"), ("B", "A")],
    );
    let orch = make_orchestrator(workflow);
    let err = orch.invoke().err().unwrap();
    assert_eq!(
        err,
        OrchestratorError::InvalidGraph { message: "workflow has no entry points".to_owned() }
    );
    assert_eq!(err.to_string(), "invalid graph: workflow has no entry points");
}

#[test]
fn a_cycle_behind_an_entry_point_is_left_incomplete() {
    let workflow = make_workflow(
        vec![lua_task_node("A", "echo"), lua_task_node("B", "echo"), lua_task_node("C", "echo")],
        vec![("B", "C"), ("C", "B")],
    );
    let orch = make_orchestrator(workflow);
    let result = run(&orch, empty()).unwrap();
    assert_eq!(result.node_results.len(), 1);
    assert!(result.node_results.contains("A"));
}

#[test]
fn readiness_waits_for_every_upstream_node() {
    let workflow = make_workflow(
        vec![lua_task_node("A", "echo"), lua_task_node("B", "echo"), lua_task_node("C", "echo")],
        vec![("A", "C"), ("B", "C")],
    );
    let orch = make_orchestrator(workflow);
    assert_eq!(orch.workflow().upstream("C"), vec!["A", "B"]);
    assert!(orch.workflow().is_join_point("C"));
    assert!(!orch.workflow().is_join_point("A"));
    assert_eq!(orch.workflow().entry_points(), vec!["A", "B"]);
    let mut completed = Table::new();
    assert_eq!(orch.find_ready_nodes(&completed), vec!["A", "B"]);
    completed.insert("B".to_owned(), result_of("B", Json::Null));
    assert_eq!(orch.find_ready_nodes(&completed), vec!["A"]);
    completed.insert("A".to_owned(), result_of("A", Json::Null));
    assert_eq!(orch.find_ready_nodes(&completed), vec!["C"]);
}

#[test]
fn entry_points_see_the_payload() {
    let orch = make_orchestrator(make_workflow(vec![lua_task_node("A", "echo")], vec![]));
    let payload = object("x", Json::UInt(1));
    let plan = orch.plan_node("A", &Table::new(), &payload).unwrap();
    assert_eq!(plan.upstream.len(), 1);
    assert_eq!(plan.upstream.get("_payload"), Some(&payload));
    assert!(!plan.is_join);
    assert_eq!(plan.input, payload);
}

#[test]
fn a_straight_edge_passes_one_output_on() {
    let workflow = make_workflow(
        vec![lua_task_node("A", "echo"), lua_task_node("B", "echo")],
        vec![("A", "B")],
    );
    let orch = make_orchestrator(workflow);
    let mut completed = Table::new();
    completed.insert("A".to_owned(), result_of("A", text("out")));
    let plan = orch.plan_node("B", &completed, &Json::Null).unwrap();
    assert_eq!(plan.upstream.get("A"), Some(&text("out")));
    assert_eq!(plan.input, text("out"));
    // Nothing flows in from a node that has not completed.
    let early = orch.plan_node("B", &Table::new(), &Json::Null).unwrap();
    assert_eq!(early.upstream.len(), 0);
    assert_eq!(early.input, Json::Null);
}

#[test]
fn an_unknown_node_is_refused() {
    let orch = make_orchestrator(make_workflow(vec![lua_task_node("A", "echo")], vec![]));
    let expected =
        OrchestratorError::InvalidGraph { message: "node 'X' not found in workflow".to_owned() };
    assert_eq!(orch.plan_node("X", &Table::new(), &Json::Null).err(), Some(expected));
    let wave = vec!["A".to_owned(), "X".to_owned()];
    assert!(orch.execute_ready_nodes(&wave, &Table::new(), &Json::Null).is_err());
    assert!(orch.invoke_node("X", Json::Null).is_err());
}

#[test]
fn a_component_without_its_bytes_is_refused() {
    let orch = make_orchestrator(make_workflow(vec![lua_task_node("A", "echo")], vec![]));
    let plan = orch.plan_node("A", &Table::new(), &Json::Null).unwrap();
    let Dispatch::Finished(Err(e)) = plan.dispatch(Json::Null, None, "t".to_owned()) else {
        panic!("expected a refusal");
    };
    assert_eq!(
        e,
        OrchestratorError::InvalidGraph {
            message: "component bytes not loaded for component node".to_owned(),
        }
    );
}

#[test]
fn a_component_runs_on_its_runtime_with_its_inputs() {
    let orch = make_orchestrator(make_workflow(vec![lua_task_node("A", "echo")], vec![]));
    let plan = orch.plan_node("A", &Table::new(), &text("in")).unwrap();
    let Dispatch::Execute(task) = plan.dispatch(text("resolved"), Some(vec![1, 2]), "t-1".to_owned())
    else {
        panic!("expected a task");
    };
    assert_eq!(task.runtime, RuntimeType::Lua);
    assert_eq!(task.bytes, vec![1, 2]);
    let result = task.finish(Ok(text("out"))).unwrap();
    assert_eq!(
        result,
        NodeResult {
            task_id: "t-1".to_owned(),
            node_id: "A".to_owned(),
            input: text("in"),
            resolved_input: text("resolved"),
            output: text("out"),
        }
    );
}

#[test]
fn loops_are_refused() {
    let orch = make_orchestrator(make_workflow(vec![loop_node("L")], vec![]));
    let plan = orch.plan_node("L", &Table::new(), &Json::Null).unwrap();
    let Dispatch::Finished(Err(e)) = plan.dispatch(Json::Null, None, "t".to_owned()) else {
        panic!("expected a refusal");
    };
    assert_eq!(
        e,
        OrchestratorError::InvalidGraph { message: "loop nodes not yet implemented".to_owned() }
    );
}

#[test]
fn one_node_can_run_alone() {
    let orch = make_orchestrator(make_workflow(
        vec![lua_task_node("A", "echo"), join_node("J"), loop_node("L")],
        vec![("A", "J")],
    ));
    let plan = orch.invoke_node("A", text("payload")).unwrap();
    assert_eq!(plan.component.name, "echo");
    assert_eq!(plan.upstream.get("_payload"), Some(&text("payload")));
    let task = plan.task(text("resolved"), vec![7], false, "t-2".to_owned()).unwrap();
    assert_eq!(task.input, text("payload"));
    assert_eq!(task.resolved_input, text("resolved"));
    assert_eq!(
        task.finish(Err("no memory".to_owned())).err().unwrap().to_string(),
        "task execution failed: no memory"
    );

    let cancelled = orch.invoke_node("A", Json::Null).unwrap();
    let err = cancelled.task(Json::Null, vec![], true, "t-3".to_owned()).err();
    assert_eq!(err, Some(OrchestratorError::Cancelled));

    assert_eq!(
        orch.invoke_node("J", Json::Null).err().unwrap().to_string(),
        "invalid graph: cannot invoke_node on join node 'J' — joins are graph-level concerns"
    );
    assert_eq!(
        orch.invoke_node("L", Json::Null).err().unwrap().to_string(),
        "invalid graph: cannot invoke_node on loop node 'L' — loops are graph-level concerns"
    );
}

#[test]
fn components_are_located_and_loaded() {
    assert_eq!(located("c", "1.0.0", Ok(Some(5u8))), Ok(5u8));
    assert_eq!(
        located::<u8>("c", "1.0.0", Ok(None)).err().unwrap().to_string(),
        "failed to load component 'c': component 'c@1.0.0' not found in registry"
    );
    assert_eq!(
        located::<u8>("c", "1.0.0", Err("offline".to_owned())).err(),
        Some(OrchestratorError::ComponentLoad {
            node_id: "c".to_owned(),
            message: "registry error: offline".to_owned(),
        })
    );
    assert_eq!(resolve_component_bytes("c", "/c.wasm", Ok(vec![1])), Ok(vec![1]));
    assert_eq!(
        resolve_component_bytes("c", "/c.wasm", Err("denied".to_owned())).err(),
        Some(OrchestratorError::ComponentLoad {
            node_id: "c".to_owned(),
            message: "failed to read /c.wasm: denied".to_owned(),
        })
    );
}

#[test]
fn results_are_taken_in_up_to_the_first_failure() {
    let orch = make_orchestrator(make_workflow(vec![lua_task_node("A", "echo")], vec![]));
    let mut execution = orch.invoke().unwrap();
    let failed = OrchestratorError::Input { node_id: "B".to_owned(), message: "no field".to_owned() };
    let err = execution
        .absorb(vec![
            Ok(Ok(result_of("A", Json::Null))),
            Ok(Err(failed)),
            Ok(Ok(result_of("C", Json::Null))),
        ])
        .err()
        .unwrap();
    assert_eq!(err.to_string(), "failed to resolve inputs of node 'B': no field");
    assert!(execution.completed.contains("A"));
    assert!(!execution.completed.contains("C"));

    let mut execution = orch.invoke().unwrap();
    let err = execution.absorb(vec![Err("task 3 panicked".to_owned())]).err();
    assert_eq!(
        err,
        Some(OrchestratorError::InvalidGraph {
            message: "task join error: task 3 panicked".to_owned(),
        })
    );
}

#[test]
fn a_wave_cancelled_while_it_runs_ends_the_execution_and_takes_nothing_in() {
    let workflow = make_workflow(
        vec![lua_task_node("A", "echo"), lua_task_node("B", "echo")],
        vec![("A", "B")],
    );
    let orch = make_orchestrator(workflow);
    let mut execution = orch.invoke().unwrap();
    let first = WaveEnd::Joined(vec![Ok(Ok(result_of("A", Json::Null)))]);
    assert_eq!(execution.end_wave(first), Ok(()));
    assert_eq!(execution.end_wave(WaveEnd::Cancelled), Err(OrchestratorError::Cancelled));
    assert_eq!(execution.completed.len(), 1);
    assert!(execution.completed.contains("A"));
    // A failure among joined results is reported as it is.
    let failed = WaveEnd::Joined(vec![Err("gone".to_owned())]);
    assert_eq!(
        execution.end_wave(failed),
        Err(OrchestratorError::InvalidGraph { message: "task join error: gone".to_owned() })
    );
}

#[test]
fn scripts_without_a_runtime_fall_back_to_wasm() {
    assert_eq!(map_runtime_type(&ConfigRuntimeType::Wasm), RuntimeType::Wasm);
    assert_eq!(map_runtime_type(&ConfigRuntimeType::Lua), RuntimeType::Lua);
    assert_eq!(map_runtime_type(&ConfigRuntimeType::Js), RuntimeType::Wasm);
}

#[test]
fn fresh_ids_are_random_and_well_formed() {
    let (a, b) = (fresh_id(), fresh_id());
    assert_ne!(a, b);
    assert_eq!(a.len(), 36);
    assert_eq!(&a[14..15], "4");
    assert!(matches!(&a[19..20], "8" | "9" | "a" | "b"));
    for (i, c) in a.chars().enumerate() {
        if matches!(i, 8 | 13 | 18 | 23) {
            assert_eq!(c, '-');
        } else {
            assert!(c.is_ascii_hexdigit() && !c.is_ascii_uppercase());
        }
    }
}

#[test]
fn only_component_nodes_have_a_component_to_load() {
    let workflow = make_workflow(
        vec![lua_task_node("A", "echo"), join_node("J")],
        vec![("A", "J")],
    );
    let orch = make_orchestrator(workflow);
    assert_eq!(orch.component_of("A").unwrap().name, "echo");
    assert!(orch.component_of("J").is_none());
    assert!(orch.component_of("Z").is_none());
}

#[test]
fn nodes_are_equal_whatever_the_order_of_their_inputs() {
    let a = lua_task_node_with_inputs("A", "echo", &[("x", "{{ x }}"), ("y", "{{ y }}")]);
    let b = lua_task_node_with_inputs("A", "echo", &[("y", "{{ y }}"), ("x", "{{ x }}")]);
    assert_eq!(a, b);
    let c = lua_task_node_with_inputs("A", "echo", &[("x", "{{ y }}"), ("y", "{{ x }}")]);
    assert_ne!(a, c);
}

#[test]
fn a_copy_of_a_locked_workflow_is_equal_to_it_down_into_its_loops() {
    let inner = make_workflow(vec![lua_task_node("I", "echo")], vec![]);
    let looped = NodeType::Loop(LockedLoop {
        execution_mode: ExecutionMode::Sequential,
        concurrency: Some(2),
        failure_mode: LoopFailureMode::Stop,
        workflow: Box::new(inner),
    });
    let workflow = make_workflow(
        vec![lua_task_node("A", "echo"), join_node("J"), node("L", looped, &[("x", "{{ x }}")])],
        vec![("A", "J"), ("J", "L")],
    );
    let copy = workflow.clone();
    assert_eq!(copy, workflow);
    assert_eq!(copy.nodes.key(2), "L");
    let NodeType::Loop(l) = &copy.get_node("L").unwrap().node_type else {
        panic!("expected a loop");
    };
    assert!(l.workflow.get_node("I").is_some());
    assert_eq!(l.clone(), *l);
}

#[test]
fn every_result_stands_under_its_own_node() {
    let workflow = make_workflow(
        vec![
            lua_task_node("A", "echo"),
            lua_task_node("B", "echo"),
            lua_task_node("C", "echo"),
            join_node("J"),
        ],
        vec![("A", "B"), ("A", "C"), ("B", "J"), ("C", "J")],
    );
    let orch = make_orchestrator(workflow);
    let mut waves = Vec::new();
    let result = invoke(&orch, empty(), false, &mut waves).unwrap();
    assert!(waves.len() <= 4);
    assert_eq!(result.node_results.len(), 4);
    for i in 0..4 {
        let id = result.node_results.key(i);
        assert_eq!(&result.node_results.value(i).node_id, id);
        assert!(orch.workflow().get_node(id).is_some());
    }
}
