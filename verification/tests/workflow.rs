//! Workflow definitions: identities, validation, creation and update.

use fuchsia::workflow::{
    create, now_millis, update, BuiltinConfig, ComponentConfig, Edge, NewWorkflow, Node,
    NodeDefinition, NodeId, Runtime, Trigger, Workflow, WorkflowError, WorkflowId,
};
use std::collections::BTreeMap;

fn node(id: &str, trigger: Option<Trigger>) -> Node {
    Node {
        id: NodeId(id.to_owned()),
        definition: NodeDefinition::Builtin(BuiltinConfig {
            name: "passthrough".to_owned(),
            env: BTreeMap::new(),
            settings: bson::Document::new(),
        }),
        trigger,
    }
}

fn edge(from: &str, to: &str) -> Edge {
    Edge { from: NodeId(from.to_owned()), to: NodeId(to.to_owned()) }
}

fn workflow(nodes: Vec<Node>, edges: Vec<Edge>) -> Workflow {
    Workflow {
        id: WorkflowId::new(),
        name: "w".to_owned(),
        nodes,
        edges,
        created_at: 0,
        updated_at: 0,
    }
}

fn on_entity(id: &str) -> Trigger {
    Trigger::EntityChanged { entity: id.to_owned() }
}

fn component_node(id: &str, component: &str, runtime: Runtime) -> Node {
    let mut settings = bson::Document::new();
    settings.insert("threshold", 21);
    Node {
        id: NodeId(id.to_string()),
        definition: NodeDefinition::Component(ComponentConfig {
            runtime,
            component: component.to_string(),
            settings,
        }),
        trigger: None,
    }
}

fn new_workflow(name: &str) -> NewWorkflow {
    NewWorkflow {
        name: name.to_string(),
        nodes: vec![
            component_node("ingest", "mqtt-source", Runtime::Wasm),
            component_node("debounce", "debounce", Runtime::Lua),
        ],
        edges: vec![edge("ingest", "debounce")],
    }
}

#[test]
fn trigger_node_as_source_is_valid() {
    // a (trigger) → b
    let wf = workflow(
        vec![node("a", Some(on_entity("e"))), node("b", None)],
        vec![edge("a", "b")],
    );
    assert!(wf.validate().is_ok());
}

#[test]
fn trigger_node_with_incoming_edge_is_invalid() {
    // a → b (trigger): an internal edge feeds a trigger node
    let wf = workflow(
        vec![node("a", None), node("b", Some(on_entity("e")))],
        vec![edge("a", "b")],
    );
    assert!(matches!(wf.validate(), Err(WorkflowError::Invalid(_))));
}

#[test]
fn the_first_offending_node_is_named() {
    let wf = workflow(
        vec![node("a", None), node("b", Some(on_entity("e"))), node("c", Some(on_entity("f")))],
        vec![edge("a", "c"), edge("a", "b")],
    );
    let message = "trigger node `b` has an incoming edge; a trigger node must be a source";
    let err = wf.validate().err().unwrap();
    assert_eq!(err, WorkflowError::Invalid(message.to_owned()));
    assert_eq!(err.to_string(), format!("invalid workflow: {message}"));
}

#[test]
fn errors_are_shown_with_their_reason() {
    assert_eq!(WorkflowError::Db("x".to_owned()).to_string(), "database: x");
    assert_eq!(WorkflowError::Serialization("x".to_owned()).to_string(), "serialization: x");
    assert_eq!(WorkflowError::NotFound("x".to_owned()).to_string(), "workflow not found: x");
}

#[test]
fn a_created_workflow_keeps_its_graph() {
    let wf = create(new_workflow("climate"), 1_700_000_000_000);
    assert_eq!(wf.name, "climate");
    assert_eq!(wf.created_at, wf.updated_at);
    assert_eq!(wf.created_at, 1_700_000_000_000);
    assert_eq!(wf.nodes, new_workflow("climate").nodes);
    assert_eq!(wf.edges, new_workflow("climate").edges);
    let NodeDefinition::Component(cfg) = &wf.nodes[0].definition else {
        panic!("expected a component node");
    };
    assert_eq!(cfg.runtime, Runtime::Wasm);
    assert_eq!(cfg.component, "mqtt-source");
    assert_eq!(cfg.settings.get_i32("threshold").unwrap(), 21);
    // Each created workflow has an id of its own.
    assert_ne!(wf.id, create(new_workflow("climate"), 0).id);
}

#[test]
fn update_replaces_graph() {
    let workflow = create(new_workflow("original"), now_millis(Some(1_000)));
    let created_at = workflow.created_at;
    let id = workflow.id;
    let mut updated = workflow;
    updated.name = "renamed".to_string();
    updated.edges.clear();

    let result = update(updated, now_millis(Some(2_000)));

    assert_eq!(result.name, "renamed");
    assert!(result.edges.is_empty());
    assert_eq!(result.created_at, created_at);
    assert!(result.updated_at >= created_at);
    assert_eq!(result.updated_at, 2_000);
    assert_eq!(result.id, id);
}

#[test]
fn times_are_cut_to_a_signed_number() {
    assert_eq!(now_millis(None), 0);
    assert_eq!(now_millis(Some(0)), 0);
    assert_eq!(now_millis(Some(1_700_000_000_123)), 1_700_000_000_123);
    assert_eq!(now_millis(Some(i64::MAX as u128)), i64::MAX);
    assert_eq!(now_millis(Some(i64::MAX as u128 + 1)), i64::MIN);
    assert_eq!(now_millis(Some(u64::MAX as u128)), -1);
    assert_eq!(now_millis(Some(u64::MAX as u128 + 6)), 5);
}

#[test]
fn an_id_reads_back_from_its_text() {
    let id = WorkflowId::new();
    let text = id.to_string();
    assert_eq!(text.len(), 24);
    assert_eq!(WorkflowId::parse(&text), Ok(id));

    let known = WorkflowId::parse("53e37d08776f724e42000000").unwrap();
    assert_eq!(
        known,
        WorkflowId([0x53, 0xe3, 0x7d, 0x08, 0x77, 0x6f, 0x72, 0x4e, 0x42, 0, 0, 0])
    );
    assert_eq!(known.to_string(), "53e37d08776f724e42000000");
}

#[test]
fn the_case_of_digits_does_not_matter() {
    let id = WorkflowId::parse("ABCDEF0123456789abcdef00").unwrap();
    assert_eq!(id.to_string(), "abcdef0123456789abcdef00");
}

#[test]
fn other_texts_are_refused_with_a_reason() {
    let refused = |s: &str| WorkflowId::parse(s).err().unwrap();
    assert_eq!(
        refused("53e37d08776f724e4200000z"),
        "invalid character 'z' was found at index 23 in the provided hex string: \
         \"53e37d08776f724e4200000z\""
    );
    assert_eq!(
        refused("zz"),
        "invalid character 'z' was found at index 0 in the provided hex string: \"zz\""
    );
    assert_eq!(
        refused("abcd"),
        "provided hex string representation must be exactly 12 bytes, instead got: \"abcd\", \
         length 4"
    );
    // An odd length is refused as such, whatever the text holds.
    assert_eq!(
        refused("xyz"),
        "provided hex string representation must be exactly 12 bytes, instead got: \"xyz\", \
         length 3"
    );
    assert_eq!(
        refused(""),
        "provided hex string representation must be exactly 12 bytes, instead got: \"\", length 0"
    );
    // Places and lengths count bytes; a byte is shown as the character of its
    // number.
    assert_eq!(
        refused("é"),
        "invalid character 'Ã' was found at index 0 in the provided hex string: \"é\""
    );
}

#[test]
fn a_copy_of_a_workflow_is_equal_to_it() {
    let w = create(new_workflow("copied"), 5);
    let copy = w.clone();
    assert_eq!(copy, w);
    let NodeDefinition::Component(config) = &copy.nodes[0].definition else {
        panic!("expected a component node");
    };
    assert_eq!(config.settings.get_i32("threshold"), Ok(21));
    let builtin = node("b", Some(on_entity("lamp")));
    assert_eq!(builtin.clone(), builtin);
}
