//! JSON values, tables, text, and what guest components answer.

use fuchsia::components::{
    echo_handle, probe_handle, probe_handle_log, probe_setup_log, probe_teardown_log, task_log,
    task_output, Context, Payload, PayloadValue,
};
use fuchsia::json::{Json, JsonObject};
use fuchsia::table::Table;
use fuchsia::text::{decimal_text, same_text, truth_text};

#[test]
fn numbers_are_rendered_in_decimal() {
    for n in [0u64, 7, 10, 42, 100, 909, 1_000_000, u64::MAX] {
        assert_eq!(decimal_text(n), n.to_string());
    }
}

#[test]
fn truth_and_sameness_of_text() {
    assert_eq!(truth_text(true), "true");
    assert_eq!(truth_text(false), "false");
    assert!(same_text("a", "a"));
    assert!(!same_text("a", "b"));
    assert!(!same_text("a", "aa"));
}

#[test]
fn a_table_keeps_one_value_per_key_in_order_of_arrival() {
    let mut t: Table<u32> = Table::new();
    assert_eq!(t.len(), 0);
    t.insert("b".to_owned(), 1);
    t.insert("a".to_owned(), 2);
    t.insert("b".to_owned(), 3);
    assert_eq!(t.len(), 2);
    assert_eq!((t.key(0).as_str(), *t.value(0)), ("b", 3));
    assert_eq!((t.key(1).as_str(), *t.value(1)), ("a", 2));
    assert_eq!(t.get("b"), Some(&3));
    assert!(t.contains("a"));
    assert_eq!(t.remove("b"), Some(3));
    assert_eq!(t.remove("b"), None);
    assert_eq!(t.get("b"), None);
    assert_eq!(t.len(), 1);
    assert_eq!(t.key(0), "a");
}

#[test]
fn an_object_finds_its_members_and_the_last_one_counts() {
    let v = JsonObject::new()
        .with("a", Json::UInt(1))
        .with("b", Json::Int(-2))
        .with("a", Json::Bool(true))
        .build();
    assert_eq!(v.get("a"), Some(&Json::Bool(true)));
    assert_eq!(v.get("b"), Some(&Json::Int(-2)));
    assert_eq!(v.get("c"), None);
    assert_eq!(Json::Array(vec![]).get("a"), None);
}

#[test]
fn a_cloned_value_is_the_same_value() {
    let v = Json::Array(vec![
        Json::Null,
        Json::Float(4_611_686_018_427_387_904),
        JsonObject::new().with("k", Json::Str("s".to_owned())).build(),
    ]);
    assert_eq!(v.clone(), v);
}

fn context() -> Context {
    Context {
        execution_id: "e-1".to_owned(),
        node_id: "n-1".to_owned(),
        task_id: "t-1".to_owned(),
    }
}

fn payload(value: PayloadValue) -> Payload {
    Payload { type_: "reading".to_owned(), value }
}

fn echoed(value: PayloadValue) -> String {
    let out = echo_handle(&context(), payload(value));
    assert_eq!(out.type_, "echo");
    let PayloadValue::Binary(body) = out.value else {
        panic!("expected bytes");
    };
    String::from_utf8(body).unwrap()
}

#[test]
fn the_echo_actor_answers_with_bytes() {
    assert_eq!(
        echoed(PayloadValue::Json("{\"v\": 1}".to_owned())),
        "{\"echoed\": {\"v\": 1}, \"node\": \"n-1\"}"
    );
    assert_eq!(echoed(PayloadValue::Empty), "{\"echoed\": null, \"node\": \"n-1\"}");
    assert_eq!(
        echoed(PayloadValue::Binary(b"[1, 2]".to_vec())),
        "{\"echoed\": [1, 2], \"node\": \"n-1\"}"
    );
    // Bytes that are no text are replaced, not passed through.
    assert_eq!(
        echoed(PayloadValue::Binary(vec![b'a', 0xff])),
        "{\"echoed\": a\u{fffd}, \"node\": \"n-1\"}"
    );
}

#[test]
fn the_probe_actor_answers_with_json() {
    let answer = |value| {
        let out = probe_handle(&context(), &payload(value));
        assert_eq!(out.type_, "echo");
        out.value
    };
    let json = |s: &str| PayloadValue::Json(s.to_owned());
    assert_eq!(answer(json("7")), json("{\"echoed\": 7, \"node\": \"n-1\"}"));
    assert_eq!(
        answer(PayloadValue::Binary(vec![1])),
        json("{\"echoed\": \"binary\", \"node\": \"n-1\"}")
    );
    assert_eq!(answer(PayloadValue::Empty), json("{\"echoed\": null, \"node\": \"n-1\"}"));
    assert_eq!(probe_setup_log(&context()), "test-actor-component: setup node n-1");
    assert_eq!(probe_teardown_log(&context()), "test-actor-component: teardown node n-1");
    assert_eq!(
        probe_handle_log(&context(), &payload(PayloadValue::Empty)),
        "test-actor-component: handle node n-1 type reading"
    );
}

#[test]
fn the_probe_task_reports_its_host() {
    assert_eq!(task_log(&context()), "Executing task t-1 in node n-1 (execution: e-1)");
    assert_eq!(
        task_output("{\"a\": 1}", Some("{\"a\": 1}".to_owned()), Some("cfg".to_owned())),
        "{\"input\": {\"a\": 1}, \"stored_matches\": true, \"config_value\": \"cfg\"}"
    );
    assert_eq!(
        task_output("1", Some("2".to_owned()), None),
        "{\"input\": 1, \"stored_matches\": false, \"config_value\": null}"
    );
    assert_eq!(
        task_output("1", None, None),
        "{\"input\": 1, \"stored_matches\": false, \"config_value\": null}"
    );
}

// ---- Equality and copies --------------------------------------------------------

#[test]
fn objects_are_equal_whatever_the_order_of_their_members() {
    let ab = JsonObject::new().with("a", Json::UInt(1)).with("b", Json::Null).build();
    let ba = JsonObject::new().with("b", Json::Null).with("a", Json::UInt(1)).build();
    assert_eq!(ab, ba);
    // Of two members under one key only the last counts.
    let aab = JsonObject::new()
        .with("a", Json::UInt(9))
        .with("a", Json::UInt(1))
        .with("b", Json::Null)
        .build();
    assert_eq!(aab, ab);
    assert_eq!(ab, aab);
    let other = JsonObject::new().with("a", Json::UInt(2)).with("b", Json::Null).build();
    assert_ne!(ab, other);
    let fewer = JsonObject::new().with("a", Json::UInt(1)).build();
    assert_ne!(ab, fewer);
    assert_ne!(fewer, ab);
    // Nested, too.
    let nest = |inner: &Json| JsonObject::new().with("x", Json::Array(vec![inner.clone()])).build();
    assert_eq!(nest(&ab), nest(&ba));
    assert_ne!(nest(&ab), nest(&other));
}

#[test]
fn arrays_and_numbers_are_equal_by_value() {
    assert_eq!(Json::Array(vec![Json::Null]), Json::Array(vec![Json::Null]));
    assert_ne!(Json::Array(vec![Json::Null]), Json::Array(vec![]));
    assert_ne!(
        Json::Array(vec![Json::UInt(1), Json::UInt(2)]),
        Json::Array(vec![Json::UInt(2), Json::UInt(1)])
    );
    assert_eq!(Json::Int(5), Json::UInt(5));
    assert_eq!(Json::UInt(5), Json::Int(5));
    assert_ne!(Json::Int(-1), Json::UInt(u64::MAX));
    assert_eq!(Json::Float(0.0f64.to_bits()), Json::Float((-0.0f64).to_bits()));
    assert_ne!(Json::Float(0.5f64.to_bits()), Json::Float((-0.5f64).to_bits()));
    assert_ne!(Json::Float(1.0f64.to_bits()), Json::UInt(1));
    assert_ne!(Json::Null, Json::Bool(false));
}

#[test]
fn tables_are_equal_whatever_the_order_of_their_keys() {
    let table = |entries: &[(&str, u64)]| {
        let mut table = Table::new();
        for (key, value) in entries {
            table.insert(key.to_string(), *value);
        }
        table
    };
    assert_eq!(table(&[("a", 1), ("b", 2)]), table(&[("b", 2), ("a", 1)]));
    assert_ne!(table(&[("a", 1), ("b", 2)]), table(&[("a", 2), ("b", 1)]));
    assert_ne!(table(&[("a", 1)]), table(&[("a", 1), ("b", 2)]));
    assert_ne!(table(&[("a", 1), ("b", 2)]), table(&[("a", 1)]));
    // A copy keeps the order as well.
    let copy = table(&[("b", 2), ("a", 1)]).clone();
    assert_eq!(copy.key(0), "b");
    assert_eq!(copy.get("a"), Some(&1));
}
