//! Correlation ids: minting, adopting, sharing and scoping.

use fuchsia::correlation::{CorrelationId, CorrelationIds, CorrelationScope};
use std::sync::Arc;

#[test]
fn new_ids_are_distinct() {
    let mut ids = CorrelationIds::new();
    assert_ne!(CorrelationId::new(&mut ids), CorrelationId::new(&mut ids));
}

#[test]
fn minted_ids_count_up() {
    let mut ids = CorrelationIds::new();
    let minted: Vec<String> = (0..12).map(|_| CorrelationId::new(&mut ids).to_string()).collect();
    assert_eq!(minted[0], "cid-1");
    assert_eq!(minted[1], "cid-2");
    assert_eq!(minted[9], "cid-10");
    assert_eq!(minted[11], "cid-12");
}

#[test]
fn adopts_an_external_id_and_displays_it() {
    let id = CorrelationId::from("req-42");
    assert_eq!(id.as_str(), "req-42");
    assert_eq!(id.to_string(), "req-42");
}

#[test]
fn adopts_owned_and_shared_text() {
    assert_eq!(CorrelationId::from("run-1".to_owned()).as_str(), "run-1");
    let shared: Arc<str> = Arc::from("run-2");
    let id = CorrelationId::from(shared.clone());
    assert_eq!(id.as_str(), "run-2");
    assert!(Arc::ptr_eq(&shared, &id.as_arc()));
}

#[test]
fn clone_is_equal() {
    let id = CorrelationId::from("run-1");
    assert_eq!(id.clone(), id);
}

#[test]
fn different_ids_are_not_equal() {
    assert!(CorrelationId::from("run-1") != CorrelationId::from("run-2"));
}

#[test]
fn as_arc_shares_the_inner_id() {
    let id = CorrelationId::from("run-9");
    let arc = id.as_arc();
    assert_eq!(&*arc, "run-9");
    // Same allocation, shared: handing it out copies nothing.
    assert!(Arc::ptr_eq(&arc, &id.as_arc()));
}

#[test]
fn current_is_none_outside_a_scope() {
    assert!(CorrelationId::current(&CorrelationScope::none()).is_none());
}

#[test]
fn scope_sets_the_current_correlation() {
    let id = CorrelationId::from("run-7");
    let scope = id.clone().scope();
    let seen = CorrelationId::current(&scope);
    assert_eq!(seen, Some(id));
    // Leaves no current correlation once the scope ends.
    drop(scope);
    assert!(CorrelationId::current(&CorrelationScope::none()).is_none());
}
