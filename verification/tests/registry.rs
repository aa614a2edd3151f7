//! The address book of running actors.

use fuchsia::actor::ActorId;
use fuchsia::delivery::{Health, SharedHealth};
use fuchsia::mailbox::mailbox;
use fuchsia::registry::{ActorHandle, ActorRegistry};
use std::sync::atomic::{AtomicBool, Ordering};
use std::sync::{Arc, Mutex};

fn health() -> SharedHealth {
    Arc::new(Mutex::new(Health::default()))
}

fn echo_handle(id: &str) -> ActorHandle {
    let (tx, _rx) = mailbox(1);
    ActorHandle::new(ActorId::new(id), "echo", tx, health())
}

#[test]
fn insert_and_get() {
    let mut registry = ActorRegistry::new();
    registry.insert(echo_handle("van-gps-01"));
    let handle = registry.get(&ActorId::new("van-gps-01")).unwrap();
    assert_eq!(handle.actor_type(), "echo");
}

#[test]
fn get_missing_returns_none() {
    let registry = ActorRegistry::new();
    assert!(registry.get(&ActorId::new("missing")).is_none());
}

#[test]
fn remove_returns_handle() {
    let mut registry = ActorRegistry::new();
    registry.insert(echo_handle("van-gps-01"));
    let removed = registry.remove(&ActorId::new("van-gps-01")).unwrap();
    assert_eq!(removed.id(), &ActorId::new("van-gps-01"));
    assert!(!registry.contains(&ActorId::new("van-gps-01")));
}

#[test]
fn remove_missing_returns_none() {
    let mut registry = ActorRegistry::new();
    assert!(registry.remove(&ActorId::new("missing")).is_none());
}

#[test]
fn contains_reflects_insertion() {
    let mut registry = ActorRegistry::new();
    assert!(!registry.contains(&ActorId::new("van-gps-01")));
    registry.insert(echo_handle("van-gps-01"));
    assert!(registry.contains(&ActorId::new("van-gps-01")));
}

#[test]
fn insert_overwrites_existing() {
    let mut registry = ActorRegistry::new();
    registry.insert(echo_handle("van-gps-01"));
    let (tx, _rx) = mailbox(1);
    registry.insert(ActorHandle::new(ActorId::new("van-gps-01"), "gps", tx, health()));
    let handle = registry.get(&ActorId::new("van-gps-01")).unwrap();
    assert_eq!(handle.actor_type(), "gps");
}

#[test]
fn multiple_instances_of_same_type() {
    let mut registry = ActorRegistry::new();
    registry.insert(echo_handle("instance-1"));
    registry.insert(echo_handle("instance-2"));
    assert!(registry.contains(&ActorId::new("instance-1")));
    assert!(registry.contains(&ActorId::new("instance-2")));
}

#[test]
fn removing_one_leaves_the_others() {
    let mut registry = ActorRegistry::default();
    for id in ["a", "b", "c"] {
        registry.insert(echo_handle(id));
    }
    registry.remove(&ActorId::new("b"));
    assert!(registry.contains(&ActorId::new("a")));
    assert!(!registry.contains(&ActorId::new("b")));
    assert!(registry.contains(&ActorId::new("c")));
}

#[test]
fn a_stop_flag_starts_unset_and_is_shared() {
    let handle = echo_handle("a");
    let flag = handle.stopping();
    assert!(!flag.load(Ordering::SeqCst));
    handle.mark_stopping();
    assert!(flag.load(Ordering::SeqCst));
}

#[test]
fn a_handle_can_share_an_existing_flag_and_counters() {
    let (tx, _rx) = mailbox(1);
    let flag = Arc::new(AtomicBool::new(false));
    let counters = health();
    let handle = ActorHandle::new_sharing(
        ActorId::new("a"),
        "echo",
        tx,
        counters.clone(),
        flag.clone(),
    );
    assert!(Arc::ptr_eq(&handle.stopping(), &flag));
    assert!(Arc::ptr_eq(handle.health(), &counters));
    assert_eq!(handle.mailbox().sender.max_capacity(), 1);
}
