//! The in-memory Persistence Port adapter.

use environments::error::ProvideError;
use environments::store::{MemStore, ProvideData};

#[test]
fn empty_store_lists_nothing() {
    let mut store = MemStore::new();
    let all = store.get_all_containers().expect("list-all succeeds");
    assert!(all.is_empty());
}

#[test]
fn created_record_carries_the_inputs() {
    let mut store = MemStore::new();
    let e = store
        .create_container("cid-1", "n1", "img:tag")
        .expect("create succeeds");
    assert_eq!(e.id, "cid-1");
    assert_eq!(e.name, "n1");
    assert_eq!(e.image, "img:tag");
    assert_eq!(e.created_at, e.updated_at);
}

#[test]
fn records_list_in_creation_order() {
    let mut store = MemStore::new();
    store.create_container("a", "first", "img").expect("create");
    store.create_container("b", "second", "img").expect("create");
    store.create_container("c", "third", "img").expect("create");
    let all = store.get_all_containers().expect("list-all");
    assert_eq!(all.len(), 3);
    assert_eq!(all[0].name, "first");
    assert_eq!(all[1].name, "second");
    assert_eq!(all[2].name, "third");
    assert!(all[0].created_at <= all[1].created_at);
    assert!(all[1].created_at <= all[2].created_at);
}

#[test]
fn duplicate_name_is_a_unique_violation() {
    let mut store = MemStore::new();
    store.create_container("a", "n1", "img").expect("first create");
    let r = store.create_container("b", "n1", "other");
    assert!(matches!(r, Err(ProvideError::UniqueViolation { .. })));
    let all = store.get_all_containers().expect("list-all");
    assert_eq!(all.len(), 1);
}

#[test]
fn duplicate_id_is_a_unique_violation() {
    let mut store = MemStore::new();
    store.create_container("a", "n1", "img").expect("first create");
    let r = store.create_container("a", "n2", "img");
    assert!(matches!(r, Err(ProvideError::UniqueViolation { .. })));
}

#[test]
fn find_by_name_returns_the_record_or_nothing() {
    let mut store = MemStore::new();
    store.create_container("a", "n1", "img").expect("create");
    let found = store.get_container_by_name("n1").expect("find");
    let e = found.expect("record exists");
    assert_eq!(e.id, "a");
    assert_eq!(e.image, "img");
    let missing = store.get_container_by_name("n2").expect("find");
    assert!(missing.is_none());
}

#[test]
fn delete_by_name_hands_the_record_back_and_frees_the_name() {
    let mut store = MemStore::new();
    store.create_container("a", "n1", "img").expect("create");
    let deleted = store.delete_container_by_name("n1").expect("delete");
    assert_eq!(deleted.expect("was present").id, "a");
    let again = store.delete_container_by_name("n1").expect("delete");
    assert!(again.is_none());
    // the name is free again
    let e = store.create_container("b", "n1", "img").expect("re-create");
    assert_eq!(e.id, "b");
}

#[test]
fn fault_makes_operations_fail_unhandled() {
    let mut store = MemStore::new();
    store.set_fault(String::from("backend down"));
    let r = store.create_container("a", "n1", "img");
    match r {
        Err(ProvideError::UnHandledError { description }) => {
            assert_eq!(description, "backend down");
        }
        other => panic!("expected UnHandledError, got {:?}", other),
    }
    assert!(store.get_all_containers().is_err());
    store.clear_fault();
    assert!(store.create_container("a", "n1", "img").is_ok());
}

#[test]
fn collision_outranks_fault() {
    let mut store = MemStore::new();
    store.create_container("a", "n1", "img").expect("create");
    store.set_fault(String::from("backend down"));
    let r = store.create_container("b", "n1", "img");
    assert!(matches!(r, Err(ProvideError::UniqueViolation { .. })));
}
