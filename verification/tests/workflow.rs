//! The create and list workflows against the in-memory ports.

use environments::engine::{MemEngine, ProvideEngine};
use environments::error::{Error, ProvideError, WorkflowStep};
use environments::model::ContainerRequestBody;
use environments::store::{MemStore, ProvideData};
use environments::workflow::{create_container, list_containers};

fn engine_with_ids(mut ids: Vec<&str>) -> MemEngine {
    // the pool assigns its last entry first
    ids.reverse();
    MemEngine::new(ids.into_iter().map(String::from).collect())
}

fn request(name: &str, image: &str) -> ContainerRequestBody {
    ContainerRequestBody { name: String::from(name), image: String::from(image) }
}

#[test]
fn create_returns_the_persisted_container() {
    let mut engine = engine_with_ids(vec!["cid-1"]);
    let mut store = MemStore::new();
    let resp = create_container(&mut engine, &mut store, request("n1", "img:tag"))
        .expect("create succeeds");
    let c = resp.container.expect("response carries the container");
    assert_eq!(c.id, "cid-1");
    assert_eq!(c.name, "n1");
    assert_eq!(c.image, "img:tag");
    assert_eq!(c.created_at, c.updated_at);
    assert!(engine.has_image("img:tag"));
    assert_eq!(engine.live_len(), 1);
}

#[test]
fn second_create_of_a_name_yields_unique_violation() {
    let mut engine = engine_with_ids(vec!["cid-1", "cid-2"]);
    let mut store = MemStore::new();
    create_container(&mut engine, &mut store, request("n1", "img:tag"))
        .expect("first create succeeds");
    let r = create_container(&mut engine, &mut store, request("n1", "img:tag"));
    match r {
        Err(Error::StoreError { step, source }) => {
            assert_eq!(step, WorkflowStep::Persisting);
            assert!(matches!(source, ProvideError::UniqueViolation { .. }));
        }
        other => panic!("expected a store error, got {:?}", other),
    }
    // the second attempt persisted nothing
    let all = store.get_all_containers().expect("list-all");
    assert_eq!(all.len(), 1);
}

#[test]
fn create_then_find_by_name_round_trips() {
    let mut engine = engine_with_ids(vec!["cid-1"]);
    let mut store = MemStore::new();
    let resp = create_container(&mut engine, &mut store, request("n1", "img:tag"))
        .expect("create succeeds");
    let created = resp.container.expect("container");
    let found = store
        .get_container_by_name("n1")
        .expect("find succeeds")
        .expect("record exists");
    assert_eq!(found.id, created.id);
    assert_eq!(found.name, "n1");
    assert_eq!(found.image, "img:tag");
}

#[test]
fn list_filters_live_containers_by_persisted_ids() {
    let mut engine = engine_with_ids(vec!["cid-a", "cid-b"]);
    let mut store = MemStore::new();
    // two containers live in the engine, but only one of them is persisted,
    // and one persisted id is not live
    create_container(&mut engine, &mut store, request("kept", "img:kept"))
        .expect("create kept");
    engine
        .create_container("loose", "img:loose")
        .expect("engine-only container");
    store
        .create_container("cid-gone", "gone", "img:gone")
        .expect("persist a record the engine does not know");
    let resp = list_containers(&engine, &mut store).expect("list succeeds");
    assert_eq!(resp.containers_count, 1);
    assert_eq!(resp.containers.len(), 1);
    let c = &resp.containers[0];
    assert_eq!(c.id, "cid-a");
    assert_eq!(c.image, "img:kept");
    // the merge rule: placeholder name, engine-reported time for both stamps
    assert_eq!(c.name, "NA");
    assert_eq!(c.created_at, c.updated_at);
}

#[test]
fn list_on_empty_store_is_empty_with_count_zero() {
    let mut engine = engine_with_ids(vec!["cid-a"]);
    let mut store = MemStore::new();
    engine
        .create_container("loose", "img")
        .expect("a live container the store does not know");
    let resp = list_containers(&engine, &mut store).expect("list succeeds");
    assert_eq!(resp.containers_count, 0);
    assert!(resp.containers.is_empty());
}

#[test]
fn persistence_failure_leaves_the_engine_orphan() {
    let mut engine = engine_with_ids(vec!["cid-1"]);
    let mut store = MemStore::new();
    store.set_fault(String::from("store down"));
    let r = create_container(&mut engine, &mut store, request("n1", "img:tag"));
    match r {
        Err(Error::StoreError { step, source }) => {
            assert_eq!(step, WorkflowStep::Persisting);
            assert!(matches!(source, ProvideError::UnHandledError { .. }));
        }
        other => panic!("expected a store error, got {:?}", other),
    }
    // the engine-side container exists despite the failure: expected, not a
    // defect
    assert_eq!(engine.live_len(), 1);
    let live = engine
        .list_containers(&vec![String::from("cid-1")])
        .expect("engine list");
    assert_eq!(live.len(), 1);
    assert_eq!(live[0].id, "cid-1");
    // but nothing was persisted
    store.clear_fault();
    let all = store.get_all_containers().expect("list-all");
    assert!(all.is_empty());
}

#[test]
fn pull_failure_short_circuits_before_any_state_change() {
    let mut engine = engine_with_ids(vec!["cid-1"]);
    let mut store = MemStore::new();
    engine.set_fail_pull(String::from("no such image"));
    let r = create_container(&mut engine, &mut store, request("n1", "img:tag"));
    match r {
        Err(Error::EngineError { step, msg }) => {
            assert_eq!(step, WorkflowStep::PullingImage);
            assert_eq!(msg, "no such image");
        }
        other => panic!("expected an engine error, got {:?}", other),
    }
    // nothing created anywhere, and nothing reached the persistence port
    assert_eq!(engine.live_len(), 0);
    assert!(!engine.has_image("img:tag"));
    let all = store.get_all_containers().expect("list-all");
    assert!(all.is_empty());
}

#[test]
fn creation_failure_stops_before_any_store_write() {
    let mut engine = engine_with_ids(vec!["cid-1"]);
    let mut store = MemStore::new();
    engine.set_fail_create(String::from("invalid image"));
    let r = create_container(&mut engine, &mut store, request("n1", "img:tag"));
    match r {
        Err(Error::EngineError { step, .. }) => assert_eq!(step, WorkflowStep::CreatingContainer),
        other => panic!("expected an engine error, got {:?}", other),
    }
    assert!(engine.has_image("img:tag"));
    assert_eq!(engine.live_len(), 0);
    assert!(store.get_all_containers().expect("list-all").is_empty());
}

#[test]
fn start_failure_leaves_a_stopped_orphan() {
    let mut engine = engine_with_ids(vec!["cid-1"]);
    let mut store = MemStore::new();
    engine.set_fail_start(String::from("start rejected"));
    let r = create_container(&mut engine, &mut store, request("n1", "img:tag"));
    match r {
        Err(Error::EngineError { step, .. }) => assert_eq!(step, WorkflowStep::Starting),
        other => panic!("expected an engine error, got {:?}", other),
    }
    assert_eq!(engine.live_len(), 1);
    assert!(store.get_all_containers().expect("list-all").is_empty());
}

#[test]
fn store_failure_is_terminal_for_the_list_workflow() {
    let engine = engine_with_ids(vec![]);
    let mut store = MemStore::new();
    store.set_fault(String::from("store down"));
    let r = list_containers(&engine, &mut store);
    match r {
        Err(Error::StoreError { step, .. }) => assert_eq!(step, WorkflowStep::ListingRecords),
        other => panic!("expected a store error, got {:?}", other),
    }
}

#[test]
fn engine_failure_fails_the_whole_list() {
    let mut engine = engine_with_ids(vec!["cid-1"]);
    let mut store = MemStore::new();
    create_container(&mut engine, &mut store, request("n1", "img"))
        .expect("create succeeds");
    engine.set_fail_list(String::from("engine down"));
    let r = list_containers(&engine, &mut store);
    match r {
        Err(Error::EngineError { step, msg }) => {
            assert_eq!(step, WorkflowStep::ListingContainers);
            assert_eq!(msg, "engine down");
        }
        other => panic!("expected an engine error, got {:?}", other),
    }
}

#[test]
fn exhausted_identity_pool_is_an_engine_creation_failure() {
    let mut engine = engine_with_ids(vec![]);
    let mut store = MemStore::new();
    let r = create_container(&mut engine, &mut store, request("n1", "img"));
    match r {
        Err(Error::EngineError { step, .. }) => assert_eq!(step, WorkflowStep::CreatingContainer),
        other => panic!("expected an engine error, got {:?}", other),
    }
}
