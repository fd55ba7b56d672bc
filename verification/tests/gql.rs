//! The query boundary, the client helpers and the claims value.

use environments::auth::PrivateClaims;
use environments::client::{get_graphql_str_list_containers, interpret_list_reply, ClientError};
use environments::engine::MemEngine;
use environments::gql::{Mutation, Query};
use environments::model::{ContainerRequestBody, MultiContainersResponseBody};
use environments::store::MemStore;

#[test]
fn mutation_then_query_reconciles_the_container() {
    let mut engine = MemEngine::new(vec![String::from("cid-9")]);
    let mut store = MemStore::new();
    let req = ContainerRequestBody { name: String::from("n1"), image: String::from("img:tag") };
    let resp = Mutation
        .create_container(req, &mut engine, &mut store)
        .expect("create succeeds");
    let created = resp.container.expect("container");
    assert_eq!(created.id, "cid-9");

    let listed = Query.containers(&engine, &mut store).expect("list succeeds");
    assert_eq!(listed.containers_count, 1);
    assert_eq!(listed.containers[0].id, "cid-9");
    assert_eq!(listed.containers[0].image, "img:tag");
}

#[test]
fn query_on_empty_state_is_empty() {
    let engine = MemEngine::new(Vec::new());
    let mut store = MemStore::new();
    let listed = Query.containers(&engine, &mut store).expect("list succeeds");
    assert_eq!(listed.containers_count, 0);
    assert!(listed.containers.is_empty());
}

#[test]
fn list_containers_query_text() {
    assert_eq!(
        get_graphql_str_list_containers(),
        "{ \"query\": \"{ containers { containers { name }, containersCount } }\" }"
    );
}

#[test]
fn reply_with_data_yields_its_containers() {
    let body = MultiContainersResponseBody { containers: Vec::new(), containers_count: 0 };
    let r = interpret_list_reply(false, None, Some(body)).expect("data present");
    assert_eq!(r.containers_count, 0);
}

#[test]
fn reply_with_null_data_reports_the_internal_error() {
    let r = interpret_list_reply(true, Some(String::from("boom")), None);
    match r {
        Err(ClientError::ErrorReply { internal_error }) => assert_eq!(internal_error, "boom"),
        other => panic!("expected an error reply, got {:?}", other.map(|_| ())),
    }
}

#[test]
fn reply_with_null_data_and_no_errors_is_a_failure() {
    let r = interpret_list_reply(true, None, None);
    assert!(matches!(r, Err(ClientError::NullDataWithoutErrors)));
}

#[test]
fn reply_without_containers_is_a_failure() {
    let r = interpret_list_reply(false, None, None);
    assert!(matches!(r, Err(ClientError::MissingContainers)));
}

#[test]
fn roles_hands_back_an_equal_copy() {
    let claims = PrivateClaims { roles: vec![String::from("admin"), String::from("user")] };
    let roles = claims.roles();
    assert_eq!(roles, vec![String::from("admin"), String::from("user")]);
    assert_eq!(claims.roles, roles);
}
