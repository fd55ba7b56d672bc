//! The data model conversions.

use environments::model::{
    Container, ContainerEntity, EngineContainerView, MultiContainersResponseBody,
    SingleContainerResponseBody,
};

#[test]
fn engine_summary_fields_default_to_placeholders() {
    let v = EngineContainerView::from_summary(None, None, None);
    assert_eq!(v.id, "NA");
    assert_eq!(v.image, "NA");
    assert_eq!(v.created, 0);

    let v = EngineContainerView::from_summary(
        Some(String::from("cid")),
        Some(String::from("img")),
        Some(42),
    );
    assert_eq!(v.id, "cid");
    assert_eq!(v.image, "img");
    assert_eq!(v.created, 42);
}

#[test]
fn container_from_entity_copies_every_field() {
    let entity = ContainerEntity {
        id: String::from("cid"),
        name: String::from("n1"),
        image: String::from("img"),
        created_at: 7,
        updated_at: 9,
    };
    let c = Container::from(entity);
    assert_eq!(c.id, "cid");
    assert_eq!(c.name, "n1");
    assert_eq!(c.image, "img");
    assert_eq!(c.created_at, 7);
    assert_eq!(c.updated_at, 9);
}

#[test]
fn container_from_engine_view_applies_the_merge_rule() {
    let v = EngineContainerView {
        id: String::from("cid"),
        image: String::from("img"),
        created: 33,
    };
    let c = Container::from_engine_view(&v);
    assert_eq!(c.id, "cid");
    assert_eq!(c.name, "NA");
    assert_eq!(c.image, "img");
    assert_eq!(c.created_at, 33);
    assert_eq!(c.updated_at, 33);
}

#[test]
fn single_response_wraps_the_container() {
    let c = Container {
        id: String::from("cid"),
        name: String::from("n1"),
        image: String::from("img"),
        created_at: 1,
        updated_at: 1,
    };
    let body = SingleContainerResponseBody::from(c);
    assert_eq!(body.container.expect("present").id, "cid");
}

#[test]
fn multi_response_counts_its_containers() {
    let cs = vec![
        Container {
            id: String::from("a"),
            name: String::from("n1"),
            image: String::from("img"),
            created_at: 1,
            updated_at: 1,
        },
        Container {
            id: String::from("b"),
            name: String::from("n2"),
            image: String::from("img"),
            created_at: 2,
            updated_at: 2,
        },
    ];
    let body = MultiContainersResponseBody::from_containers(cs);
    assert_eq!(body.containers_count, 2);
    assert_eq!(body.containers.len(), 2);
    assert_eq!(body.containers[0].id, "a");
    assert_eq!(body.containers[1].id, "b");
}
