//! The data model: the persisted container record, the ephemeral engine-side
//! view of a live container, the reconciled container returned to callers,
//! and the request and response bodies of the query boundary.
//!
//! Timestamps are held as seconds since the Unix epoch, UTC.

use vstd::prelude::*;
use vstd::string::StringExecFns;

verus! {

/// Mathematical image of a persisted container record.
pub ghost struct ContainerEntityV {
    pub id: Seq<char>,
    pub name: Seq<char>,
    pub image: Seq<char>,
    pub created_at: int,
    pub updated_at: int,
}

/// A persisted container record: the engine-assigned identity, the name
/// (unique among records), the image reference, and the creation and update
/// timestamps.
#[derive(Debug)]
pub struct ContainerEntity {
    pub id: String,
    pub name: String,
    pub image: String,
    pub created_at: i64,
    pub updated_at: i64,
}

impl View for ContainerEntity {
    type V = ContainerEntityV;

    open spec fn view(&self) -> ContainerEntityV {
        ContainerEntityV {
            id: self.id@,
            name: self.name@,
            image: self.image@,
            created_at: self.created_at as int,
            updated_at: self.updated_at as int,
        }
    }
}

impl Clone for ContainerEntity {
    fn clone(&self) -> (r: Self)
        ensures
            r == *self,
    {
        ContainerEntity {
            id: self.id.clone(),
            name: self.name.clone(),
            image: self.image.clone(),
            created_at: self.created_at,
            updated_at: self.updated_at,
        }
    }
}

/// Mathematical image of an engine-side container view.
pub ghost struct EngineContainerViewV {
    pub id: Seq<char>,
    pub image: Seq<char>,
    pub created: int,
}

/// What the engine reports of one live container: its identity, its image and
/// the engine-reported creation time.  Produced fresh on every engine query;
/// never persisted.
#[derive(Debug)]
pub struct EngineContainerView {
    pub id: String,
    pub image: String,
    pub created: i64,
}

impl View for EngineContainerView {
    type V = EngineContainerViewV;

    open spec fn view(&self) -> EngineContainerViewV {
        EngineContainerViewV { id: self.id@, image: self.image@, created: self.created as int }
    }
}

impl EngineContainerView {
    /// Reading of an engine reply whose fields may each be missing: a missing
    /// id or image reads as the placeholder `"NA"`, a missing creation time
    /// reads as zero.
    pub fn from_summary(id: Option<String>, image: Option<String>, created: Option<i64>) -> (r: Self)
        ensures
            r@.id == (if id is Some { id->Some_0@ } else { "NA"@ }),
            r@.image == (if image is Some { image->Some_0@ } else { "NA"@ }),
            r@.created == (if created is Some { created->Some_0 as int } else { 0int }),
    {
        let id = match id {
            Some(s) => s,
            None => String::from_str("NA"),
        };
        let image = match image {
            Some(s) => s,
            None => String::from_str("NA"),
        };
        let created = match created {
            Some(t) => t,
            None => 0,
        };
        EngineContainerView { id, image, created }
    }
}

/// Mathematical image of a reconciled container.
pub ghost struct ContainerV {
    pub id: Seq<char>,
    pub name: Seq<char>,
    pub image: Seq<char>,
    pub created_at: int,
    pub updated_at: int,
}

/// A reconciled container: the value returned to callers, built either
/// directly from a persisted record or by merging a record's identity with a
/// live engine view.
#[derive(Debug)]
pub struct Container {
    pub id: String,
    pub name: String,
    pub image: String,
    pub created_at: i64,
    pub updated_at: i64,
}

impl View for Container {
    type V = ContainerV;

    open spec fn view(&self) -> ContainerV {
        ContainerV {
            id: self.id@,
            name: self.name@,
            image: self.image@,
            created_at: self.created_at as int,
            updated_at: self.updated_at as int,
        }
    }
}

impl From<ContainerEntity> for Container {
    /// A container built directly from a persisted record copies every field.
    fn from(entity: ContainerEntity) -> (r: Container) {
        let ContainerEntity { id, name, image, created_at, updated_at } = entity;
        Container { id, name, image, created_at, updated_at }
    }
}

impl vstd::std_specs::convert::FromSpecImpl<ContainerEntity> for Container {
    open spec fn obeys_from_spec() -> bool {
        true
    }

    open spec fn from_spec(entity: ContainerEntity) -> Container {
        Container {
            id: entity.id,
            name: entity.name,
            image: entity.image,
            created_at: entity.created_at,
            updated_at: entity.updated_at,
        }
    }
}

impl Container {
    /// The merge rule of the reconciling list: identity and image from the
    /// engine view, the engine-reported creation time for both timestamps,
    /// and the placeholder `"NA"` for the name (the persisted name is not
    /// consulted; a deliberate policy of the list workflow).
    pub fn from_engine_view(v: &EngineContainerView) -> (r: Container)
        ensures
            r@ == (ContainerV {
                id: v@.id,
                name: "NA"@,
                image: v@.image,
                created_at: v@.created,
                updated_at: v@.created,
            }),
    {
        Container {
            id: v.id.clone(),
            name: String::from_str("NA"),
            image: v.image.clone(),
            created_at: v.created,
            updated_at: v.created,
        }
    }
}

/// The query body for creating a new container.
#[derive(Debug)]
pub struct ContainerRequestBody {
    pub name: String,
    pub image: String,
}

/// Mathematical image of a create request.
pub ghost struct ContainerRequestBodyV {
    pub name: Seq<char>,
    pub image: Seq<char>,
}

impl View for ContainerRequestBody {
    type V = ContainerRequestBodyV;

    open spec fn view(&self) -> ContainerRequestBodyV {
        ContainerRequestBodyV { name: self.name@, image: self.image@ }
    }
}

/// The response body for a single container.  It is optional, since a lookup
/// may match no record.
#[derive(Debug)]
pub struct SingleContainerResponseBody {
    pub container: Option<Container>,
}

/// Mathematical image of a single-container response.
pub ghost struct SingleContainerResponseBodyV {
    pub container: Option<ContainerV>,
}

impl View for SingleContainerResponseBody {
    type V = SingleContainerResponseBodyV;

    open spec fn view(&self) -> SingleContainerResponseBodyV {
        SingleContainerResponseBodyV {
            container: match self.container {
                Some(c) => Some(c@),
                None => None,
            },
        }
    }
}

impl From<Container> for SingleContainerResponseBody {
    /// The response for one found container wraps it.
    fn from(container: Container) -> (r: SingleContainerResponseBody) {
        SingleContainerResponseBody { container: Some(container) }
    }
}

impl vstd::std_specs::convert::FromSpecImpl<Container> for SingleContainerResponseBody {
    open spec fn obeys_from_spec() -> bool {
        true
    }

    open spec fn from_spec(container: Container) -> SingleContainerResponseBody {
        SingleContainerResponseBody { container: Some(container) }
    }
}

/// The response body for multiple containers: the reconciled containers and
/// their count.
#[derive(Debug)]
pub struct MultiContainersResponseBody {
    pub containers: Vec<Container>,
    pub containers_count: i32,
}

/// Mathematical image of a multi-container response.
pub ghost struct MultiContainersResponseBodyV {
    pub containers: Seq<ContainerV>,
    pub containers_count: int,
}

impl View for MultiContainersResponseBody {
    type V = MultiContainersResponseBodyV;

    open spec fn view(&self) -> MultiContainersResponseBodyV {
        MultiContainersResponseBodyV {
            containers: self.containers@.map_values(|c: Container| c@),
            containers_count: self.containers_count as int,
        }
    }
}

impl MultiContainersResponseBody {
    /// Bundle reconciled containers with their count.  The count travels as a
    /// 32-bit integer, so the caller must hold the length within it; the list
    /// workflow aborts rather than build an oversized response.
    pub fn from_containers(containers: Vec<Container>) -> (r: Self)
        requires
            containers@.len() <= i32::MAX,
        ensures
            r@.containers == containers@.map_values(|c: Container| c@),
            r@.containers_count == containers@.len(),
    {
        let containers_count: i32 = containers.len() as i32;
        MultiContainersResponseBody { containers, containers_count }
    }
}

} // verus!
