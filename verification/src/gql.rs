//! The query boundary: the operations the surrounding transport layer
//! invokes.  The schema and transport themselves are external collaborators;
//! this module is the boundary the core satisfies, with the same contracts
//! as the workflows it forwards to.

use vstd::prelude::*;

use crate::engine::ProvideEngine;
use crate::error::Error;
use crate::model::{ContainerRequestBody, MultiContainersResponseBody, SingleContainerResponseBody};
use crate::store::ProvideData;
use crate::workflow;

verus! {

/// The root of the read operations.
pub struct Query;

impl Query {
    /// Returns the reconciled list of containers and their count, by the
    /// list workflow.
    pub fn containers<E: ProvideEngine, P: ProvideData>(&self, engine: &E, store: &mut P) -> (r:
        Result<MultiContainersResponseBody, Error>)
        requires
            engine.wf(),
            old(store).wf(),
        ensures
            final(store).wf(),
            final(store).records() == old(store).records(),
            workflow::list_post(*engine, *old(store), r),
    {
        workflow::list_containers(engine, store)
    }
}

/// The root of the write operations.
pub struct Mutation;

impl Mutation {
    /// Provisions a container for the request, by the create workflow.
    pub fn create_container<E: ProvideEngine, P: ProvideData>(
        &self,
        container: ContainerRequestBody,
        engine: &mut E,
        store: &mut P,
    ) -> (r: Result<SingleContainerResponseBody, Error>)
        requires
            old(engine).wf(),
            old(store).wf(),
        ensures
            final(engine).wf(),
            final(store).wf(),
            workflow::create_post(
                *old(engine),
                *final(engine),
                *old(store),
                *final(store),
                container@,
                r,
            ),
    {
        workflow::create_container(engine, store, container)
    }
}

} // verus!
