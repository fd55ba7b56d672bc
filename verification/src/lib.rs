//! Provisioning and tracking of containers.
//!
//! The crate drives a container-runtime engine through image pull, container
//! creation and start, records the resulting identity in a transactional
//! store, and answers queries that reconcile the persisted record set against
//! the engine's live state.  The two external systems stand behind the port
//! traits [`engine::ProvideEngine`] and [`store::ProvideData`]; the workflows
//! in [`workflow`] are verified against the port contracts alone, so they hold
//! for every adapter that honours them.  In-memory adapters for both ports
//! live here and are verified; adapters over a real runtime and a real
//! database belong to the surrounding application.

pub mod auth;
pub mod client;
pub mod engine;
pub mod error;
pub mod gql;
pub mod model;
pub mod store;
pub mod workflow;
