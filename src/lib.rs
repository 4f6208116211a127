//! Rolls services of a container swarm onto a new image tag: the service model, the
//! selection of services for an update request, the rewriting of image references and
//! specs, and the planning and collecting of the per-service update calls.

pub mod config;
pub mod docker;
pub mod image;
pub mod labels;
pub mod laws;
pub mod text;
pub mod types;
pub mod update;
