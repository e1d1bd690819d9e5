//! Safety and lifecycle logic for an in-place upgrade of a storage platform
//! running on a Kubernetes cluster.
//!
//! The crate decides whether an upgrade may proceed (version policy and
//! preflight checks over cluster state), derives the deterministic names and
//! contents of the cluster objects that carry the upgrade out, and drives the
//! bounded event-polling protocol that observes the remote upgrade job and
//! rolls the objects back when the job reports a validation failure.

pub mod bundle;
pub mod cli;
pub mod constants;
pub mod controller;
pub mod crd;
pub mod image;
pub mod policy;
pub mod preflight;
pub mod release;
pub mod resources;
pub mod text;
pub mod version;
