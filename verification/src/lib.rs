//! Idempotent provisioning of a declarative SNS/SQS topology.
//!
//! The crate holds the decision logic of the reconciler: environment
//! resolution, physical naming, queue-policy generation, the per-resource
//! provisioning protocols, and the aggregation of leaf outcomes. The
//! network calls themselves are performed by the surrounding binary, which
//! feeds every reply back into the verified protocol functions.

pub mod engine;
pub mod env;
pub mod names;
pub mod policy;
pub mod queue;
pub mod subscription;
pub mod topic;
mod text;
pub mod types;
