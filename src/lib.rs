//! Requestor side of a remote proving worker: negotiation with a compute
//! market, a resilient task-queue client, file transfers to the rented node,
//! remote execution and the work loop that ties them together.
//!
//! The items here decide; they do not perform. The network, the market and
//! the file system are driven by the caller, which hands the outcomes back
//! in. The one outside call is URL parsing, through the `url` crate.

pub mod text;
pub mod backoff;
pub mod execution;
pub mod transfer;
pub mod task_queue;
pub mod negotiation;
pub mod orchestrator;
pub mod adapter;
pub mod demand;
