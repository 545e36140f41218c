//! A proof-job service: jobs are submitted, queued, executed by a pool of
//! workers on a mock or a prover backend, and polled until they finish.
//!
//! - [`service`] holds the service: submission, lookup, and what workers
//!   do to the queue and to the status store.
//! - [`worker`] is one worker of the pool as a state machine.
//! - [`store`] and [`queue`] are the status store and the work queue.
//! - [`backend`] is the mock backend and the decisions around a run of the
//!   prover executable.
//! - [`model`] is the service as a state machine over mathematical values,
//!   and [`laws`] is what holds of it over every sequence of events.
//! - [`status`], [`types`] and [`errors`] are the lifecycle, the records
//!   and the failures.
//! - [`json`] and [`ident`] are what the service takes from `serde_json`,
//!   `uuid` and `chrono`.
//! - [`payment`] and [`api`] are the decisions of the request layer.

pub mod api;
pub mod backend;
pub mod errors;
pub mod ident;
pub mod json;
pub mod laws;
pub mod model;
pub mod payment;
pub mod queue;
pub mod service;
pub mod status;
pub mod store;
pub mod types;
pub mod worker;
