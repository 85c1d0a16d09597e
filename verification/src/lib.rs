//! Proof-job orchestration for a rollup validity-proof service: job
//! identifiers, the in-memory job store, aggregation composition and the
//! decisions each request handler takes between pieces of outside work.

pub mod api;
pub mod boot;
pub mod build_plan;
pub mod compose;
pub mod dispatch;
pub mod error;
pub mod hex;
pub mod job_id;
pub mod registry;
pub mod status;
pub mod store;
