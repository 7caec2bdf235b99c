//! Lifecycle engine for long-running assistant tasks: the on-disk layout of a
//! task store, the reconciliation of stored state with worker liveness, and the
//! decisions taken by the task service and the detached worker.

pub mod task;
pub mod liveness;
pub mod time;
pub mod text;
pub mod store;
pub mod errors;
pub mod service;
pub mod listing;
pub mod logtail;
pub mod worker;
pub mod launcher;
pub mod report;
pub mod rpc;
