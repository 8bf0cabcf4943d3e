//! A concurrent cache benchmark harness.
//!
//! Heterogeneous cache backends are driven through one uniform `Cache`
//! interface by a pool of parallel workers. Each worker draws its keys from a
//! deterministic workload generator, keeps thread-local counters, and merges
//! them exactly once at completion. The orchestrator folds the per-worker
//! counters into a single immutable metrics record per run.

pub mod bench;
pub mod cache;
pub mod config;
pub mod metrics;
pub mod worker;
pub mod workload;
