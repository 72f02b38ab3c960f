//! Benchmark driver logic for sweeping concurrent key/value map
//! implementations over read/write thread-count scenarios.
//!
//! The crate holds the decision logic of the driver: deriving an operation
//! mix from a workload kind, enumerating the (read-threads, write-threads)
//! scenarios to run, the adaptive stop rule that truncates a sweep when
//! throughput collapses, and the reclamation-epoch quiescence step run
//! between scenarios.

pub mod quiesce;
pub mod scenarios;
pub mod sweep;
pub mod workloads;

use vstd::prelude::*;

verus! {

/// A configuration the driver rejects before any scenario executes.
#[derive(Clone, Copy, Debug, PartialEq, Eq, Structural)]
pub enum ConfigError {
    /// The workload-kind name is not one of the known kinds.
    UnknownWorkload,
    /// An explicit thread-count list holds a zero entry.
    NonPositiveThreadCount,
}

} // verus!
