//! Startup configuration of one benchmark run: how many parallel workers run,
//! how many operations each performs, and the capacity bound that fixes the
//! key space the workload draws from.

use vstd::prelude::*;

verus! {

/// Configuration of one benchmark run.
///
/// `capacity` is the target number of live entries of a size-limited backend;
/// the workload touches keys in `[0, 2 * capacity)`, twice the capacity, so
/// that capacity-bound backends exercise their eviction path.
#[derive(Clone, Copy, Debug)]
pub struct BenchConfig {
    /// Number of parallel worker tasks.
    pub threads: usize,
    /// Number of operations each worker performs.
    pub ops_per_thread: usize,
    /// Capacity bound of the backend under test.
    pub capacity: usize,
}

impl BenchConfig {
    /// A configuration is valid when every count is positive and the derived
    /// products (total operation count, key-space size) fit in a `usize`.
    pub open spec fn valid(self) -> bool {
        &&& 0 < self.threads
        &&& 0 < self.ops_per_thread
        &&& 0 < self.capacity
        &&& self.threads * self.ops_per_thread <= usize::MAX
        &&& self.capacity * 2 <= usize::MAX
    }

    /// Total number of operations of a run: every worker performs exactly
    /// `ops_per_thread` of them.
    pub open spec fn total_ops(self) -> int {
        self.threads * self.ops_per_thread
    }

    /// Size of the key space the workload draws from.
    pub open spec fn key_space_size(self) -> int {
        2 * self.capacity
    }

    /// Builds a configuration, rejecting one whose counts are zero or whose
    /// derived products overflow.
    pub fn new(threads: usize, ops_per_thread: usize, capacity: usize) -> (r: Option<
        BenchConfig,
    >)
        ensures
            match r {
                Some(cfg) => cfg.valid() && cfg.threads == threads && cfg.ops_per_thread
                    == ops_per_thread && cfg.capacity == capacity,
                None => !(BenchConfig {
                    threads,
                    ops_per_thread,
                    capacity,
                }).valid(),
            },
    {
        if threads == 0 || ops_per_thread == 0 || capacity == 0 {
            return None;
        }
        if threads.checked_mul(ops_per_thread).is_none() {
            return None;
        }
        if capacity > usize::MAX / 2 {
            return None;
        }
        Some(BenchConfig { threads, ops_per_thread, capacity })
    }
}

} // verus!
