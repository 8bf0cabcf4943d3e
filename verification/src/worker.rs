//! One worker task: a shard of operations run against one shared cache
//! handle, with fully thread-local counters and a single merge point.
//!
//! For each operation the worker computes its key through the workload
//! generator, probes the cache, counts a hit, or computes the value and
//! inserts it on a miss. The counters it hands back are merged into shared
//! state exactly once, after its last operation.

use vstd::prelude::*;

use crate::cache::Cache;
use crate::config::BenchConfig;
use crate::workload::{worker_key_set, workload_key, workload_key_spec};

verus! {

/// The thread-local counters of one finished worker: how many operations it
/// ran, how many of its probes hit a live entry, and the distinct keys it
/// touched.
pub struct WorkerOutcome {
    /// The worker's id, which fixes its slice of the workload.
    pub thread_id: usize,
    /// How many operations the worker performed.
    pub ops_done: usize,
    /// How many probes found a live entry.
    pub hits: u64,
    /// The distinct keys the worker touched, each recorded once.
    pub unique_keys: Vec<usize>,
}

/// What the counters of every finished worker satisfy, whatever the backend
/// did: the full operation share was run, at most one hit was counted per
/// operation, and the recorded keys are exactly the worker's slice of the
/// workload, free of duplicates.
pub open spec fn worker_outcome_ok(o: WorkerOutcome, cfg: BenchConfig, thread_id: int) -> bool {
    &&& o.thread_id == thread_id
    &&& o.ops_done == cfg.ops_per_thread
    &&& o.hits <= cfg.ops_per_thread
    &&& o.unique_keys@.no_duplicates()
    &&& o.unique_keys@.to_set() =~= worker_key_set(cfg, thread_id)
}

/// True when the vector holds the key; a linear probe of the thread-local
/// unique-key record.
pub(crate) fn holds_key(keys: &Vec<usize>, key: usize) -> (r: bool)
    ensures
        r == keys@.contains(key),
{
    let mut j: usize = 0;
    while j < keys.len()
        invariant
            j <= keys@.len(),
            forall|m: int| 0 <= m < j ==> keys@[m] != key,
        decreases keys@.len() - j,
    {
        if keys[j] == key {
            return true;
        }
        j += 1;
    }
    false
}

/// Runs one worker's shard of operations against the shared cache handle.
///
/// Every outcome satisfies `worker_outcome_ok`: the operation count is exact
/// and the unique-key record is pinned to the workload, while the hit count
/// is only bounded, since whether a probe hits is decided by the backend's
/// eviction policy and by the races with the other workers.
pub fn run_worker<C, F>(cache: &C, value_gen: &F, cfg: &BenchConfig, thread_id: usize) -> (o:
    WorkerOutcome) where C: Cache, F: Fn(usize) -> C::Item
    requires
        cfg.valid(),
        thread_id < cfg.threads,
        forall|k: usize| k < 2 * cfg.capacity ==> call_requires(*value_gen, (k,)),
    ensures
        worker_outcome_ok(o, *cfg, thread_id as int),
{
    let mut unique_keys: Vec<usize> = Vec::new();
    let mut hits: u64 = 0;
    let mut i: usize = 0;
    while i < cfg.ops_per_thread
        invariant
            cfg.valid(),
            thread_id < cfg.threads,
            forall|k: usize| k < 2 * cfg.capacity ==> call_requires(*value_gen, (k,)),
            i <= cfg.ops_per_thread,
            hits <= i,
            unique_keys@.no_duplicates(),
            forall|k: usize|
                unique_keys@.contains(k) <==> exists|j: int|
                    0 <= j < i && k == workload_key_spec(
                        thread_id as int,
                        j,
                        cfg.ops_per_thread as int,
                        cfg.capacity as int,
                    ),
        decreases cfg.ops_per_thread - i,
    {
        let ghost prev = unique_keys@;
        let key = workload_key(thread_id, i, cfg);
        if !holds_key(&unique_keys, key) {
            unique_keys.push(key);
        }
        proof {
            let tid = thread_id as int;
            let opt = cfg.ops_per_thread as int;
            let cap = cfg.capacity as int;
            assert(unique_keys@ == prev || unique_keys@ == prev.push(key));
            assert forall|k: usize| unique_keys@.contains(k) implies exists|j: int|
                0 <= j < i + 1 && k == workload_key_spec(tid, j, opt, cap) by {
                if k == key {
                    assert(0 <= (i as int) < i + 1 && k == workload_key_spec(
                        tid,
                        i as int,
                        opt,
                        cap,
                    ));
                } else {
                    let m = choose|m: int| 0 <= m < unique_keys@.len() && unique_keys@[m] == k;
                    assert(prev[m] == k);
                    assert(prev.contains(k));
                }
            }
            assert forall|k: usize|
                (exists|j: int| 0 <= j < i + 1 && k == workload_key_spec(tid, j, opt, cap))
                implies unique_keys@.contains(k) by {
                let j = choose|j: int|
                    0 <= j < i + 1 && k == workload_key_spec(tid, j, opt, cap);
                if j < i {
                    assert(prev.contains(k));
                    let m = choose|m: int| 0 <= m < prev.len() && prev[m] == k;
                    assert(unique_keys@[m] == k);
                } else {
                    assert(k == key);
                    if prev.contains(key) {
                        let m = choose|m: int| 0 <= m < prev.len() && prev[m] == key;
                        assert(unique_keys@[m] == key);
                    } else {
                        assert(unique_keys@ == prev.push(key));
                        assert(unique_keys@[prev.len() as int] == key);
                    }
                }
            }
        }
        match cache.get_key(&key) {
            Some(_) => {
                hits += 1;
            },
            None => {
                let value = value_gen(key);
                cache.set_key(key, value);
            },
        }
        i += 1;
    }
    proof {
        assert(unique_keys@.to_set() =~= worker_key_set(*cfg, thread_id as int));
    }
    WorkerOutcome { thread_id, ops_done: i, hits, unique_keys }
}

} // verus!
