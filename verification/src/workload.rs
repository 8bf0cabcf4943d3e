//! The workload generator: a pure, deterministic map from (worker id,
//! operation index) to a key.
//!
//! Each worker owns a disjoint range of operation indices, so the generator
//! itself never creates contention; the indices are then folded into a key
//! space exactly twice the capacity bound, which guarantees a mix of hits and
//! misses and exercises the eviction path of capacity-bound backends.

use vstd::prelude::*;
use vstd::set_lib::{
    lemma_int_range, lemma_len_subset, lemma_len_union, lemma_map_size_bound, set_int_range,
};

use crate::config::BenchConfig;

verus! {

/// The key a worker touches at one operation:
/// `(op_index + thread_id * ops_per_thread) mod (2 * capacity)`.
pub open spec fn workload_key_spec(
    thread_id: int,
    op_index: int,
    ops_per_thread: int,
    capacity: int,
) -> int {
    (op_index + thread_id * ops_per_thread) % (2 * capacity)
}

/// The set of keys one worker visits over a whole run.
pub open spec fn worker_key_set(cfg: BenchConfig, thread_id: int) -> Set<usize> {
    Set::new(
        |k: usize|
            exists|i: int|
                0 <= i < cfg.ops_per_thread && k == workload_key_spec(
                    thread_id,
                    i,
                    cfg.ops_per_thread as int,
                    cfg.capacity as int,
                ),
    )
}

/// The union of the key sets of the first `n` workers.
pub open spec fn keys_up_to(cfg: BenchConfig, n: int) -> Set<usize> {
    Set::new(
        |k: usize|
            exists|t: int|
                0 <= t < n && worker_key_set(cfg, t).contains(k),
    )
}

/// The set of keys the whole run visits: the union of every worker's keys.
pub open spec fn run_key_set(cfg: BenchConfig) -> Set<usize> {
    keys_up_to(cfg, cfg.threads as int)
}

/// Computes the key for one operation of one worker.
///
/// The result is pinned exactly to `workload_key_spec`, so two calls with
/// identical arguments always yield identical keys, and every key lies in
/// `[0, 2 * capacity)`.
pub fn workload_key(thread_id: usize, op_index: usize, cfg: &BenchConfig) -> (key: usize)
    requires
        cfg.valid(),
        thread_id < cfg.threads,
        op_index < cfg.ops_per_thread,
    ensures
        key == workload_key_spec(
            thread_id as int,
            op_index as int,
            cfg.ops_per_thread as int,
            cfg.capacity as int,
        ),
        key < 2 * cfg.capacity,
{
    proof {
        assert(op_index + thread_id * cfg.ops_per_thread < cfg.threads * cfg.ops_per_thread) by (nonlinear_arith)
            requires
                thread_id < cfg.threads,
                op_index < cfg.ops_per_thread,
                0 < cfg.ops_per_thread,
        ;
    }
    (op_index + thread_id * cfg.ops_per_thread) % (cfg.capacity * 2)
}

/// The workload generator is a pure function: two keys computed from
/// identical arguments are identical.
pub proof fn lemma_workload_key_deterministic(
    thread_id: int,
    op_index: int,
    ops_per_thread: int,
    capacity: int,
    k1: int,
    k2: int,
)
    requires
        k1 == workload_key_spec(thread_id, op_index, ops_per_thread, capacity),
        k2 == workload_key_spec(thread_id, op_index, ops_per_thread, capacity),
    ensures
        k1 == k2,
{
}

/// Every key the workload generator produces lies in the key space
/// `[0, 2 * capacity)`, for every valid configuration.
pub proof fn lemma_workload_key_in_range(
    thread_id: int,
    op_index: int,
    ops_per_thread: int,
    capacity: int,
)
    requires
        0 < capacity,
    ensures
        0 <= workload_key_spec(thread_id, op_index, ops_per_thread, capacity) < 2 * capacity,
{
    assert(0 <= (op_index + thread_id * ops_per_thread) % (2 * capacity) < 2 * capacity) by (nonlinear_arith)
        requires
            0 < capacity,
    ;
}

/// One worker's key set is finite and holds at most `ops_per_thread` keys:
/// it is the image of the worker's operation indices under the generator.
proof fn lemma_worker_key_set_bounds(cfg: BenchConfig, t: int)
    requires
        cfg.valid(),
    ensures
        worker_key_set(cfg, t).finite(),
        worker_key_set(cfg, t).len() <= cfg.ops_per_thread,
{
    let opt = cfg.ops_per_thread as int;
    let cap = cfg.capacity as int;
    let f = |i: int| workload_key_spec(t, i, opt, cap) as usize;
    let x = set_int_range(0, opt);
    let y = x.map(f);
    lemma_int_range(0, opt);
    assert forall|k: usize| worker_key_set(cfg, t).contains(k) implies y.contains(k) by {
        let i = choose|i: int| 0 <= i < opt && k == workload_key_spec(t, i, opt, cap);
        lemma_workload_key_in_range(t, i, opt, cap);
        assert(x.contains(i) && f(i) == k);
    }
    assert forall|k: usize| y.contains(k) implies worker_key_set(cfg, t).contains(k) by {
        let i = choose|i: int| x.contains(i) && f(i) == k;
        lemma_workload_key_in_range(t, i, opt, cap);
        assert(k == workload_key_spec(t, i, opt, cap));
    }
    assert(worker_key_set(cfg, t) =~= y);
    lemma_map_size_bound(x, y, f);
}

/// The union of the first `n` workers' key sets is finite and holds at most
/// `n * ops_per_thread` keys.
proof fn lemma_keys_up_to_bounds(cfg: BenchConfig, n: int)
    requires
        cfg.valid(),
        0 <= n,
    ensures
        keys_up_to(cfg, n).finite(),
        keys_up_to(cfg, n).len() <= n * cfg.ops_per_thread,
    decreases n,
{
    let opt = cfg.ops_per_thread as int;
    if n == 0 {
        assert(keys_up_to(cfg, 0) =~= Set::<usize>::empty());
    } else {
        lemma_keys_up_to_bounds(cfg, n - 1);
        lemma_worker_key_set_bounds(cfg, n - 1);
        assert(keys_up_to(cfg, n) =~= keys_up_to(cfg, n - 1).union(worker_key_set(cfg, n - 1)));
        lemma_len_union(keys_up_to(cfg, n - 1), worker_key_set(cfg, n - 1));
        assert((n - 1) * opt + opt == n * opt) by (nonlinear_arith);
    }
}

/// Law of union correctness, cardinality half: the set of distinct keys a
/// whole run touches is finite and holds at most
/// `min(2 * capacity, threads * ops_per_thread)` keys — the key space bounds
/// it, and so does the total operation count.
pub proof fn lemma_run_key_set_bounds(cfg: BenchConfig)
    requires
        cfg.valid(),
    ensures
        run_key_set(cfg).finite(),
        run_key_set(cfg).len() <= cfg.key_space_size(),
        run_key_set(cfg).len() <= cfg.total_ops(),
{
    let opt = cfg.ops_per_thread as int;
    let cap = cfg.capacity as int;
    lemma_keys_up_to_bounds(cfg, cfg.threads as int);
    let g = |i: int| i as usize;
    let x = set_int_range(0, 2 * cap);
    let y = x.map(g);
    lemma_int_range(0, 2 * cap);
    lemma_map_size_bound(x, y, g);
    assert forall|k: usize| run_key_set(cfg).contains(k) implies y.contains(k) by {
        let t = choose|t: int|
            0 <= t < cfg.threads && worker_key_set(cfg, t).contains(k);
        let i = choose|i: int| 0 <= i < opt && k == workload_key_spec(t, i, opt, cap);
        lemma_workload_key_in_range(t, i, opt, cap);
        assert(x.contains(k as int) && g(k as int) == k);
    }
    lemma_len_subset(run_key_set(cfg), y);
}

} // verus!
