//! The benchmark orchestrator: spawns one worker task per thread, merges the
//! thread-local counters exactly once each, and wraps the whole run with
//! wall-clock and resident-memory measurement.
//!
//! The parallel spawn, the clock and the memory probe are outside calls; what
//! is stated of them is only what holds of every outcome. Everything the
//! orchestrator computes from the workers' counters — totals, the unique-key
//! union, the derived record — is verified.

use rayon::iter::{IntoParallelIterator, ParallelIterator};
use std::time::Instant;

use vstd::prelude::*;

use crate::cache::Cache;
use crate::config::BenchConfig;
use crate::metrics::MetricsRecord;
use crate::worker::{holds_key, run_worker, worker_outcome_ok, WorkerOutcome};
use crate::workload::{keys_up_to, run_key_set, worker_key_set};

verus! {

/// Declares `std::time::Instant` as an opaque timestamp type, so that the
/// orchestrator can hold the start of a run and ask for the elapsed time.
#[verifier::external_type_specification]
#[verifier::external_body]
pub struct ExInstant(Instant);

/// Relies on `std::time::Instant::now`: an opaque timestamp of a monotonic
/// clock. The reading depends on the moment of the call, so nothing is
/// promised of it.
#[verifier::external_body]
fn now_instant() -> Instant {
    Instant::now()
}

/// Relies on `std::time::Instant::elapsed` and `Duration::as_millis`: the
/// wall-clock milliseconds since `start`. The reading depends on the moment
/// of the call, so nothing is promised of it.
#[verifier::external_body]
fn elapsed_millis(start: &Instant) -> u128 {
    start.elapsed().as_millis()
}

/// Relies on `memory_stats::memory_stats`: the process's current resident
/// memory in bytes, or zero when no reading is available. The reading is
/// decided by the operating system, so nothing is promised of it.
#[verifier::external_body]
fn read_physical_memory() -> usize {
    memory_stats::memory_stats().map(|stats| stats.physical_mem).unwrap_or(0)
}

/// Relies on rayon's parallel iterator `map`/`collect` over the range of
/// worker ids: the workers run in parallel and `collect` returns exactly one
/// element per id, in id order, each an output of `run_worker` for that id.
/// The ensured clauses are that function's verified postcondition, which
/// holds of every output whatever interleaving the run took.
#[verifier::external_body]
fn run_all_workers<C, F>(cache: &C, value_gen: &F, cfg: &BenchConfig) -> (outcomes: Vec<
    WorkerOutcome,
>) where C: Cache + Sync, F: Fn(usize) -> C::Item + Sync
    requires
        cfg.valid(),
        forall|k: usize| k < 2 * cfg.capacity ==> call_requires(*value_gen, (k,)),
    ensures
        outcomes@.len() == cfg.threads,
        forall|t: int|
            0 <= t < outcomes@.len() ==> worker_outcome_ok(#[trigger] outcomes@[t], *cfg, t),
{
    (0..cfg.threads).into_par_iter().map(
        |thread_id: usize| run_worker(cache, value_gen, cfg, thread_id),
    ).collect()
}

/// The summed operation counts of the workers' counters.
pub open spec fn sum_ops_done(outcomes: Seq<WorkerOutcome>) -> int
    decreases outcomes.len(),
{
    if outcomes.len() == 0 {
        0
    } else {
        sum_ops_done(outcomes.drop_last()) + outcomes.last().ops_done
    }
}

/// The summed hit counts of the workers' counters.
pub open spec fn sum_hits(outcomes: Seq<WorkerOutcome>) -> int
    decreases outcomes.len(),
{
    if outcomes.len() == 0 {
        0
    } else {
        sum_hits(outcomes.drop_last()) + outcomes.last().hits
    }
}

proof fn lemma_sum_ops_uniform(outcomes: Seq<WorkerOutcome>, opt: int)
    requires
        forall|t: int| 0 <= t < outcomes.len() ==> #[trigger] outcomes[t].ops_done == opt,
    ensures
        sum_ops_done(outcomes) == outcomes.len() * opt,
    decreases outcomes.len(),
{
    if outcomes.len() > 0 {
        lemma_sum_ops_uniform(outcomes.drop_last(), opt);
        assert((outcomes.len() - 1) * opt + opt == outcomes.len() * opt) by (nonlinear_arith);
    }
}

proof fn lemma_sum_hits_bounded(outcomes: Seq<WorkerOutcome>, opt: int)
    requires
        forall|t: int| 0 <= t < outcomes.len() ==> #[trigger] outcomes[t].hits <= opt,
    ensures
        0 <= sum_hits(outcomes) <= outcomes.len() * opt,
    decreases outcomes.len(),
{
    if outcomes.len() > 0 {
        lemma_sum_hits_bounded(outcomes.drop_last(), opt);
        assert((outcomes.len() - 1) * opt + opt == outcomes.len() * opt) by (nonlinear_arith);
    }
}

/// Law of operation accounting: in a full run no operation is skipped or
/// double-counted — the per-worker operation counts sum to exactly
/// `threads * ops_per_thread`.
pub proof fn lemma_ops_accounted(outcomes: Seq<WorkerOutcome>, cfg: BenchConfig)
    requires
        cfg.valid(),
        outcomes.len() == cfg.threads,
        forall|t: int| 0 <= t < outcomes.len() ==> worker_outcome_ok(#[trigger] outcomes[t], cfg, t),
    ensures
        sum_ops_done(outcomes) == cfg.total_ops(),
{
    lemma_sum_ops_uniform(outcomes, cfg.ops_per_thread as int);
}

/// Law of the hit bound: in a full run at most one hit is counted per
/// operation, so the summed hit counts never exceed `threads * ops_per_thread`.
pub proof fn lemma_hits_bounded(outcomes: Seq<WorkerOutcome>, cfg: BenchConfig)
    requires
        cfg.valid(),
        outcomes.len() == cfg.threads,
        forall|t: int| 0 <= t < outcomes.len() ==> worker_outcome_ok(#[trigger] outcomes[t], cfg, t),
    ensures
        0 <= sum_hits(outcomes) <= cfg.total_ops(),
{
    lemma_sum_hits_bounded(outcomes, cfg.ops_per_thread as int);
}

/// Merges the workers' counters: the single synchronized moment of a run.
///
/// Returns the summed hit count and the cardinality of the union of the
/// per-worker unique-key sets — the exact union cardinality, not the naive
/// sum of the per-worker counts, which overlapping key ranges would inflate.
/// Consumes the per-run bookkeeping, so that it is released before the final
/// memory sample is taken.
pub fn merge_outcomes(outcomes: Vec<WorkerOutcome>, cfg: &BenchConfig) -> (r: (u64, usize))
    requires
        cfg.valid(),
        outcomes@.len() == cfg.threads,
        forall|t: int|
            0 <= t < outcomes@.len() ==> worker_outcome_ok(#[trigger] outcomes@[t], *cfg, t),
    ensures
        r.0 == sum_hits(outcomes@),
        r.0 <= cfg.total_ops(),
        r.1 == run_key_set(*cfg).len(),
{
    let ghost all = outcomes@;
    let mut hits_total: u64 = 0;
    let mut union_keys: Vec<usize> = Vec::new();
    let mut t: usize = 0;
    while t < outcomes.len()
        invariant
            cfg.valid(),
            all.len() == cfg.threads,
            outcomes@ == all,
            forall|u: int| 0 <= u < all.len() ==> worker_outcome_ok(#[trigger] all[u], *cfg, u),
            t <= all.len(),
            hits_total == sum_hits(all.subrange(0, t as int)),
            hits_total <= t * cfg.ops_per_thread,
            union_keys@.no_duplicates(),
            forall|k: usize| union_keys@.contains(k) <==> keys_up_to(*cfg, t as int).contains(k),
        decreases all.len() - t,
    {
        proof {
            lemma_sum_hits_bounded(all.subrange(0, t as int), cfg.ops_per_thread as int);
            assert(t * cfg.ops_per_thread + cfg.ops_per_thread == (t + 1)
                * cfg.ops_per_thread) by (nonlinear_arith);
            assert((t + 1) * cfg.ops_per_thread <= cfg.threads * cfg.ops_per_thread)
                by (nonlinear_arith)
                requires
                    t + 1 <= cfg.threads,
                    0 < cfg.ops_per_thread,
            ;
            assert(all.subrange(0, t + 1).drop_last() =~= all.subrange(0, t as int));
        }
        let outcome = &outcomes[t];
        hits_total += outcome.hits;
        let mut j: usize = 0;
        while j < outcome.unique_keys.len()
            invariant
                j <= outcome.unique_keys@.len(),
                union_keys@.no_duplicates(),
                forall|k: usize|
                    union_keys@.contains(k) <==> (keys_up_to(*cfg, t as int).contains(k) || exists|
                        m: int,
                    | 0 <= m < j && outcome.unique_keys@[m] == k),
            decreases outcome.unique_keys@.len() - j,
        {
            let ghost prev = union_keys@;
            let key = outcome.unique_keys[j];
            if !holds_key(&union_keys, key) {
                union_keys.push(key);
            }
            proof {
                assert(union_keys@ == prev || union_keys@ == prev.push(key));
                assert forall|k: usize| union_keys@.contains(k) implies (keys_up_to(
                    *cfg,
                    t as int,
                ).contains(k) || exists|m: int|
                    0 <= m < j + 1 && outcome.unique_keys@[m] == k) by {
                    if k == key {
                        assert(outcome.unique_keys@[j as int] == k);
                    } else {
                        let m = choose|m: int|
                            0 <= m < union_keys@.len() && union_keys@[m] == k;
                        assert(prev[m] == k);
                        assert(prev.contains(k));
                    }
                }
                assert forall|k: usize|
                    (keys_up_to(*cfg, t as int).contains(k) || exists|m: int|
                        0 <= m < j + 1 && outcome.unique_keys@[m] == k)
                    implies union_keys@.contains(k) by {
                    if k == key && !prev.contains(key) {
                        assert(union_keys@ == prev.push(key));
                        assert(union_keys@[prev.len() as int] == key);
                    } else if prev.contains(k) {
                        let m = choose|m: int| 0 <= m < prev.len() && prev[m] == k;
                        assert(union_keys@[m] == k);
                    } else {
                        assert(keys_up_to(*cfg, t as int).contains(k) || exists|m: int|
                            0 <= m < j && outcome.unique_keys@[m] == k);
                        assert(prev.contains(k));
                    }
                }
            }
            j += 1;
        }
        proof {
            let tt = t as int;
            assert(worker_outcome_ok(all[tt], *cfg, tt));
            assert forall|k: usize| union_keys@.contains(k) implies keys_up_to(
                *cfg,
                tt + 1,
            ).contains(k) by {
                if !keys_up_to(*cfg, tt).contains(k) {
                    let m = choose|m: int|
                        0 <= m < outcome.unique_keys@.len() && outcome.unique_keys@[m] == k;
                    assert(outcome.unique_keys@.contains(k));
                    assert(outcome.unique_keys@.to_set().contains(k));
                    assert(worker_key_set(*cfg, tt).contains(k));
                }
            }
            assert forall|k: usize| keys_up_to(*cfg, tt + 1).contains(k)
                implies union_keys@.contains(k) by {
                let u = choose|u: int| 0 <= u < tt + 1 && worker_key_set(*cfg, u).contains(k);
                if u < tt {
                    assert(keys_up_to(*cfg, tt).contains(k));
                } else {
                    assert(worker_key_set(*cfg, tt).contains(k));
                    assert(outcome.unique_keys@.to_set().contains(k));
                    assert(outcome.unique_keys@.contains(k));
                }
            }
        }
        t += 1;
    }
    proof {
        assert(all.subrange(0, all.len() as int) =~= all);
        assert(union_keys@.to_set() =~= run_key_set(*cfg));
        union_keys@.unique_seq_to_set();
        lemma_sum_hits_bounded(all, cfg.ops_per_thread as int);
    }
    let total_entries = union_keys.len();
    (hits_total, total_entries)
}

/// Runs one benchmark: `cfg.threads` parallel workers drive the shared cache
/// handle, their counters are merged once each, and exactly one immutable
/// metrics record is produced.
///
/// The record's totals are pinned: the operation count is exactly
/// `threads * ops_per_thread`, the hit count never exceeds it, and the entry
/// count is exactly the cardinality of the union of the per-worker unique-key
/// sets — bounded by the key space and by the total operation count. The
/// elapsed time and the memory delta are readings of the clock and of the
/// operating system, of which nothing more is promised.
pub fn bench_cache<C, F>(name: String, cache: &C, value_gen: &F, cfg: &BenchConfig) -> (r:
    MetricsRecord) where C: Cache + Sync, F: Fn(usize) -> C::Item + Sync
    requires
        cfg.valid(),
        forall|k: usize| k < 2 * cfg.capacity ==> call_requires(*value_gen, (k,)),
    ensures
        r.wf(),
        r.name == name,
        r.total_ops == cfg.total_ops(),
        r.hits <= cfg.total_ops(),
        r.total_entries == run_key_set(*cfg).len(),
        r.total_entries <= cfg.key_space_size(),
        r.total_entries <= cfg.total_ops(),
{
    let initial_mem = read_physical_memory();
    let start = now_instant();
    let outcomes = run_all_workers(cache, value_gen, cfg);
    let total_time_ms = elapsed_millis(&start);
    proof {
        lemma_ops_accounted(outcomes@, *cfg);
        crate::workload::lemma_run_key_set_bounds(*cfg);
    }
    let (hits, total_entries) = merge_outcomes(outcomes, cfg);
    let final_mem = read_physical_memory();
    let memory_bytes = if final_mem >= initial_mem {
        final_mem - initial_mem
    } else {
        0
    };
    proof {
        assert(0 < cfg.threads * cfg.ops_per_thread) by (nonlinear_arith)
            requires
                0 < cfg.threads,
                0 < cfg.ops_per_thread,
        ;
    }
    let total_ops = cfg.threads * cfg.ops_per_thread;
    MetricsRecord { name, total_time_ms, total_ops, hits, total_entries, memory_bytes }
}

} // verus!
