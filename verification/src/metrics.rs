//! The immutable result of one benchmark run.
//!
//! The record keeps the raw integer measurements — operation and hit counts,
//! wall-clock milliseconds, distinct entries, memory delta in bytes — and
//! derives the reported rates from them. The rates are exposed as scaled
//! integers (thousandths of an operation per second, hundredths of a percent
//! of hits), so that each is pinned exactly to its defining quotient.

use vstd::arithmetic::div_mod::lemma_fundamental_div_mod;
use vstd::prelude::*;

verus! {

/// The immutable result of one benchmark run: one record per backend per run.
pub struct MetricsRecord {
    /// The name of the backend under test.
    pub name: String,
    /// Wall-clock time of the run, in milliseconds, from first task spawn to
    /// last task completion.
    pub total_time_ms: u128,
    /// Total number of operations: `threads * ops_per_thread`, fixed before
    /// the run starts.
    pub total_ops: usize,
    /// How many probes over all workers found a live entry.
    pub hits: u64,
    /// Cardinality of the union of all per-worker unique-key sets.
    pub total_entries: usize,
    /// Non-negative growth of resident memory over the run, in bytes.
    pub memory_bytes: usize,
}

impl MetricsRecord {
    /// The record's invariant: a run has operations, and every hit was one of
    /// them, so the hit rate `hits / total_ops` lies in `[0, 1]`.
    pub open spec fn wf(self) -> bool {
        &&& 0 < self.total_ops
        &&& self.hits <= self.total_ops
    }

    /// The hit rate in hundredths of a percent: `hits / total_ops` scaled by
    /// 10000 and rounded down. Bounded by 10000, since the rate is at most 1.
    pub fn hit_rate_basis_points(&self) -> (r: u64)
        requires
            self.wf(),
        ensures
            r == self.hits * 10000 / (self.total_ops as int),
            r <= 10000,
    {
        proof {
            lemma_div_bounded_by_scale(self.hits as int, self.total_ops as int, 10000);
        }
        (((self.hits as u128) * 10000) / (self.total_ops as u128)) as u64
    }

    /// The throughput in thousandths of an operation per second:
    /// `total_ops / total_time_seconds` scaled by 1000 and rounded down.
    ///
    /// A run of zero measured milliseconds has an undefined rate and yields
    /// `None`; it is never silently reported as a number.
    pub fn ops_per_sec_thousandths(&self) -> (r: Option<u128>)
        requires
            self.wf(),
        ensures
            match r {
                Some(rate) => self.total_time_ms > 0 && rate == self.total_ops * 1_000_000
                    / (self.total_time_ms as int),
                None => self.total_time_ms == 0,
            },
    {
        if self.total_time_ms == 0 {
            None
        } else {
            proof {
                assert((self.total_ops as u128) * 1_000_000 <= u128::MAX) by (nonlinear_arith)
                    requires
                        self.total_ops <= u64::MAX,
                ;
            }
            Some((self.total_ops as u128) * 1_000_000 / self.total_time_ms)
        }
    }
}

/// When `hits <= total` the scaled quotient `hits * scale / total` never
/// exceeds `scale`: a rate of at most one stays at most one after scaling.
pub proof fn lemma_div_bounded_by_scale(hits: int, total: int, scale: int)
    requires
        0 <= hits <= total,
        0 < total,
        0 < scale,
    ensures
        hits * scale / total <= scale,
{
    assert(hits * scale <= total * scale) by (nonlinear_arith)
        requires
            0 <= hits <= total,
            0 < scale,
    ;
    assert(total * scale / total == scale) by (nonlinear_arith)
        requires
            0 < total,
            0 < scale,
    ;
    assert(hits * scale / total <= total * scale / total) by (nonlinear_arith)
        requires
            0 < total,
            hits * scale <= total * scale,
            0 <= hits * scale,
    ;
}

/// Law of throughput sanity: the reported rate, multiplied back by the
/// elapsed time, recovers the total operation count up to the rounding lost
/// in the quotient — never more than one unit of time's worth.
pub proof fn lemma_throughput_consistent(ops: int, time_ms: int, rate: int)
    requires
        0 <= ops,
        0 < time_ms,
        rate == ops * 1_000_000 / time_ms,
    ensures
        rate * time_ms <= ops * 1_000_000 < rate * time_ms + time_ms,
{
    lemma_fundamental_div_mod(ops * 1_000_000, time_ms);
    assert(0 <= (ops * 1_000_000) % time_ms < time_ms) by (nonlinear_arith)
        requires
            0 < time_ms,
            0 <= ops,
    ;
}

} // verus!
