use cache_bench::bench::bench_cache;
use cache_bench::cache::{Cache, LruCacheHandle, QuickCacheHandle, SizedCacheHandle};
use cache_bench::config::BenchConfig;
use cache_bench::worker::run_worker;

fn cfg(threads: usize, ops_per_thread: usize, capacity: usize) -> BenchConfig {
    BenchConfig::new(threads, ops_per_thread, capacity).unwrap()
}

fn value_of(key: usize) -> String {
    format!("value_{key}")
}

#[test]
fn backends_store_and_return_values() {
    let quick: QuickCacheHandle<String> = QuickCacheHandle::new(4);
    quick.set_key(3, value_of(3));
    assert_eq!(quick.get_key(&3), Some(value_of(3)));
    assert_eq!(quick.get_key(&4), None);

    let lru: LruCacheHandle<String> = LruCacheHandle::new(4);
    lru.set_key(3, value_of(3));
    assert_eq!(lru.get_key(&3), Some(value_of(3)));
    assert_eq!(lru.get_key(&4), None);

    let sized: SizedCacheHandle<String> = SizedCacheHandle::new(4);
    sized.set_key(3, value_of(3));
    assert_eq!(sized.get_key(&3), Some(value_of(3)));
    assert_eq!(sized.get_key(&4), None);
}

// With capacity 4, 2 threads and 4 ops per thread, worker 0 visits keys
// {0,1,2,3} and worker 1 visits keys {4,5,6,7}: with no pre-seeding every
// access is a first-touch miss, whatever the interleaving.
#[test]
fn first_touch_run_misses_everywhere() {
    let c = cfg(2, 4, 4);
    let value_gen = |k: usize| value_of(k);

    let quick: QuickCacheHandle<String> = QuickCacheHandle::new(4);
    let r = bench_cache(String::from("quick_cache"), &quick, &value_gen, &c);
    assert_eq!(r.name, "quick_cache");
    assert_eq!(r.total_ops, 8);
    assert_eq!(r.hits, 0);
    assert_eq!(r.total_entries, 8);
    assert_eq!(r.hit_rate_basis_points(), 0);
    assert_eq!(r.hits as f64 / r.total_ops as f64, 0.0);

    let lru: LruCacheHandle<String> = LruCacheHandle::new(4);
    let r = bench_cache(String::from("lru"), &lru, &value_gen, &c);
    assert_eq!((r.hits, r.total_entries), (0, 8));

    let sized: SizedCacheHandle<String> = SizedCacheHandle::new(4);
    let r = bench_cache(String::from("sized"), &sized, &value_gen, &c);
    assert_eq!((r.hits, r.total_entries), (0, 8));
}

// One worker makes two passes over the working set {0..8}, twice the
// capacity of the backend. An exact-LRU backend evicts each key before the
// second pass returns to it, so every second-pass access also misses; the
// sharded backend's replacement policy is its own, so only bounds hold.
#[test]
fn second_pass_is_evicted_by_exact_lru_backends() {
    let c = cfg(1, 16, 4);
    let value_gen = |k: usize| value_of(k);

    let lru: LruCacheHandle<String> = LruCacheHandle::new(4);
    let r = bench_cache(String::from("lru"), &lru, &value_gen, &c);
    assert_eq!((r.hits, r.total_entries, r.total_ops), (0, 8, 16));

    let sized: SizedCacheHandle<String> = SizedCacheHandle::new(4);
    let r = bench_cache(String::from("sized"), &sized, &value_gen, &c);
    assert_eq!((r.hits, r.total_entries, r.total_ops), (0, 8, 16));

    let quick: QuickCacheHandle<String> = QuickCacheHandle::new(4);
    let r = bench_cache(String::from("quick_cache"), &quick, &value_gen, &c);
    assert!(r.hits <= 16);
    assert_eq!(r.total_entries, 8);
}

// When every workload key is pre-seeded into a backend large enough never to
// evict, every access of the run is a hit: the hit rate reaches its upper
// bound of one.
#[test]
fn preseeded_run_hits_everywhere() {
    let c = cfg(2, 4, 4);
    let value_gen = |k: usize| value_of(k);

    let quick: QuickCacheHandle<String> = QuickCacheHandle::new(64);
    let lru: LruCacheHandle<String> = LruCacheHandle::new(64);
    let sized: SizedCacheHandle<String> = SizedCacheHandle::new(64);
    for k in 0..8 {
        quick.set_key(k, value_of(k));
        lru.set_key(k, value_of(k));
        sized.set_key(k, value_of(k));
    }

    for r in [
        bench_cache(String::from("quick_cache"), &quick, &value_gen, &c),
        bench_cache(String::from("lru"), &lru, &value_gen, &c),
        bench_cache(String::from("sized"), &sized, &value_gen, &c),
    ] {
        assert_eq!(r.hits, 8);
        assert_eq!(r.hit_rate_basis_points(), 10000);
        assert_eq!(r.hits as f64 / r.total_ops as f64, 1.0);
    }
}

// With 2 threads of 8 ops each over capacity 4, both workers visit the same
// keys {0..7}: the reported entry count is the cardinality of the union, not
// the naive per-worker sum of 16.
#[test]
fn overlapping_workers_count_the_union_once() {
    let c = cfg(2, 8, 4);
    let value_gen = |k: usize| value_of(k);
    let lru: LruCacheHandle<String> = LruCacheHandle::new(4);
    let r = bench_cache(String::from("lru"), &lru, &value_gen, &c);
    assert_eq!(r.total_entries, 8);
    assert!(r.total_entries <= 2 * c.capacity);
    assert!(r.total_entries <= c.threads * c.ops_per_thread);
}

// Every worker performs exactly its share of operations: the per-worker
// counts sum to threads * ops_per_thread.
#[test]
fn per_worker_operation_counts_sum_to_total() {
    let c = cfg(3, 5, 2);
    let value_gen = |k: usize| value_of(k);
    let lru: LruCacheHandle<String> = LruCacheHandle::new(2);
    let mut ops_total = 0usize;
    let mut keys_total = 0usize;
    for thread_id in 0..3 {
        let outcome = run_worker(&lru, &value_gen, &c, thread_id);
        assert_eq!(outcome.thread_id, thread_id);
        assert_eq!(outcome.ops_done, 5);
        assert!(outcome.hits <= 5);
        ops_total += outcome.ops_done;
        keys_total += outcome.unique_keys.len();
        // every worker's five indices fold onto the same four keys
        let mut keys = outcome.unique_keys.clone();
        keys.sort();
        assert_eq!(keys, vec![0, 1, 2, 3]);
    }
    assert_eq!(ops_total, 3 * 5);
    // each worker's distinct keys are bounded by its share and the key space
    assert!(keys_total <= 3 * 5);
}

// On a completed run, the reported rate multiplied back by the elapsed time
// recovers the total operation count up to rounding.
#[test]
fn throughput_of_a_real_run_is_consistent() {
    let c = cfg(4, 20_000, 100);
    let value_gen = |k: usize| value_of(k);
    let quick: QuickCacheHandle<String> = QuickCacheHandle::new(100);
    let r = bench_cache(String::from("quick_cache"), &quick, &value_gen, &c);
    assert_eq!(r.total_ops, 80_000);
    assert!(r.hits <= 80_000);
    assert!(r.total_entries <= 200);
    let bp = r.hit_rate_basis_points();
    assert!(bp <= 10000);
    match r.ops_per_sec_thousandths() {
        Some(rate) => {
            let ops_per_sec = rate as f64 / 1000.0;
            let seconds = r.total_time_ms as f64 / 1000.0;
            let recovered = ops_per_sec * seconds;
            assert!((recovered - r.total_ops as f64).abs() <= 1.0 + r.total_ops as f64 * 1e-6);
        }
        None => assert_eq!(r.total_time_ms, 0),
    }
}
