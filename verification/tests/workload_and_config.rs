use cache_bench::config::BenchConfig;
use cache_bench::workload::workload_key;

fn cfg(threads: usize, ops_per_thread: usize, capacity: usize) -> BenchConfig {
    BenchConfig::new(threads, ops_per_thread, capacity).unwrap()
}

#[test]
fn workload_key_exact_values() {
    // key = (op_index + thread_id * ops_per_thread) mod (2 * capacity)
    let c = cfg(2, 4, 4);
    assert_eq!(workload_key(0, 0, &c), 0);
    assert_eq!(workload_key(0, 3, &c), 3);
    assert_eq!(workload_key(1, 0, &c), 4);
    assert_eq!(workload_key(1, 3, &c), 7);
    let c = cfg(3, 5000, 1000);
    assert_eq!(workload_key(1, 0, &c), 5000 % 2000);
    assert_eq!(workload_key(2, 4999, &c), (4999 + 2 * 5000) % 2000);
}

#[test]
fn workload_keys_stay_in_key_space() {
    let c = cfg(3, 7, 5);
    for thread_id in 0..3 {
        for op_index in 0..7 {
            let key = workload_key(thread_id, op_index, &c);
            assert!(key < 2 * c.capacity);
        }
    }
}

#[test]
fn workload_capacity_one_boundary() {
    // capacity = 1 still yields keys in {0, 1}
    let c = cfg(2, 3, 1);
    for thread_id in 0..2 {
        for op_index in 0..3 {
            let key = workload_key(thread_id, op_index, &c);
            assert!(key == 0 || key == 1);
        }
    }
}

#[test]
fn workload_is_deterministic() {
    let c = cfg(4, 9, 6);
    for thread_id in 0..4 {
        for op_index in 0..9 {
            let first = workload_key(thread_id, op_index, &c);
            let second = workload_key(thread_id, op_index, &c);
            assert_eq!(first, second);
        }
    }
}

#[test]
fn config_rejects_zero_counts() {
    assert!(BenchConfig::new(0, 1, 1).is_none());
    assert!(BenchConfig::new(1, 0, 1).is_none());
    assert!(BenchConfig::new(1, 1, 0).is_none());
}

#[test]
fn config_rejects_overflowing_products() {
    assert!(BenchConfig::new(usize::MAX, 2, 1).is_none());
    assert!(BenchConfig::new(2, usize::MAX, 1).is_none());
    assert!(BenchConfig::new(1, 1, usize::MAX).is_none());
}

#[test]
fn config_accepts_positive_counts() {
    let c = cfg(8, 100_000, 10_000);
    assert_eq!(c.threads, 8);
    assert_eq!(c.ops_per_thread, 100_000);
    assert_eq!(c.capacity, 10_000);
}
