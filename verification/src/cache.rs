//! The uniform cache adapter: one `get`/`set` capability interface per
//! backend, hiding each backend's internal synchronization strategy.
//!
//! Three concrete backends stand behind the interface: a sharded-lock
//! concurrent cache reachable without external locking, and two
//! single-instance caches each guarded by one external exclusive lock. A
//! handle is shared by reference among all workers of a run; every mutation
//! is mediated by the backend's own synchronization, never by the harness.
//!
//! The interface promises nothing about retention: a capacity-bound backend
//! may evict any entry at any insertion, and a handle is shared by racing
//! workers, so what `get_key` returns is decided by the backend alone. The
//! harness therefore states nothing of the contents and merely counts the
//! outcomes.

use std::sync::Arc;

use vstd::prelude::*;

verus! {

/// Uniform capability interface over one cache backend.
///
/// `get_key` returns a copy of the stored value when the key holds a live
/// mapping (a hit) and `None` otherwise (a miss). `set_key` inserts or
/// overwrites the mapping and may trigger backend-internal eviction; no
/// retention is guaranteed. Both calls go through a shared reference: the
/// backend's own internal synchronization, whose cost is part of what the
/// benchmark measures, mediates every access.
pub trait Cache {
    type Item: Clone;

    fn get_key(&self, key: &usize) -> Option<Self::Item>;

    fn set_key(&self, key: usize, value: Self::Item);
}

/// A sharded-lock concurrent cache: multiple threads reach it without any
/// external locking.
#[verifier::external_body]
#[verifier::reject_recursive_types(T)]
pub struct QuickCacheHandle<T: Clone> {
    inner: Arc<quick_cache::sync::Cache<usize, T>>,
}

impl<T: Clone> QuickCacheHandle<T> {
    /// Relies on `quick_cache::sync::Cache::new`: builds a concurrent cache
    /// that holds up to `capacity` items (approximately).
    #[verifier::external_body]
    pub fn new(capacity: usize) -> Self
        requires
            capacity > 0,
    {
        QuickCacheHandle { inner: Arc::new(quick_cache::sync::Cache::new(capacity)) }
    }
}

impl<T: Clone> QuickCacheHandle<T> {
    /// Relies on `quick_cache::sync::Cache::get`: a clone of the live value
    /// for the key, or `None`.
    #[verifier::external_body]
    fn get_raw(&self, key: &usize) -> Option<T> {
        self.inner.get(key)
    }

    /// Relies on `quick_cache::sync::Cache::insert`: inserts or overwrites
    /// the mapping, possibly evicting other entries.
    #[verifier::external_body]
    fn set_raw(&self, key: usize, value: T) {
        self.inner.insert(key, value);
    }
}

impl<T: Clone> Cache for QuickCacheHandle<T> {
    type Item = T;

    fn get_key(&self, key: &usize) -> Option<T> {
        self.get_raw(key)
    }

    fn set_key(&self, key: usize, value: T) {
        self.set_raw(key, value);
    }
}

/// A single-instance LRU cache guarded by one external exclusive lock; every
/// access acquires and releases the lock.
#[verifier::external_body]
#[verifier::reject_recursive_types(T)]
pub struct LruCacheHandle<T: Clone> {
    inner: Arc<parking_lot::Mutex<lru::LruCache<usize, T>>>,
}

impl<T: Clone> LruCacheHandle<T> {
    /// Relies on `lru::LruCache::new`: builds an LRU cache bounded by
    /// `capacity` entries (positive, so the size conversion cannot fail).
    #[verifier::external_body]
    pub fn new(capacity: usize) -> Self
        requires
            capacity > 0,
    {
        let size = std::num::NonZeroUsize::new(capacity).unwrap();
        LruCacheHandle { inner: Arc::new(parking_lot::Mutex::new(lru::LruCache::new(size))) }
    }
}

impl<T: Clone> LruCacheHandle<T> {
    /// Relies on `parking_lot::Mutex::lock` and `lru::LruCache::get`: a clone
    /// of the live value for the key (promoting it to most recently used), or
    /// `None`.
    #[verifier::external_body]
    fn get_raw(&self, key: &usize) -> Option<T> {
        self.inner.lock().get(key).cloned()
    }

    /// Relies on `parking_lot::Mutex::lock` and `lru::LruCache::put`: inserts
    /// or overwrites the mapping, evicting the least recently used entry when
    /// the cache is full.
    #[verifier::external_body]
    fn set_raw(&self, key: usize, value: T) {
        self.inner.lock().put(key, value);
    }
}

impl<T: Clone> Cache for LruCacheHandle<T> {
    type Item = T;

    fn get_key(&self, key: &usize) -> Option<T> {
        self.get_raw(key)
    }

    fn set_key(&self, key: usize, value: T) {
        self.set_raw(key, value);
    }
}

/// A size-limited cache store with the same external-exclusive-lock
/// discipline as [`LruCacheHandle`] but a backend of its own.
#[verifier::external_body]
#[verifier::reject_recursive_types(T)]
pub struct SizedCacheHandle<T: Clone> {
    inner: Arc<parking_lot::Mutex<cached::stores::LruCache<usize, T>>>,
}

impl<T: Clone> SizedCacheHandle<T> {
    /// Relies on `cached::stores::LruCache::new`: builds a store bounded by
    /// `capacity` entries (positive, so construction cannot panic).
    #[verifier::external_body]
    pub fn new(capacity: usize) -> Self
        requires
            capacity > 0,
    {
        SizedCacheHandle {
            inner: Arc::new(parking_lot::Mutex::new(cached::stores::LruCache::new(capacity))),
        }
    }
}

impl<T: Clone> SizedCacheHandle<T> {
    /// Relies on `parking_lot::Mutex::lock` and `cached::Cached::cache_get`:
    /// a clone of the live value for the key (promoting it to most recently
    /// used), or `None`.
    #[verifier::external_body]
    fn get_raw(&self, key: &usize) -> Option<T> {
        cached::Cached::cache_get(&mut *self.inner.lock(), key).cloned()
    }

    /// Relies on `parking_lot::Mutex::lock` and `cached::Cached::cache_set`:
    /// inserts or overwrites the mapping, evicting the least recently used
    /// entry when the store is full.
    #[verifier::external_body]
    fn set_raw(&self, key: usize, value: T) {
        cached::Cached::cache_set(&mut *self.inner.lock(), key, value);
    }
}

impl<T: Clone> Cache for SizedCacheHandle<T> {
    type Item = T;

    fn get_key(&self, key: &usize) -> Option<T> {
        self.get_raw(key)
    }

    fn set_key(&self, key: usize, value: T) {
        self.set_raw(key, value);
    }
}

} // verus!
