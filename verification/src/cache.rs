//! Cache module
//!
//! Provides the cache capability, its bounded in-process backend, the
//! command mapping of the remote backend, and the backend factory.

pub mod memory;
pub mod redis;

use crate::cache::memory::{
    model_contains, model_entry, model_live, spec_expiry, EntryModel, MemoryCache,
};
use crate::error::Error;
use crate::utils::string::str_eq;
use vstd::prelude::*;
use vstd::string::StringExecFns;

verus! {

/// Cache capability: the five operations every backend offers.
///
/// Callers hold a value of a type with this capability and never a concrete
/// backend. The model is the stored entries as specifications see them, in
/// recency order; a backend free of recency order may still present its
/// entries in some order. Every operation takes the current instant in
/// milliseconds, so that expiry is decided by the caller's clock.
pub trait Cache: Sized {
    /// The stored entries as specifications see them.
    spec fn model(&self) -> Seq<(Seq<char>, EntryModel)>;

    /// The backend's invariant, established at construction and preserved
    /// by every operation.
    spec fn inv(&self) -> bool;

    /// Get the value stored under the key, treating an expired entry as
    /// absent. No entry gains a different value through a lookup.
    fn get(&mut self, key: &str, now: u64) -> (r: Option<String>)
        requires
            old(self).inv(),
        ensures
            final(self).inv(),
            (match r {
                Some(v) => model_live(old(self).model(), key@, now) && v@ == model_entry(
                    old(self).model(),
                    key@,
                ).value,
                None => !model_live(old(self).model(), key@, now),
            }),
            forall|k: Seq<char>|
                #[trigger] model_contains(final(self).model(), k) ==> model_contains(
                    old(self).model(),
                    k,
                ) && model_entry(final(self).model(), k) == model_entry(old(self).model(), k),
    ;

    /// Insert or replace the entry under the key. `ttl` of `None` means the
    /// entry never expires. Entries under other keys may leave (eviction),
    /// but never change value.
    fn set(&mut self, key: String, value: String, ttl: Option<u64>, now: u64)
        requires
            old(self).inv(),
        ensures
            final(self).inv(),
            model_contains(final(self).model(), key@),
            model_entry(final(self).model(), key@) == (EntryModel {
                value: value@,
                expires_at: spec_expiry(ttl, now),
            }),
            forall|k: Seq<char>|
                k != key@ && #[trigger] model_contains(final(self).model(), k) ==> model_contains(
                    old(self).model(),
                    k,
                ) && model_entry(final(self).model(), k) == model_entry(old(self).model(), k),
    ;

    /// Remove the entry under the key; an absent key is a no-op, and other
    /// keys are untouched.
    fn delete(&mut self, key: &str)
        requires
            old(self).inv(),
        ensures
            final(self).inv(),
            !model_contains(final(self).model(), key@),
            forall|k: Seq<char>|
                k != key@ ==> (#[trigger] model_contains(final(self).model(), k) <==> model_contains(
                    old(self).model(),
                    k,
                )),
            forall|k: Seq<char>|
                k != key@ && #[trigger] model_contains(final(self).model(), k) ==> model_entry(
                    final(self).model(),
                    k,
                ) == model_entry(old(self).model(), k),
    ;

    /// Remove every entry.
    fn clear(&mut self)
        requires
            old(self).inv(),
        ensures
            final(self).inv(),
            final(self).model().len() == 0,
    ;

    /// Whether the key holds a live entry; equivalent to a lookup returning
    /// a value, but without refreshing recency.
    fn contains_key(&mut self, key: &str, now: u64) -> (r: bool)
        requires
            old(self).inv(),
        ensures
            final(self).inv(),
            r == model_live(old(self).model(), key@, now),
            forall|k: Seq<char>|
                #[trigger] model_contains(final(self).model(), k) ==> model_contains(
                    old(self).model(),
                    k,
                ) && model_entry(final(self).model(), k) == model_entry(old(self).model(), k),
    ;
}

/// Cache configuration
pub struct CacheConfig {
    /// Cache type: memory or redis
    pub cache_type: String,
    /// Memory cache size (number of entries)
    pub memory_size: Option<usize>,
    /// Redis connection URL
    pub redis_url: Option<String>,
    /// Default TTL (seconds)
    pub default_ttl: Option<u64>,
}

impl Default for CacheConfig {
    fn default() -> (r: Self)
        ensures
            r.cache_type@ == "memory"@,
            r.memory_size == Some(1000usize),
            r.redis_url is None,
            r.default_ttl == Some(3600u64),
    {
        CacheConfig {
            cache_type: String::from_str("memory"),
            memory_size: Some(1000),
            redis_url: None,
            default_ttl: Some(3600),
        }
    }
}

/// The capacity that a memory-size setting yields: the default of one
/// thousand when unset, and never below one.
pub open spec fn spec_memory_capacity(memory_size: Option<usize>) -> int {
    match memory_size {
        Some(n) => if n == 0 {
            1int
        } else {
            n as int
        },
        None => 1000int,
    }
}

/// Create a cache instance synchronously.
///
/// Only the memory backend can be built here; a remote backend needs a
/// network handshake and is refused outright with a pointer to the
/// asynchronous path, rather than handed out in a non-functional state.
pub fn create_cache(config: &CacheConfig) -> (r: Result<MemoryCache, Error>)
    ensures
        (config.cache_type@ == "memory"@) <==> r is Ok,
        (match r {
            Ok(c) => c.wf() && c@.len() == 0 && c.cap() == spec_memory_capacity(
                config.memory_size,
            ),
            Err(e) => match e {
                Error::Config(m) => if config.cache_type@ == "redis"@ {
                    m@
                        == "Redis cache requires async initialization. Use create_cache_async instead."@
                } else {
                    m@ == "unsupported cache type: "@ + config.cache_type@
                },
                _ => false,
            },
        }),
{
    if str_eq(config.cache_type.as_str(), "memory") {
        let size = match config.memory_size {
            Some(n) => n,
            None => 1000,
        };
        Ok(MemoryCache::new(size))
    } else if str_eq(config.cache_type.as_str(), "redis") {
        Err(
            Error::Config(
                String::from_str(
                    "Redis cache requires async initialization. Use create_cache_async instead.",
                ),
            ),
        )
    } else {
        let mut m = String::from_str("unsupported cache type: ");
        m.append(config.cache_type.as_str());
        Err(Error::Config(m))
    }
}

} // verus!
