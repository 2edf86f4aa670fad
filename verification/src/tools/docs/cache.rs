//! Document cache module
//!
//! The domain key builder and its cache front: pure functions that turn
//! domain parameters into namespaced string keys, each family paired with
//! its own time-to-live, and a thin service that reads and writes a cache
//! backend under those keys.

use crate::cache::memory::{model_contains, model_entry, model_live, spec_expiry, EntryModel};
use crate::cache::Cache;
use crate::utils::string::{spec_u64_string, u64_to_string};
use vstd::prelude::*;
use vstd::string::StringExecFns;

verus! {

/// How long cached documents of a subject live, in milliseconds: one hour.
pub const CRATE_DOCS_TTL_MS: u64 = 3600000;

/// How long cached item documentation lives, in milliseconds: thirty minutes.
pub const ITEM_DOCS_TTL_MS: u64 = 1800000;

/// How long cached search results live, in milliseconds: five minutes.
pub const SEARCH_TTL_MS: u64 = 300000;

/// The key under which documents of a subject are cached.
pub open spec fn spec_crate_key(name: Seq<char>, version: Option<Seq<char>>) -> Seq<char> {
    match version {
        Some(v) => "crate:"@ + name + ":"@ + v,
        None => "crate:"@ + name,
    }
}

/// The key under which search results are cached.
pub open spec fn spec_search_key(query: Seq<char>, limit: int) -> Seq<char> {
    "search:"@ + query + ":"@ + spec_u64_string(limit)
}

/// The key under which item documentation is cached.
pub open spec fn spec_item_key(
    name: Seq<char>,
    item_path: Seq<char>,
    version: Option<Seq<char>>,
) -> Seq<char> {
    match version {
        Some(v) => "item:"@ + name + ":"@ + v + ":"@ + item_path,
        None => "item:"@ + name + ":"@ + item_path,
    }
}

/// The optional version string as specifications see it.
pub open spec fn spec_version(version: Option<&str>) -> Option<Seq<char>> {
    match version {
        Some(v) => Some(v@),
        None => None,
    }
}

/// Build the cache key for the documents of a subject.
pub fn crate_cache_key(crate_name: &str, version: Option<&str>) -> (r: String)
    ensures
        r@ == spec_crate_key(crate_name@, spec_version(version)),
{
    let mut s = String::from_str("crate:");
    s.append(crate_name);
    match version {
        Some(v) => {
            s.append(":");
            s.append(v);
        },
        None => {
        },
    }
    s
}

/// Build the cache key for search results.
pub fn search_cache_key(query: &str, limit: u32) -> (r: String)
    ensures
        r@ == spec_search_key(query@, limit as int),
{
    let mut s = String::from_str("search:");
    s.append(query);
    s.append(":");
    let digits = u64_to_string(limit as u64);
    s.append(digits.as_str());
    s
}

/// Build the cache key for item documentation.
pub fn item_cache_key(crate_name: &str, item_path: &str, version: Option<&str>) -> (r: String)
    ensures
        r@ == spec_item_key(crate_name@, item_path@, spec_version(version)),
{
    let mut s = String::from_str("item:");
    s.append(crate_name);
    s.append(":");
    match version {
        Some(v) => {
            s.append(v);
            s.append(":");
        },
        None => {
        },
    }
    s.append(item_path);
    s
}

/// Key-family isolation: the key of a subject alone and the key of the same
/// subject at some version are always distinct, whatever the names are, so
/// the two entries have independent lifecycles in every backend.
pub proof fn lemma_crate_key_versions_distinct(name: Seq<char>, version: Seq<char>)
    ensures
        spec_crate_key(name, None) != spec_crate_key(name, Some(version)),
{
    reveal_strlit("crate:");
    reveal_strlit(":");
    assert(spec_crate_key(name, None).len() == 6 + name.len());
    assert(spec_crate_key(name, Some(version)).len() == 7 + name.len() + version.len());
}

/// Document cache service: a cache backend read and written under the
/// domain keys, each key family with its own time-to-live.
pub struct DocCache<C: Cache> {
    cache: C,
}

impl<C: Cache> DocCache<C> {
    /// The backend's invariant.
    pub closed spec fn inv(&self) -> bool {
        self.cache.inv()
    }

    /// The stored entries as specifications see them.
    pub closed spec fn model(&self) -> Seq<(Seq<char>, EntryModel)> {
        self.cache.model()
    }

    /// Create a new document cache over the given backend.
    pub fn new(cache: C) -> (r: Self)
        requires
            cache.inv(),
        ensures
            r.inv(),
            r.model() == cache.model(),
    {
        DocCache { cache }
    }

    /// Get the cached documents of a subject.
    pub fn get_crate_docs(&mut self, crate_name: &str, version: Option<&str>, now: u64) -> (r:
        Option<String>)
        requires
            old(self).inv(),
        ensures
            final(self).inv(),
            (match r {
                Some(v) => model_live(
                    old(self).model(),
                    spec_crate_key(crate_name@, spec_version(version)),
                    now,
                ) && v@ == model_entry(
                    old(self).model(),
                    spec_crate_key(crate_name@, spec_version(version)),
                ).value,
                None => !model_live(
                    old(self).model(),
                    spec_crate_key(crate_name@, spec_version(version)),
                    now,
                ),
            }),
            forall|k: Seq<char>|
                #[trigger] model_contains(final(self).model(), k) ==> model_contains(
                    old(self).model(),
                    k,
                ) && model_entry(final(self).model(), k) == model_entry(old(self).model(), k),
    {
        let key = crate_cache_key(crate_name, version);
        self.cache.get(key.as_str(), now)
    }

    /// Cache the documents of a subject for one hour.
    pub fn set_crate_docs(&mut self, crate_name: &str, version: Option<&str>, content: String, now: u64)
        requires
            old(self).inv(),
        ensures
            final(self).inv(),
            model_contains(final(self).model(), spec_crate_key(crate_name@, spec_version(version))),
            model_entry(final(self).model(), spec_crate_key(crate_name@, spec_version(version)))
                == (EntryModel {
                value: content@,
                expires_at: spec_expiry(Some(CRATE_DOCS_TTL_MS), now),
            }),
            forall|k: Seq<char>|
                k != spec_crate_key(crate_name@, spec_version(version)) && #[trigger] model_contains(
                    final(self).model(),
                    k,
                ) ==> model_contains(old(self).model(), k) && model_entry(final(self).model(), k)
                    == model_entry(old(self).model(), k),
    {
        let key = crate_cache_key(crate_name, version);
        self.cache.set(key, content, Some(CRATE_DOCS_TTL_MS), now);
    }

    /// Get cached search results.
    pub fn get_search_results(&mut self, query: &str, limit: u32, now: u64) -> (r: Option<String>)
        requires
            old(self).inv(),
        ensures
            final(self).inv(),
            (match r {
                Some(v) => model_live(
                    old(self).model(),
                    spec_search_key(query@, limit as int),
                    now,
                ) && v@ == model_entry(old(self).model(), spec_search_key(query@, limit as int)).value,
                None => !model_live(old(self).model(), spec_search_key(query@, limit as int), now),
            }),
            forall|k: Seq<char>|
                #[trigger] model_contains(final(self).model(), k) ==> model_contains(
                    old(self).model(),
                    k,
                ) && model_entry(final(self).model(), k) == model_entry(old(self).model(), k),
    {
        let key = search_cache_key(query, limit);
        self.cache.get(key.as_str(), now)
    }

    /// Cache search results for five minutes.
    pub fn set_search_results(&mut self, query: &str, limit: u32, content: String, now: u64)
        requires
            old(self).inv(),
        ensures
            final(self).inv(),
            model_contains(final(self).model(), spec_search_key(query@, limit as int)),
            model_entry(final(self).model(), spec_search_key(query@, limit as int)) == (EntryModel {
                value: content@,
                expires_at: spec_expiry(Some(SEARCH_TTL_MS), now),
            }),
            forall|k: Seq<char>|
                k != spec_search_key(query@, limit as int) && #[trigger] model_contains(
                    final(self).model(),
                    k,
                ) ==> model_contains(old(self).model(), k) && model_entry(final(self).model(), k)
                    == model_entry(old(self).model(), k),
    {
        let key = search_cache_key(query, limit);
        self.cache.set(key, content, Some(SEARCH_TTL_MS), now);
    }

    /// Get cached item documentation.
    pub fn get_item_docs(
        &mut self,
        crate_name: &str,
        item_path: &str,
        version: Option<&str>,
        now: u64,
    ) -> (r: Option<String>)
        requires
            old(self).inv(),
        ensures
            final(self).inv(),
            (match r {
                Some(v) => model_live(
                    old(self).model(),
                    spec_item_key(crate_name@, item_path@, spec_version(version)),
                    now,
                ) && v@ == model_entry(
                    old(self).model(),
                    spec_item_key(crate_name@, item_path@, spec_version(version)),
                ).value,
                None => !model_live(
                    old(self).model(),
                    spec_item_key(crate_name@, item_path@, spec_version(version)),
                    now,
                ),
            }),
            forall|k: Seq<char>|
                #[trigger] model_contains(final(self).model(), k) ==> model_contains(
                    old(self).model(),
                    k,
                ) && model_entry(final(self).model(), k) == model_entry(old(self).model(), k),
    {
        let key = item_cache_key(crate_name, item_path, version);
        self.cache.get(key.as_str(), now)
    }

    /// Cache item documentation for thirty minutes.
    pub fn set_item_docs(
        &mut self,
        crate_name: &str,
        item_path: &str,
        version: Option<&str>,
        content: String,
        now: u64,
    )
        requires
            old(self).inv(),
        ensures
            final(self).inv(),
            model_contains(
                final(self).model(),
                spec_item_key(crate_name@, item_path@, spec_version(version)),
            ),
            model_entry(
                final(self).model(),
                spec_item_key(crate_name@, item_path@, spec_version(version)),
            ) == (EntryModel {
                value: content@,
                expires_at: spec_expiry(Some(ITEM_DOCS_TTL_MS), now),
            }),
            forall|k: Seq<char>|
                k != spec_item_key(crate_name@, item_path@, spec_version(version))
                    && #[trigger] model_contains(final(self).model(), k) ==> model_contains(
                    old(self).model(),
                    k,
                ) && model_entry(final(self).model(), k) == model_entry(old(self).model(), k),
    {
        let key = item_cache_key(crate_name, item_path, version);
        self.cache.set(key, content, Some(ITEM_DOCS_TTL_MS), now);
    }

    /// Clear every cached entry.
    pub fn clear(&mut self)
        requires
            old(self).inv(),
        ensures
            final(self).inv(),
            final(self).model().len() == 0,
    {
        self.cache.clear();
    }
}

} // verus!
