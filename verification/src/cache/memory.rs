//! Memory cache implementation
//!
//! Bounded in-process store with least-recently-used eviction and
//! time-to-live expiry. Entries are kept in recency order, most recently
//! used first; the entry at the back is the eviction victim when a new key
//! arrives at capacity. Expired entries are reaped lazily: when an operation
//! observes one, and in a sweep right before an insertion would otherwise
//! evict a live entry.
//!
//! Every operation takes the current instant as a millisecond count, so that
//! expiry is decided by the caller's clock and nothing here reads the time.

use crate::utils::string::str_eq;
use vstd::prelude::*;
use vstd::seq_lib::*;

verus! {

/// Cache entry: an owned value and an optional absolute expiry instant in
/// milliseconds. `None` means the entry never expires.
pub struct CacheEntry {
    /// Stored value
    pub value: String,
    /// Instant after which the value no longer counts, if any
    pub expires_at: Option<u64>,
}

/// What a stored entry looks like in specifications.
pub ghost struct EntryModel {
    /// Stored value
    pub value: Seq<char>,
    /// Expiry instant, if any
    pub expires_at: Option<u64>,
}

/// The expiry instant that a time-to-live yields: `now + ttl`, saturating.
pub open spec fn spec_expiry(ttl: Option<u64>, now: u64) -> Option<u64> {
    match ttl {
        Some(d) => Some(
            if now + d > u64::MAX {
                u64::MAX
            } else {
                (now + d) as u64
            },
        ),
        None => None,
    }
}

/// Whether an entry with the given expiry instant is expired at `now`.
pub open spec fn spec_expired(expires_at: Option<u64>, now: u64) -> bool {
    match expires_at {
        Some(t) => t <= now,
        None => false,
    }
}

impl CacheEntry {
    /// The entry as specifications see it.
    pub open spec fn model(self) -> EntryModel {
        EntryModel { value: self.value@, expires_at: self.expires_at }
    }

    /// Create an entry; a time-to-live is turned into an absolute expiry
    /// instant, and `None` means the entry never expires.
    pub fn new(value: String, ttl: Option<u64>, now: u64) -> (r: Self)
        ensures
            r.model() == (EntryModel { value: value@, expires_at: spec_expiry(ttl, now) }),
    {
        let expires_at = match ttl {
            Some(d) => Some(now.saturating_add(d)),
            None => None,
        };
        CacheEntry { value, expires_at }
    }

    /// Whether the entry is expired at the given instant.
    pub fn is_expired(&self, now: u64) -> (r: bool)
        ensures
            r == spec_expired(self.expires_at, now),
    {
        match self.expires_at {
            Some(t) => t <= now,
            None => false,
        }
    }
}

/// The model of one stored pair: key characters and entry model.
pub open spec fn pair_model(p: (String, CacheEntry)) -> (Seq<char>, EntryModel) {
    (p.0@, p.1.model())
}

/// The model of a recency-ordered run of stored pairs.
pub open spec fn seq_model(s: Seq<(String, CacheEntry)>) -> Seq<(Seq<char>, EntryModel)> {
    Seq::new(s.len(), |i: int| pair_model(s[i]))
}

/// Predicate selecting the stored pairs that are still live at `now`.
pub open spec fn live_pair_pred(now: u64) -> spec_fn((String, CacheEntry)) -> bool {
    |p: (String, CacheEntry)| !spec_expired(p.1.expires_at, now)
}

/// Predicate selecting the model pairs that are still live at `now`.
pub open spec fn live_model_pred(now: u64) -> spec_fn((Seq<char>, EntryModel)) -> bool {
    |q: (Seq<char>, EntryModel)| !spec_expired(q.1.expires_at, now)
}

/// Whether the model holds the key.
pub open spec fn model_contains(m: Seq<(Seq<char>, EntryModel)>, k: Seq<char>) -> bool {
    exists|i: int| 0 <= i < m.len() && m[i].0 == k
}

/// The recency position of the key in the model.
pub open spec fn model_index_of(m: Seq<(Seq<char>, EntryModel)>, k: Seq<char>) -> int {
    choose|i: int| 0 <= i < m.len() && m[i].0 == k
}

/// The entry stored under the key.
pub open spec fn model_entry(m: Seq<(Seq<char>, EntryModel)>, k: Seq<char>) -> EntryModel {
    m[model_index_of(m, k)].1
}

/// Whether the key is present and not expired at `now`.
pub open spec fn model_live(m: Seq<(Seq<char>, EntryModel)>, k: Seq<char>, now: u64) -> bool {
    model_contains(m, k) && !spec_expired(model_entry(m, k).expires_at, now)
}

/// No key occurs twice in the model.
pub open spec fn model_nodup(m: Seq<(Seq<char>, EntryModel)>) -> bool {
    forall|i: int, j: int| 0 <= i < j < m.len() ==> m[i].0 != m[j].0
}

/// What a lookup returns: the live value, or nothing.
pub open spec fn spec_get(m: Seq<(Seq<char>, EntryModel)>, k: Seq<char>, now: u64) -> Option<
    Seq<char>,
> {
    if model_live(m, k, now) {
        Some(model_entry(m, k).value)
    } else {
        None
    }
}

/// The rest of the model after an insertion of key `k` at the front: an
/// existing entry for the key leaves, a new key at capacity first reclaims
/// expired entries and only then evicts the least recently used survivor.
pub open spec fn spec_set_rest(
    m: Seq<(Seq<char>, EntryModel)>,
    k: Seq<char>,
    now: u64,
    cap: int,
) -> Seq<(Seq<char>, EntryModel)> {
    if model_contains(m, k) {
        m.remove(model_index_of(m, k))
    } else if m.len() < cap {
        m
    } else {
        let swept = m.filter(live_model_pred(now));
        if swept.len() < cap {
            swept
        } else {
            swept.drop_last()
        }
    }
}

/// Memory cache: a capacity bound together with the stored entries in
/// recency order, most recently used first.
pub struct MemoryCache {
    capacity: usize,
    entries: Vec<(String, CacheEntry)>,
}

impl View for MemoryCache {
    type V = Seq<(Seq<char>, EntryModel)>;

    closed spec fn view(&self) -> Seq<(Seq<char>, EntryModel)> {
        seq_model(self.entries@)
    }
}

proof fn lemma_index_unique(m: Seq<(Seq<char>, EntryModel)>, k: Seq<char>, i: int)
    requires
        model_nodup(m),
        0 <= i < m.len(),
        m[i].0 == k,
    ensures
        model_contains(m, k),
        model_index_of(m, k) == i,
{
    assert(model_contains(m, k));
    let j = model_index_of(m, k);
    assert(0 <= j < m.len() && m[j].0 == k);
    if i < j {
        assert(false);
    } else if j < i {
        assert(false);
    }
}

proof fn lemma_seq_model_remove(s: Seq<(String, CacheEntry)>, i: int)
    requires
        0 <= i < s.len(),
    ensures
        seq_model(s.remove(i)) =~= seq_model(s).remove(i),
{
    s.remove_ensures(i);
}

proof fn lemma_remove_props(m: Seq<(Seq<char>, EntryModel)>, i: int)
    requires
        model_nodup(m),
        0 <= i < m.len(),
    ensures
        model_nodup(m.remove(i)),
        forall|jj: int| 0 <= jj < m.remove(i).len() ==> (#[trigger] m.remove(i)[jj]).0 != m[i].0,
{
    m.remove_ensures(i);
    let r = m.remove(i);
    assert forall|a: int, b: int| 0 <= a < b < r.len() implies r[a].0 != r[b].0 by {
        let ma = if a < i {
            a
        } else {
            a + 1
        };
        let mb = if b < i {
            b
        } else {
            b + 1
        };
        assert(r[a] == m[ma] && r[b] == m[mb]);
        assert(m[ma].0 != m[mb].0);
    }
    assert forall|jj: int| 0 <= jj < r.len() implies r[jj].0 != m[i].0 by {
        let mj = if jj < i {
            jj
        } else {
            jj + 1
        };
        assert(r[jj] == m[mj]);
        assert(m[mj].0 != m[i].0);
    }
}

proof fn lemma_seq_model_insert0(s: Seq<(String, CacheEntry)>, p: (String, CacheEntry))
    ensures
        seq_model(s.insert(0, p)) =~= seq![pair_model(p)] + seq_model(s),
{
    s.insert_ensures(0, p);
}

proof fn lemma_filter_elements(
    m: Seq<(Seq<char>, EntryModel)>,
    p: spec_fn((Seq<char>, EntryModel)) -> bool,
)
    ensures
        forall|i: int| 0 <= i < m.filter(p).len() ==> m.contains(#[trigger] m.filter(p)[i]),
{
    let f = m.filter(p);
    assert forall|i: int| 0 <= i < f.len() implies m.contains(f[i]) by {
        assert(f.contains(f[i]));
        m.lemma_filter_contains_rev(p, f[i]);
    }
}

proof fn lemma_filter_nodup(m: Seq<(Seq<char>, EntryModel)>, p: spec_fn((Seq<char>, EntryModel)) -> bool)
    requires
        model_nodup(m),
    ensures
        model_nodup(m.filter(p)),
    decreases m.len(),
{
    reveal(Seq::filter);
    if m.len() == 0 {
    } else {
        let t = m.drop_last();
        assert(model_nodup(t)) by {
            assert forall|a: int, b: int| 0 <= a < b < t.len() implies t[a].0 != t[b].0 by {
                assert(m[a].0 != m[b].0);
            }
        }
        lemma_filter_nodup(t, p);
        let ft = t.filter(p);
        if p(m.last()) {
            assert forall|i: int| 0 <= i < ft.len() implies ft[i].0 != m.last().0 by {
                assert(ft.contains(ft[i]));
                t.lemma_filter_contains_rev(p, ft[i]);
                let j = choose|j: int| 0 <= j < t.len() && t[j] == ft[i];
                assert(m[j] == t[j]);
                assert(m[j].0 != m[m.len() - 1].0);
            }
            assert(m.filter(p) == ft.push(m.last()));
            assert(model_nodup(ft.push(m.last())));
        } else {
            assert(m.filter(p) == ft);
        }
    }
}

proof fn lemma_seq_model_filter(s: Seq<(String, CacheEntry)>, now: u64)
    ensures
        seq_model(s.filter(live_pair_pred(now))) =~= seq_model(s).filter(live_model_pred(now)),
    decreases s.len(),
{
    reveal(Seq::filter);
    if s.len() == 0 {
    } else {
        let t = s.drop_last();
        lemma_seq_model_filter(t, now);
        let m = seq_model(s);
        assert(seq_model(t) =~= m.drop_last());
        assert(m.last() == pair_model(s.last()));
        assert(live_pair_pred(now)(s.last()) == live_model_pred(now)(m.last()));
        if live_pair_pred(now)(s.last()) {
            assert(s.filter(live_pair_pred(now)) == t.filter(live_pair_pred(now)).push(s.last()));
            assert(m.filter(live_model_pred(now)) == seq_model(t).filter(live_model_pred(now)).push(
                m.last(),
            ));
            assert(seq_model(t.filter(live_pair_pred(now)).push(s.last())) =~= seq_model(
                t.filter(live_pair_pred(now)),
            ).push(pair_model(s.last())));
        } else {
            assert(s.filter(live_pair_pred(now)) == t.filter(live_pair_pred(now)));
            assert(m.filter(live_model_pred(now)) == seq_model(t).filter(live_model_pred(now)));
        }
    }
}

impl MemoryCache {
    /// The capacity bound.
    pub closed spec fn cap(self) -> int {
        self.capacity as int
    }

    /// Well-formedness: the capacity is at least one, the stored entries
    /// never exceed it, and no key occurs twice.
    pub open spec fn wf(self) -> bool {
        1 <= self.cap() && self@.len() <= self.cap() && model_nodup(self@)
    }

    /// Create a new memory cache; a requested size of zero is normalized
    /// to one rather than rejected.
    pub fn new(max_size: usize) -> (r: Self)
        ensures
            r.wf(),
            r.cap() == if max_size == 0 {
                1int
            } else {
                max_size as int
            },
            r@ =~= Seq::<(Seq<char>, EntryModel)>::empty(),
    {
        let capacity = if max_size == 0 {
            1
        } else {
            max_size
        };
        MemoryCache { capacity, entries: Vec::new() }
    }

    /// Number of stored entries, expired ones included.
    pub fn len(&self) -> (r: usize)
        ensures
            r == self@.len(),
    {
        self.entries.len()
    }

    /// The capacity bound.
    pub fn capacity(&self) -> (r: usize)
        ensures
            r as int == self.cap(),
    {
        self.capacity
    }

    fn find_index(&self, key: &str) -> (r: Option<usize>)
        ensures
            match r {
                Some(i) => 0 <= i < self@.len() && self@[i as int].0 == key@,
                None => forall|j: int| 0 <= j < self@.len() ==> self@[j].0 != key@,
            },
    {
        let n = self.entries.len();
        let mut i: usize = 0;
        while i < n
            invariant
                i <= n,
                n == self.entries@.len(),
                forall|j: int| 0 <= j < i ==> seq_model(self.entries@)[j].0 != key@,
            decreases n - i,
        {
            if str_eq(self.entries[i].0.as_str(), key) {
                return Some(i);
            }
            i += 1;
        }
        None
    }

    /// Remove every expired entry, keeping the recency order of the rest.
    fn sweep_expired(&mut self, now: u64)
        ensures
            final(self).capacity == old(self).capacity,
            final(self).entries@ =~= old(self).entries@.filter(live_pair_pred(now)),
    {
        let ghost orig = self.entries@;
        let ghost mut j: int = 0;
        let mut i: usize = 0;
        while i < self.entries.len()
            invariant
                self.capacity == old(self).capacity,
                0 <= j <= orig.len(),
                i as int == orig.take(j).filter(live_pair_pred(now)).len(),
                self.entries@ =~= orig.take(j).filter(live_pair_pred(now)) + orig.skip(j),
            decreases self.entries@.len() - i,
        {
            proof {
                assert(j < orig.len());
                assert(self.entries@[i as int] == orig[j]);
                assert(orig.take(j + 1) =~= orig.take(j).push(orig[j]));
                orig.take(j).lemma_filter_push(orig[j], live_pair_pred(now));
                assert(orig.skip(j) =~= seq![orig[j]] + orig.skip(j + 1));
            }
            if self.entries[i].1.is_expired(now) {
                self.entries.remove(i);
                proof {
                    assert(self.entries@ =~= orig.take(j + 1).filter(live_pair_pred(now))
                        + orig.skip(j + 1));
                    j = j + 1;
                }
            } else {
                i += 1;
                proof {
                    assert(self.entries@ =~= orig.take(j + 1).filter(live_pair_pred(now))
                        + orig.skip(j + 1));
                    j = j + 1;
                }
            }
        }
        proof {
            assert(j == orig.len());
            assert(orig.take(j) =~= orig);
            assert(self.entries@ =~= orig.filter(live_pair_pred(now)));
        }
    }

    /// Look the key up. An absent or expired entry yields nothing, and an
    /// observed expired entry is removed on the spot; a live entry moves to
    /// the front of the recency order and its value is returned.
    pub fn get(&mut self, key: &str, now: u64) -> (r: Option<String>)
        requires
            old(self).wf(),
        ensures
            final(self).wf(),
            final(self).cap() == old(self).cap(),
            match r {
                Some(v) => model_live(old(self)@, key@, now) && v@ == model_entry(
                    old(self)@,
                    key@,
                ).value && final(self)@ =~= seq![(key@, model_entry(old(self)@, key@))] + old(
                    self,
                )@.remove(model_index_of(old(self)@, key@)),
                None => !model_live(old(self)@, key@, now) && if model_contains(old(self)@, key@) {
                    final(self)@ =~= old(self)@.remove(model_index_of(old(self)@, key@))
                } else {
                    final(self)@ =~= old(self)@
                },
            },
    {
        let idx = self.find_index(key);
        match idx {
            None => None,
            Some(i) => {
                proof {
                    lemma_index_unique(self@, key@, i as int);
                }
                if self.entries[i].1.is_expired(now) {
                    self.entries.remove(i);
                    proof {
                        lemma_seq_model_remove(old(self).entries@, i as int);
                    }
                    None
                } else {
                    let pair = self.entries.remove(i);
                    let value = pair.1.value.clone();
                    self.entries.insert(0, pair);
                    proof {
                        lemma_seq_model_remove(old(self).entries@, i as int);
                        assert(self@ =~= seq![(key@, model_entry(old(self)@, key@))] + old(
                            self,
                        )@.remove(i as int));
                    }
                    Some(value)
                }
            },
        }
    }

    /// Insert or replace the entry under the key and move it to the front.
    /// Replacing never counts against capacity; a new key at capacity first
    /// reclaims expired entries and only then evicts the least recently
    /// used survivor.
    pub fn set(&mut self, key: String, value: String, ttl: Option<u64>, now: u64)
        requires
            old(self).wf(),
        ensures
            final(self).wf(),
            final(self).cap() == old(self).cap(),
            final(self)@ =~= seq![
                (key@, EntryModel { value: value@, expires_at: spec_expiry(ttl, now) }),
            ] + spec_set_rest(old(self)@, key@, now, old(self).cap()),
    {
        let entry = CacheEntry::new(value, ttl, now);
        let idx = self.find_index(key.as_str());
        match idx {
            Some(i) => {
                proof {
                    lemma_index_unique(self@, key@, i as int);
                }
                self.entries.remove(i);
                proof {
                    lemma_seq_model_remove(old(self).entries@, i as int);
                    lemma_remove_props(old(self)@, i as int);
                }
            },
            None => {
                if self.entries.len() == self.capacity {
                    self.sweep_expired(now);
                    proof {
                        lemma_seq_model_filter(old(self).entries@, now);
                        old(self)@.lemma_filter_len(live_model_pred(now));
                        lemma_filter_nodup(old(self)@, live_model_pred(now));
                        lemma_filter_elements(old(self)@, live_model_pred(now));
                        assert forall|jj: int| 0 <= jj < self@.len() implies (#[trigger] self@[jj]).0
                            != key@ by {
                            assert(old(self)@.contains(self@[jj]));
                            let j = choose|j: int|
                                0 <= j < old(self)@.len() && old(self)@[j] == self@[jj];
                            assert(old(self)@[j].0 != key@);
                        }
                    }
                    if self.entries.len() == self.capacity {
                        let ghost swept = self@;
                        self.entries.pop();
                        proof {
                            assert(self@ =~= swept.drop_last());
                            assert forall|a: int, b: int|
                                0 <= a < b < self@.len() implies self@[a].0 != self@[b].0 by {
                                assert(swept[a].0 != swept[b].0);
                            }
                        }
                    }
                }
            },
        }
        let ghost rest = self@;
        let ghost pre_entries = self.entries@;
        let ghost gpair = (key, entry);
        proof {
            assert(rest =~= spec_set_rest(old(self)@, key@, now, old(self).cap()));
            assert(forall|jj: int| 0 <= jj < rest.len() ==> (#[trigger] rest[jj]).0 != key@);
            assert(model_nodup(rest));
            assert(rest.len() < old(self).cap());
        }
        self.entries.insert(0, (key, entry));
        proof {
            lemma_seq_model_insert0(pre_entries, gpair);
            assert(self@ =~= seq![
                (key@, EntryModel { value: value@, expires_at: spec_expiry(ttl, now) }),
            ] + rest);
        }
    }

    /// Remove the entry under the key; an absent key is a no-op.
    pub fn delete(&mut self, key: &str)
        requires
            old(self).wf(),
        ensures
            final(self).wf(),
            final(self).cap() == old(self).cap(),
            !model_contains(final(self)@, key@),
            final(self)@ =~= if model_contains(old(self)@, key@) {
                old(self)@.remove(model_index_of(old(self)@, key@))
            } else {
                old(self)@
            },
    {
        let idx = self.find_index(key);
        match idx {
            None => {
            },
            Some(i) => {
                proof {
                    lemma_index_unique(self@, key@, i as int);
                }
                self.entries.remove(i);
                proof {
                    lemma_seq_model_remove(old(self).entries@, i as int);
                }
            },
        }
    }

    /// Remove every entry.
    pub fn clear(&mut self)
        requires
            old(self).wf(),
        ensures
            final(self).wf(),
            final(self).cap() == old(self).cap(),
            final(self)@ =~= Seq::<(Seq<char>, EntryModel)>::empty(),
    {
        self.entries.clear();
    }

    /// Whether the key holds a live entry. The probe leaves the recency
    /// order alone, but an observed expired entry is removed on the spot.
    pub fn contains_key(&mut self, key: &str, now: u64) -> (r: bool)
        requires
            old(self).wf(),
        ensures
            final(self).wf(),
            final(self).cap() == old(self).cap(),
            r == model_live(old(self)@, key@, now),
            final(self)@ =~= if model_contains(old(self)@, key@) && !model_live(
                old(self)@,
                key@,
                now,
            ) {
                old(self)@.remove(model_index_of(old(self)@, key@))
            } else {
                old(self)@
            },
    {
        let idx = self.find_index(key);
        match idx {
            None => false,
            Some(i) => {
                proof {
                    lemma_index_unique(self@, key@, i as int);
                }
                if self.entries[i].1.is_expired(now) {
                    self.entries.remove(i);
                    proof {
                        lemma_seq_model_remove(old(self).entries@, i as int);
                    }
                    false
                } else {
                    true
                }
            },
        }
    }
}

proof fn lemma_self_elements(m: Seq<(Seq<char>, EntryModel)>)
    ensures
        forall|j: int| 0 <= j < m.len() ==> m.contains(#[trigger] m[j]),
{
    assert forall|j: int| 0 <= j < m.len() implies m.contains(m[j]) by {
        assert(exists|w: int| 0 <= w < m.len() && m[w] == m[j]) by {
            assert(m[j] == m[j]);
        }
    }
}

proof fn lemma_remove_elements(m: Seq<(Seq<char>, EntryModel)>, i: int)
    requires
        0 <= i < m.len(),
    ensures
        forall|j: int| 0 <= j < m.remove(i).len() ==> m.contains(#[trigger] m.remove(i)[j]),
{
    m.remove_ensures(i);
    let r = m.remove(i);
    assert forall|j: int| 0 <= j < r.len() implies m.contains(r[j]) by {
        let mj = if j < i {
            j
        } else {
            j + 1
        };
        assert(r[j] == m[mj]);
        assert(m.contains(m[mj])) by {
            assert(exists|w: int| 0 <= w < m.len() && m[w] == m[mj]) by {
                assert(m[mj] == m[mj]);
            }
        }
    }
}

proof fn lemma_refresh_elements(m: Seq<(Seq<char>, EntryModel)>, i: int)
    requires
        0 <= i < m.len(),
    ensures
        forall|j: int|
            0 <= j < (seq![m[i]] + m.remove(i)).len() ==> m.contains(
                #[trigger] (seq![m[i]] + m.remove(i))[j],
            ),
{
    m.remove_ensures(i);
    lemma_remove_elements(m, i);
    let f = seq![m[i]] + m.remove(i);
    assert forall|j: int| 0 <= j < f.len() implies m.contains(f[j]) by {
        if j == 0 {
            assert(f[0] == m[i]);
            assert(m.contains(m[i])) by {
                assert(exists|w: int| 0 <= w < m.len() && m[w] == m[i]) by {
                    assert(m[i] == m[i]);
                }
            }
        } else {
            assert(f[j] == m.remove(i)[j - 1]);
        }
    }
}

proof fn lemma_rearranged_entries(
    m1: Seq<(Seq<char>, EntryModel)>,
    m2: Seq<(Seq<char>, EntryModel)>,
)
    requires
        model_nodup(m1),
        model_nodup(m2),
        forall|i: int| 0 <= i < m2.len() ==> m1.contains(#[trigger] m2[i]),
    ensures
        forall|k: Seq<char>|
            #[trigger] model_contains(m2, k) ==> model_contains(m1, k) && model_entry(m2, k)
                == model_entry(m1, k),
{
    assert forall|k: Seq<char>| model_contains(m2, k) implies model_contains(m1, k)
        && model_entry(m2, k) == model_entry(m1, k) by {
        let i2 = model_index_of(m2, k);
        assert(0 <= i2 < m2.len() && m2[i2].0 == k);
        lemma_index_unique(m2, k, i2);
        assert(m1.contains(m2[i2]));
        let i1 = choose|i: int| 0 <= i < m1.len() && m1[i] == m2[i2];
        lemma_index_unique(m1, k, i1);
    }
}

impl crate::cache::Cache for MemoryCache {
    open spec fn model(&self) -> Seq<(Seq<char>, EntryModel)> {
        self@
    }

    open spec fn inv(&self) -> bool {
        self.wf()
    }

    fn get(&mut self, key: &str, now: u64) -> (r: Option<String>) {
        let r = MemoryCache::get(self, key, now);
        proof {
            let mo = old(self)@;
            let mf = self@;
            if model_contains(mo, key@) {
                let i = model_index_of(mo, key@);
                if model_live(mo, key@, now) {
                    lemma_refresh_elements(mo, i);
                } else {
                    lemma_remove_elements(mo, i);
                }
            } else {
                lemma_self_elements(mo);
            }
            lemma_rearranged_entries(mo, mf);
        }
        r
    }

    fn set(&mut self, key: String, value: String, ttl: Option<u64>, now: u64) {
        let ghost gkey = key@;
        let ghost gvalue = value@;
        let ghost gcap = self.cap();
        MemoryCache::set(self, key, value, ttl, now);
        proof {
            let mo = old(self)@;
            let mf = self@;
            let rest = spec_set_rest(mo, gkey, now, gcap);
            assert(mf =~= seq![
                (gkey, EntryModel { value: gvalue, expires_at: spec_expiry(ttl, now) }),
            ] + rest);
            assert(model_nodup(rest)) by {
                assert forall|a: int, b: int| 0 <= a < b < rest.len() implies rest[a].0
                    != rest[b].0 by {
                    assert(rest[a] == mf[a + 1] && rest[b] == mf[b + 1]);
                    assert(mf[a + 1].0 != mf[b + 1].0);
                }
            }
            if model_contains(mo, gkey) {
                lemma_remove_elements(mo, model_index_of(mo, gkey));
            } else if mo.len() < gcap {
                lemma_self_elements(mo);
            } else {
                lemma_filter_elements(mo, live_model_pred(now));
                let swept = mo.filter(live_model_pred(now));
                if swept.len() >= gcap {
                    assert forall|j: int| 0 <= j < rest.len() implies mo.contains(
                        #[trigger] rest[j],
                    ) by {
                        assert(rest[j] == swept[j]);
                    }
                }
            }
            lemma_rearranged_entries(mo, rest);
            lemma_index_unique(mf, gkey, 0);
            assert forall|k: Seq<char>| k != gkey && #[trigger] model_contains(mf, k) implies
                model_contains(mo, k) && model_entry(mf, k) == model_entry(mo, k) by {
                let imf = model_index_of(mf, k);
                assert(0 <= imf < mf.len() && mf[imf].0 == k);
                assert(imf != 0);
                assert(mf[imf] == rest[imf - 1]);
                lemma_index_unique(rest, k, imf - 1);
                assert(model_contains(rest, k));
                assert(model_entry(mf, k) == mf[imf].1);
                assert(model_entry(rest, k) == rest[imf - 1].1);
            }
        }
    }

    fn delete(&mut self, key: &str) {
        MemoryCache::delete(self, key);
        proof {
            let mo = old(self)@;
            let mf = self@;
            if model_contains(mo, key@) {
                let i = model_index_of(mo, key@);
                lemma_remove_elements(mo, i);
                lemma_rearranged_entries(mo, mf);
                assert forall|k: Seq<char>| k != key@ && model_contains(mo, k) implies
                    model_contains(mf, k) by {
                    let j = model_index_of(mo, k);
                    assert(0 <= j < mo.len() && mo[j].0 == k);
                    assert(j != i);
                    let jr = if j < i {
                        j
                    } else {
                        j - 1
                    };
                    mo.remove_ensures(i);
                    assert(mf[jr] == mo[j]);
                }
            } else {
                lemma_self_elements(mo);
                lemma_rearranged_entries(mo, mf);
            }
        }
    }

    fn clear(&mut self) {
        MemoryCache::clear(self);
    }

    fn contains_key(&mut self, key: &str, now: u64) -> (r: bool) {
        let r = MemoryCache::contains_key(self, key, now);
        proof {
            let mo = old(self)@;
            let mf = self@;
            if model_contains(mo, key@) && !model_live(mo, key@, now) {
                lemma_remove_elements(mo, model_index_of(mo, key@));
            } else {
                lemma_self_elements(mo);
            }
            lemma_rearranged_entries(mo, mf);
        }
        r
    }
}

/// Capacity invariant: a well-formed memory backend never holds more
/// entries than its capacity bound. Every operation preserves
/// well-formedness, so this holds after any run of operations.
pub proof fn lemma_capacity_invariant(c: MemoryCache)
    requires
        c.wf(),
    ensures
        c@.len() <= c.cap(),
{
}

/// Time-to-live correctness: an entry stored with a time-to-live is live
/// at every instant before `now + ttl` and expired from that instant on;
/// an entry stored without one never expires. A deadline beyond the range
/// of the clock saturates, so the statement asks for one within it.
pub proof fn lemma_ttl_expiry(ttl: u64, now: u64, t: u64)
    requires
        now + ttl <= u64::MAX,
    ensures
        t < now + ttl ==> !spec_expired(spec_expiry(Some(ttl), now), t),
        now + ttl <= t ==> spec_expired(spec_expiry(Some(ttl), now), t),
        !spec_expired(spec_expiry(None, now), t),
{
}

/// A presence probe and a lookup agree: on one and the same state and
/// instant, the probe answers true exactly when a lookup would return a
/// value.
pub proof fn lemma_probe_matches_lookup(m: Seq<(Seq<char>, EntryModel)>, k: Seq<char>, now: u64)
    ensures
        model_live(m, k, now) <==> spec_get(m, k, now) is Some,
{
}

/// Clearing is complete: once the state is empty, a lookup misses for
/// every key at every instant.
pub proof fn lemma_clear_completeness(m: Seq<(Seq<char>, EntryModel)>, now: u64)
    requires
        m.len() == 0,
    ensures
        forall|k: Seq<char>| #[trigger] spec_get(m, k, now) is None,
{
}

} // verus!

