//! Metadata cache for the VFS.
//!
//! SAF calls are slow (tens to hundreds of milliseconds each), so file metadata is
//! kept for a short time. Entries are keyed by path components and expire after a
//! time-to-live; when the cache is full, the oldest entry makes room.
//!
//! Times are nanoseconds on the cache's own monotonic clock (counted from when the
//! cache was made). Each operation has a variant taking the current time, which
//! holds the logic, and one reading the clock.

use vstd::prelude::*;

use crate::clock::{instant_now, nanos_since};
use crate::vfs::keyed::{distinct_keys, find_key, key_of, keyed_map, lemma_keyed_map, put, remove_at, Keyed};
use crate::vfs::path::{comps_prefix, comps_view, components, path_components};
use crate::vfs::provider::{same_metadata, FileMetadata};

verus! {

/// A cached record and when it was stored.
pub struct CacheEntry {
    pub metadata: FileMetadata,
    pub inserted_at: u128,
}

/// Cache statistics for monitoring.
#[derive(Debug, Clone, Copy)]
pub struct CacheStats {
    pub hits: u64,
    pub misses: u64,
    pub evictions: u64,
    pub insertions: u64,
}

impl CacheStats {
    /// All counters at zero.
    pub fn zero() -> (s: Self)
        ensures
            s == (CacheStats { hits: 0, misses: 0, evictions: 0, insertions: 0 }),
    {
        CacheStats { hits: 0, misses: 0, evictions: 0, insertions: 0 }
    }
}

impl Default for CacheStats {
    fn default() -> (s: Self)
        ensures
            s == (CacheStats { hits: 0, misses: 0, evictions: 0, insertions: 0 }),
    {
        CacheStats::zero()
    }
}

/// The age of an entry stored at `inserted_at`, at time `now` (zero if `now` is
/// earlier).
pub open spec fn age(inserted_at: u128, now: u128) -> int {
    if now >= inserted_at {
        now - inserted_at
    } else {
        0
    }
}

/// An entry is still valid: younger than the time-to-live.
pub open spec fn is_fresh(e: CacheEntry, ttl: u128, now: u128) -> bool {
    age(e.inserted_at, now) < ttl
}

/// A lookup of key `k` at time `now` in the entries `m` with statistics `s`: a
/// fresh entry is a hit and gives its metadata; an expired one is removed (an
/// eviction) and is a miss, as is a key with no entry. `m2` and `s2` are the
/// entries and statistics afterwards.
pub open spec fn lookup_step(
    m: Map<Seq<Seq<char>>, CacheEntry>,
    s: CacheStats,
    ttl: u128,
    k: Seq<Seq<char>>,
    now: u128,
    r: Option<FileMetadata>,
    m2: Map<Seq<Seq<char>>, CacheEntry>,
    s2: CacheStats,
) -> bool {
    if m.dom().contains(k) && is_fresh(m[k], ttl, now) {
        &&& r matches Some(md) && same_metadata(md, m[k].metadata)
        &&& m2 == m
        &&& s2 == (CacheStats { hits: (s.hits + 1) as u64, ..s })
    } else if m.dom().contains(k) {
        &&& r is None
        &&& m2 == m.remove(k)
        &&& s2 == (CacheStats { misses: (s.misses + 1) as u64, evictions: (s.evictions + 1) as u64, ..s })
    } else {
        &&& r is None
        &&& m2 == m
        &&& s2 == (CacheStats { misses: (s.misses + 1) as u64, ..s })
    }
}

/// Storing entry `e` under `k` in the entries `m`: when `m` holds at least
/// `capacity` entries (and any), one entry with the oldest stamp is evicted first.
pub open spec fn insert_step(
    m: Map<Seq<Seq<char>>, CacheEntry>,
    s: CacheStats,
    capacity: usize,
    k: Seq<Seq<char>>,
    e: CacheEntry,
    m2: Map<Seq<Seq<char>>, CacheEntry>,
    s2: CacheStats,
) -> bool {
    if m.dom().len() >= capacity && m.dom().len() > 0 {
        &&& exists|v: Seq<Seq<char>>| #[trigger] m.dom().contains(v)
            && (forall|w: Seq<Seq<char>>| #[trigger] m.dom().contains(w) ==> m[v].inserted_at <= m[w].inserted_at)
            && m2 == m.remove(v).insert(k, e)
        &&& s2 == (CacheStats { insertions: (s.insertions + 1) as u64, evictions: (s.evictions + 1) as u64, ..s })
    } else {
        &&& m2 == m.insert(k, e)
        &&& s2 == (CacheStats { insertions: (s.insertions + 1) as u64, ..s })
    }
}

/// Removing the entries of `m` expired at time `now`: exactly the fresh ones stay,
/// unchanged, and each removed one counts as an eviction; `count` is how many went.
pub open spec fn expire_step(
    m: Map<Seq<Seq<char>>, CacheEntry>,
    s: CacheStats,
    ttl: u128,
    now: u128,
    count: usize,
    m2: Map<Seq<Seq<char>>, CacheEntry>,
    s2: CacheStats,
) -> bool {
    &&& forall|k: Seq<Seq<char>>| #[trigger] m2.dom().contains(k) <==> m.dom().contains(k) && is_fresh(m[k], ttl, now)
    &&& forall|k: Seq<Seq<char>>| #[trigger] m2.dom().contains(k) ==> m2[k] == m[k]
    &&& count == m.dom().len() - m2.dom().len()
    &&& s2 == (CacheStats { evictions: (s.evictions + count) as u64, ..s })
}

/// The default time-to-live: five seconds.
pub const DEFAULT_TTL_NANOS: u128 = 5_000_000_000;

/// The default capacity.
pub const DEFAULT_MAX_ENTRIES: usize = 10000;

/// Metadata cache for VFS operations.
pub struct MetadataCache {
    entries: Vec<Keyed<CacheEntry>>,
    ttl_nanos: u128,
    max_entries: usize,
    stats: CacheStats,
    epoch: std::time::Instant,
}

impl MetadataCache {
    /// The cached entries, keyed by path components.
    pub closed spec fn entries_map(&self) -> Map<Seq<Seq<char>>, CacheEntry> {
        keyed_map(self.entries@)
    }

    /// The time-to-live, in nanoseconds.
    pub closed spec fn ttl(&self) -> u128 {
        self.ttl_nanos
    }

    /// The number of entries at which an insertion first evicts the oldest entry.
    pub closed spec fn capacity(&self) -> usize {
        self.max_entries
    }

    /// The statistics.
    pub closed spec fn stats_view(&self) -> CacheStats {
        self.stats
    }

    pub closed spec fn wf(&self) -> bool {
        distinct_keys(self.entries@)
    }

    /// An empty cache with a five-second time-to-live and room for 10000 entries.
    pub fn new() -> (c: Self)
        ensures
            c.wf(),
            c.entries_map() == Map::<Seq<Seq<char>>, CacheEntry>::empty(),
            c.ttl() == DEFAULT_TTL_NANOS,
            c.capacity() == DEFAULT_MAX_ENTRIES,
            c.stats_view() == (CacheStats { hits: 0, misses: 0, evictions: 0, insertions: 0 }),
    {
        MetadataCache {
            entries: Vec::new(),
            ttl_nanos: DEFAULT_TTL_NANOS,
            max_entries: DEFAULT_MAX_ENTRIES,
            stats: CacheStats::zero(),
            epoch: instant_now(),
        }
    }

    /// An empty cache with the given time-to-live (nanoseconds).
    pub fn with_ttl(ttl_nanos: u128) -> (c: Self)
        ensures
            c.wf(),
            c.entries_map() == Map::<Seq<Seq<char>>, CacheEntry>::empty(),
            c.ttl() == ttl_nanos,
            c.capacity() == DEFAULT_MAX_ENTRIES,
            c.stats_view() == (CacheStats { hits: 0, misses: 0, evictions: 0, insertions: 0 }),
    {
        let mut c = MetadataCache::new();
        c.ttl_nanos = ttl_nanos;
        c
    }

    /// An empty cache with the given capacity.
    pub fn with_capacity(max_entries: usize) -> (c: Self)
        ensures
            c.wf(),
            c.entries_map() == Map::<Seq<Seq<char>>, CacheEntry>::empty(),
            c.ttl() == DEFAULT_TTL_NANOS,
            c.capacity() == max_entries,
            c.stats_view() == (CacheStats { hits: 0, misses: 0, evictions: 0, insertions: 0 }),
    {
        let mut c = MetadataCache::new();
        c.max_entries = max_entries;
        c
    }

    /// The current time on the cache's clock.
    fn now(&self) -> u128 {
        nanos_since(&self.epoch)
    }

    /// Looks `path` up at time `now`. A fresh entry is a hit and its metadata is
    /// returned; an expired one is removed (an eviction) and counts as a miss, as
    /// does a path with no entry.
    pub fn get_at(&mut self, path: &str, now: u128) -> (r: Option<FileMetadata>)
        requires
            old(self).wf(),
            old(self).stats_view().hits < u64::MAX,
            old(self).stats_view().misses < u64::MAX,
            old(self).stats_view().evictions < u64::MAX,
        ensures
            final(self).wf(),
            final(self).ttl() == old(self).ttl(),
            final(self).capacity() == old(self).capacity(),
            lookup_step(
                old(self).entries_map(),
                old(self).stats_view(),
                old(self).ttl(),
                path_components(path@),
                now,
                r,
                final(self).entries_map(),
                final(self).stats_view(),
            ),
    {
        let key = components(path);
        proof {
            lemma_keyed_map(self.entries@);
        }
        match find_key(&self.entries, &key) {
            Some(i) => {
                let ins = self.entries[i].value.inserted_at;
                let age: u128 = if now >= ins { now - ins } else { 0 };
                if age < self.ttl_nanos {
                    self.stats.hits = self.stats.hits + 1;
                    Some(self.entries[i].value.metadata.duplicate())
                } else {
                    remove_at(&mut self.entries, i);
                    self.stats.evictions = self.stats.evictions + 1;
                    self.stats.misses = self.stats.misses + 1;
                    None
                }
            },
            None => {
                self.stats.misses = self.stats.misses + 1;
                None
            },
        }
    }

    /// Looks `path` up now (see [`MetadataCache::get_at`]).
    pub fn get(&mut self, path: &str) -> (r: Option<FileMetadata>)
        requires
            old(self).wf(),
            old(self).stats_view().hits < u64::MAX,
            old(self).stats_view().misses < u64::MAX,
            old(self).stats_view().evictions < u64::MAX,
        ensures
            final(self).wf(),
            final(self).ttl() == old(self).ttl(),
            final(self).capacity() == old(self).capacity(),
            exists|now: u128|
                #[trigger] lookup_step(
                    old(self).entries_map(),
                    old(self).stats_view(),
                    old(self).ttl(),
                    path_components(path@),
                    now,
                    r,
                    final(self).entries_map(),
                    final(self).stats_view(),
                ),
    {
        let now = self.now();
        self.get_at(path, now)
    }

    /// Stores `metadata` for `path`, stamped `now`. When the cache holds at least
    /// `capacity` entries, one entry with the oldest stamp is evicted first.
    pub fn insert_at(&mut self, path: &str, metadata: FileMetadata, now: u128)
        requires
            old(self).wf(),
            old(self).stats_view().insertions < u64::MAX,
            old(self).stats_view().evictions < u64::MAX,
        ensures
            final(self).wf(),
            final(self).ttl() == old(self).ttl(),
            final(self).capacity() == old(self).capacity(),
            insert_step(
                old(self).entries_map(),
                old(self).stats_view(),
                old(self).capacity(),
                path_components(path@),
                CacheEntry { metadata, inserted_at: now },
                final(self).entries_map(),
                final(self).stats_view(),
            ),
    {
        proof {
            lemma_keyed_map(self.entries@);
        }
        if self.entries.len() >= self.max_entries && self.entries.len() > 0 {
            self.evict_oldest();
        }
        let key = components(path);
        put(&mut self.entries, Keyed { key, value: CacheEntry { metadata, inserted_at: now } });
        self.stats.insertions = self.stats.insertions + 1;
    }

    /// Stores `metadata` for `path` now (see [`MetadataCache::insert_at`]).
    pub fn insert(&mut self, path: &str, metadata: FileMetadata)
        requires
            old(self).wf(),
            old(self).stats_view().insertions < u64::MAX,
            old(self).stats_view().evictions < u64::MAX,
        ensures
            final(self).wf(),
            final(self).ttl() == old(self).ttl(),
            final(self).capacity() == old(self).capacity(),
            exists|now: u128|
                #[trigger] insert_step(
                    old(self).entries_map(),
                    old(self).stats_view(),
                    old(self).capacity(),
                    path_components(path@),
                    CacheEntry { metadata, inserted_at: now },
                    final(self).entries_map(),
                    final(self).stats_view(),
                ),
    {
        let now = self.now();
        self.insert_at(path, metadata, now);
    }

    /// Removes one entry with the oldest stamp.
    fn evict_oldest(&mut self)
        requires
            old(self).wf(),
            old(self).entries@.len() > 0,
            old(self).stats_view().evictions < u64::MAX,
        ensures
            final(self).wf(),
            final(self).ttl() == old(self).ttl(),
            final(self).capacity() == old(self).capacity(),
            final(self).stats_view() == (CacheStats {
                evictions: (old(self).stats_view().evictions + 1) as u64,
                ..old(self).stats_view()
            }),
            exists|v: Seq<Seq<char>>| #[trigger] old(self).entries_map().dom().contains(v)
                && (forall|w: Seq<Seq<char>>| #[trigger] old(self).entries_map().dom().contains(w)
                    ==> old(self).entries_map()[v].inserted_at <= old(self).entries_map()[w].inserted_at)
                && final(self).entries_map() == old(self).entries_map().remove(v),
    {
        let mut best: usize = 0;
        let mut i: usize = 1;
        while i < self.entries.len()
            invariant
                0 < self.entries@.len(),
                best < i <= self.entries@.len(),
                forall|j: int| 0 <= j < i ==> self.entries@[best as int].value.inserted_at <= (#[trigger] self.entries@[j]).value.inserted_at,
            decreases self.entries@.len() - i,
        {
            if self.entries[i].value.inserted_at < self.entries[best].value.inserted_at {
                best = i;
            }
            i = i + 1;
        }
        let ghost m = self.entries_map();
        let ghost v = key_of(self.entries@[best as int]);
        proof {
            lemma_keyed_map(self.entries@);
            assert(m.dom().contains(v));
            assert(m[v] == self.entries@[best as int].value);
            assert forall|w: Seq<Seq<char>>| #[trigger] m.dom().contains(w) implies m[v].inserted_at <= m[w].inserted_at by {
                let j = choose|j: int| 0 <= j < self.entries@.len() && key_of(self.entries@[j]) == w;
                assert(m[key_of(self.entries@[j])] == self.entries@[j].value);
            }
        }
        remove_at(&mut self.entries, best);
        self.stats.evictions = self.stats.evictions + 1;
    }

    /// Removes the entry for `path`, if any.
    pub fn invalidate(&mut self, path: &str)
        requires
            old(self).wf(),
        ensures
            final(self).wf(),
            final(self).ttl() == old(self).ttl(),
            final(self).capacity() == old(self).capacity(),
            final(self).stats_view() == old(self).stats_view(),
            final(self).entries_map() == old(self).entries_map().remove(path_components(path@)),
    {
        let key = components(path);
        match find_key(&self.entries, &key) {
            Some(i) => {
                remove_at(&mut self.entries, i);
            },
            None => {
                proof {
                    assert(self.entries_map() =~= self.entries_map().remove(path_components(path@)));
                }
            },
        }
    }

    /// Removes every entry at or under `prefix` (component-wise).
    pub fn invalidate_prefix(&mut self, prefix: &str)
        requires
            old(self).wf(),
        ensures
            final(self).wf(),
            final(self).ttl() == old(self).ttl(),
            final(self).capacity() == old(self).capacity(),
            final(self).stats_view() == old(self).stats_view(),
            forall|k: Seq<Seq<char>>| #[trigger] final(self).entries_map().dom().contains(k) <==> old(self).entries_map().dom().contains(k)
                && !path_components(prefix@).is_prefix_of(k),
            forall|k: Seq<Seq<char>>| #[trigger] final(self).entries_map().dom().contains(k) ==> final(self).entries_map()[k]
                == old(self).entries_map()[k],
    {
        let pc = components(prefix);
        let ghost p = comps_view(pc@);
        let ghost ttl0 = self.ttl_nanos;
        let ghost cap0 = self.max_entries;
        let ghost stats0 = self.stats;
        let mut src: Vec<Keyed<CacheEntry>> = Vec::new();
        std::mem::swap(&mut src, &mut self.entries);
        let ghost orig = src@;
        let ghost m0 = keyed_map(orig);
        proof {
            lemma_keyed_map(orig);
            assert(keyed_map(self.entries@) =~= Map::<Seq<Seq<char>>, CacheEntry>::empty());
        }
        let n = src.len();
        let mut i: usize = 0;
        while i < n
            invariant
                n == orig.len(),
                i <= n,
                distinct_keys(orig),
                m0 == keyed_map(orig),
                src@ == orig.subrange(i as int, n as int),
                p == comps_view(pc@),
                self.ttl_nanos == ttl0,
                self.max_entries == cap0,
                self.stats == stats0,
                distinct_keys(self.entries@),
                forall|k: Seq<Seq<char>>| #[trigger] keyed_map(self.entries@).dom().contains(k) <==> (exists|j: int|
                    0 <= j < i && key_of(orig[j]) == k) && !p.is_prefix_of(k),
                forall|j: int| 0 <= j < i && !p.is_prefix_of(key_of(orig[j])) ==> keyed_map(self.entries@)[key_of(
                    #[trigger] orig[j],
                )] == orig[j].value,
            decreases n - i,
        {
            let e = src.remove(0);
            assert(e == orig[i as int]);
            assert(src@ =~= orig.subrange(i + 1, n as int));
            let keep = !comps_prefix(&pc, &e.key);
            let ghost before = keyed_map(self.entries@);
            if keep {
                put(&mut self.entries, e);
            }
            proof {
                let after = keyed_map(self.entries@);
                let ki = key_of(orig[i as int]);
                assert(keep == !p.is_prefix_of(ki));
                if keep {
                    assert(after == before.insert(ki, orig[i as int].value));
                } else {
                    assert(after == before);
                }
                assert forall|k: Seq<Seq<char>>| #[trigger] after.dom().contains(k) <==> (exists|j: int|
                    0 <= j < i + 1 && key_of(orig[j]) == k) && !p.is_prefix_of(k) by {
                    if after.dom().contains(k) {
                        if keep && k == ki {
                            assert(0 <= i < i + 1 && key_of(orig[i as int]) == k);
                        } else {
                            assert(before.dom().contains(k));
                            let j = choose|j: int| 0 <= j < i && key_of(orig[j]) == k;
                            assert(0 <= j < i + 1 && key_of(orig[j]) == k);
                        }
                    }
                    if (exists|j: int| 0 <= j < i + 1 && key_of(orig[j]) == k) && !p.is_prefix_of(k) {
                        let j = choose|j: int| 0 <= j < i + 1 && key_of(orig[j]) == k;
                        if j < i {
                            assert(exists|j2: int| 0 <= j2 < i && key_of(orig[j2]) == k);
                            assert(before.dom().contains(k));
                        } else {
                            assert(k == ki);
                        }
                    }
                }
                assert forall|j: int| 0 <= j < i + 1 && !p.is_prefix_of(key_of(orig[j])) implies after[key_of(
                    #[trigger] orig[j],
                )] == orig[j].value by {
                    if j < i {
                        assert(key_of(orig[j]) != key_of(orig[i as int]));
                    }
                }
            }
            i = i + 1;
        }
        proof {
            let fm = keyed_map(self.entries@);
            assert forall|k: Seq<Seq<char>>| #[trigger] fm.dom().contains(k) <==> m0.dom().contains(k) && !p.is_prefix_of(k) by {
                if m0.dom().contains(k) {
                    let j = choose|j: int| 0 <= j < orig.len() && key_of(orig[j]) == k;
                }
            }
            assert forall|k: Seq<Seq<char>>| #[trigger] fm.dom().contains(k) implies fm[k] == m0[k] by {
                let j = choose|j: int| 0 <= j < n && key_of(orig[j]) == k;
                assert(m0[key_of(orig[j])] == orig[j].value);
            }
        }
    }

    /// Removes every entry.
    pub fn clear(&mut self)
        ensures
            final(self).wf(),
            final(self).ttl() == old(self).ttl(),
            final(self).capacity() == old(self).capacity(),
            final(self).stats_view() == old(self).stats_view(),
            final(self).entries_map() == Map::<Seq<Seq<char>>, CacheEntry>::empty(),
    {
        self.entries = Vec::new();
    }

    /// The statistics.
    pub fn stats(&self) -> (s: &CacheStats)
        ensures
            *s == self.stats_view(),
    {
        &self.stats
    }

    /// Resets the statistics to zero.
    pub fn reset_stats(&mut self)
        ensures
            final(self).wf() == old(self).wf(),
            final(self).ttl() == old(self).ttl(),
            final(self).capacity() == old(self).capacity(),
            final(self).entries_map() == old(self).entries_map(),
            final(self).stats_view() == (CacheStats { hits: 0, misses: 0, evictions: 0, insertions: 0 }),
    {
        self.stats = CacheStats::zero();
    }

    /// The number of entries.
    pub fn len(&self) -> (n: usize)
        requires
            self.wf(),
        ensures
            n == self.entries_map().dom().len(),
    {
        proof {
            lemma_keyed_map(self.entries@);
        }
        self.entries.len()
    }

    /// Whether the cache holds no entry.
    pub fn is_empty(&self) -> (r: bool)
        requires
            self.wf(),
        ensures
            r == (self.entries_map().dom().len() == 0),
    {
        proof {
            lemma_keyed_map(self.entries@);
        }
        self.entries.len() == 0
    }

    /// Removes every entry that has expired at time `now`, counting each as an
    /// eviction, and returns how many were removed.
    pub fn evict_expired_at(&mut self, now: u128) -> (count: usize)
        requires
            old(self).wf(),
            old(self).stats_view().evictions + old(self).entries_map().dom().len() <= u64::MAX,
        ensures
            final(self).wf(),
            final(self).ttl() == old(self).ttl(),
            final(self).capacity() == old(self).capacity(),
            expire_step(
                old(self).entries_map(),
                old(self).stats_view(),
                old(self).ttl(),
                now,
                count,
                final(self).entries_map(),
                final(self).stats_view(),
            ),
    {
        let ttl = self.ttl_nanos;
        let ghost cap0 = self.max_entries;
        let ghost stats0 = self.stats;
        let mut src: Vec<Keyed<CacheEntry>> = Vec::new();
        std::mem::swap(&mut src, &mut self.entries);
        let ghost orig = src@;
        let ghost m0 = keyed_map(orig);
        proof {
            lemma_keyed_map(orig);
            assert(keyed_map(self.entries@) =~= Map::<Seq<Seq<char>>, CacheEntry>::empty());
        }
        let n = src.len();
        let mut removed: usize = 0;
        let mut i: usize = 0;
        while i < n
            invariant
                n == orig.len(),
                i <= n,
                ttl == self.ttl_nanos,
                self.max_entries == cap0,
                self.stats == stats0,
                stats0.evictions + n <= u64::MAX,
                distinct_keys(orig),
                m0 == keyed_map(orig),
                src@ == orig.subrange(i as int, n as int),
                distinct_keys(self.entries@),
                removed + self.entries@.len() == i,
                forall|k: Seq<Seq<char>>| #[trigger] keyed_map(self.entries@).dom().contains(k) <==> (exists|j: int|
                    0 <= j < i && key_of(orig[j]) == k && is_fresh(orig[j].value, ttl, now)),
                forall|j: int| 0 <= j < i && is_fresh(orig[j].value, ttl, now) ==> keyed_map(self.entries@)[key_of(
                    #[trigger] orig[j],
                )] == orig[j].value,
            decreases n - i,
        {
            let e = src.remove(0);
            assert(e == orig[i as int]);
            assert(src@ =~= orig.subrange(i + 1, n as int));
            let ins = e.value.inserted_at;
            let age: u128 = if now >= ins { now - ins } else { 0 };
            let ghost before = keyed_map(self.entries@);
            let ghost blen = self.entries@.len();
            if age < ttl {
                proof {
                    lemma_keyed_map(self.entries@);
                    assert(!before.dom().contains(key_of(orig[i as int]))) by {
                        if before.dom().contains(key_of(orig[i as int])) {
                            let j = choose|j: int| 0 <= j < i && key_of(orig[j]) == key_of(orig[i as int]) && is_fresh(orig[j].value, ttl, now);
                        }
                    }
                }
                put(&mut self.entries, e);
                proof {
                    lemma_keyed_map(self.entries@);
                    assert(self.entries@.len() == blen + 1);
                }
            } else {
                removed = removed + 1;
            }
            proof {
                let after = keyed_map(self.entries@);
                let ki = key_of(orig[i as int]);
                let keep = age < ttl;
                assert(keep == is_fresh(orig[i as int].value, ttl, now));
                if keep {
                    assert(after == before.insert(ki, orig[i as int].value));
                } else {
                    assert(after == before);
                }
                assert forall|k: Seq<Seq<char>>| #[trigger] after.dom().contains(k) <==> (exists|j: int|
                    0 <= j < i + 1 && key_of(orig[j]) == k && is_fresh(orig[j].value, ttl, now)) by {
                    if after.dom().contains(k) {
                        if keep && k == ki {
                            assert(0 <= i < i + 1 && key_of(orig[i as int]) == k && is_fresh(orig[i as int].value, ttl, now));
                        } else {
                            assert(before.dom().contains(k));
                            let j = choose|j: int| 0 <= j < i && key_of(orig[j]) == k && is_fresh(orig[j].value, ttl, now);
                            assert(0 <= j < i + 1 && key_of(orig[j]) == k && is_fresh(orig[j].value, ttl, now));
                        }
                    }
                    if exists|j: int| 0 <= j < i + 1 && key_of(orig[j]) == k && is_fresh(orig[j].value, ttl, now) {
                        let j = choose|j: int| 0 <= j < i + 1 && key_of(orig[j]) == k && is_fresh(orig[j].value, ttl, now);
                        if j < i {
                            assert(exists|j2: int| 0 <= j2 < i && key_of(orig[j2]) == k && is_fresh(orig[j2].value, ttl, now));
                            assert(before.dom().contains(k));
                        } else {
                            assert(k == ki);
                        }
                    }
                }
                assert forall|j: int| 0 <= j < i + 1 && is_fresh(orig[j].value, ttl, now) implies after[key_of(
                    #[trigger] orig[j],
                )] == orig[j].value by {
                    if j < i {
                        assert(key_of(orig[j]) != key_of(orig[i as int]));
                    }
                }
            }
            i = i + 1;
        }
        proof {
            lemma_keyed_map(self.entries@);
            let fm = keyed_map(self.entries@);
            assert forall|k: Seq<Seq<char>>| #[trigger] fm.dom().contains(k) <==> m0.dom().contains(k) && is_fresh(
                m0[k],
                ttl,
                now,
            ) by {
                if m0.dom().contains(k) {
                    let j = choose|j: int| 0 <= j < orig.len() && key_of(orig[j]) == k;
                    assert(m0[key_of(orig[j])] == orig[j].value);
                }
                if fm.dom().contains(k) {
                    let j = choose|j: int| 0 <= j < n && key_of(orig[j]) == k && is_fresh(orig[j].value, ttl, now);
                    assert(m0[key_of(orig[j])] == orig[j].value);
                }
            }
            assert forall|k: Seq<Seq<char>>| #[trigger] fm.dom().contains(k) implies fm[k] == m0[k] by {
                let j = choose|j: int| 0 <= j < n && key_of(orig[j]) == k && is_fresh(orig[j].value, ttl, now);
                assert(m0[key_of(orig[j])] == orig[j].value);
            }
        }
        self.stats.evictions = self.stats.evictions + removed as u64;
        removed
    }

    /// Removes every entry that has expired now (see
    /// [`MetadataCache::evict_expired_at`]).
    pub fn evict_expired(&mut self) -> (count: usize)
        requires
            old(self).wf(),
            old(self).stats_view().evictions + old(self).entries_map().dom().len() <= u64::MAX,
        ensures
            final(self).wf(),
            final(self).ttl() == old(self).ttl(),
            final(self).capacity() == old(self).capacity(),
            exists|now: u128|
                #[trigger] expire_step(
                    old(self).entries_map(),
                    old(self).stats_view(),
                    old(self).ttl(),
                    now,
                    count,
                    final(self).entries_map(),
                    final(self).stats_view(),
                ),
    {
        let now = self.now();
        self.evict_expired_at(now)
    }
}

impl Default for MetadataCache {
    fn default() -> (c: Self)
        ensures
            c.wf(),
            c.entries_map() == Map::<Seq<Seq<char>>, CacheEntry>::empty(),
            c.ttl() == DEFAULT_TTL_NANOS,
            c.capacity() == DEFAULT_MAX_ENTRIES,
    {
        MetadataCache::new()
    }
}

/// What a lookup at time `now` finds for key `k` in the entries `m`.
pub open spec fn lookup(m: Map<Seq<Seq<char>>, CacheEntry>, ttl: u128, k: Seq<Seq<char>>, now: u128) -> Option<FileMetadata> {
    if m.dom().contains(k) && is_fresh(m[k], ttl, now) {
        Some(m[k].metadata)
    } else {
        None
    }
}

/// Metadata stored at time `t` is found again by a lookup before it is `ttl` old,
/// and no longer once it is; storing under one key leaves what the other keys find
/// unchanged.
pub proof fn lemma_insert_then_lookup(
    m: Map<Seq<Seq<char>>, CacheEntry>,
    ttl: u128,
    k: Seq<Seq<char>>,
    e: CacheEntry,
    k2: Seq<Seq<char>>,
    now: u128,
)
    ensures
        age(e.inserted_at, now) < ttl ==> lookup(m.insert(k, e), ttl, k, now) == Some(e.metadata),
        age(e.inserted_at, now) >= ttl ==> lookup(m.insert(k, e), ttl, k, now) is None,
        k2 != k ==> lookup(m.insert(k, e), ttl, k2, now) == lookup(m, ttl, k2, now),
{
}

/// An insertion into a cache that holds at most `capacity` entries (at least one)
/// keeps it within `capacity`, stores the new entry under its key and counts one
/// insertion. Nothing else changes while there is room; when the cache is full, one
/// entry with the oldest stamp is removed first and counted as an eviction.
pub proof fn lemma_insert_within_capacity(
    m: Map<Seq<Seq<char>>, CacheEntry>,
    s: CacheStats,
    capacity: usize,
    k: Seq<Seq<char>>,
    e: CacheEntry,
    m2: Map<Seq<Seq<char>>, CacheEntry>,
    s2: CacheStats,
)
    requires
        m.dom().finite(),
        1 <= capacity,
        m.dom().len() <= capacity,
        s.insertions < u64::MAX,
        s.evictions < u64::MAX,
        insert_step(m, s, capacity, k, e, m2, s2),
    ensures
        m2.dom().finite(),
        m2.dom().len() <= capacity,
        m2.dom().contains(k) && m2[k] == e,
        s2.insertions == s.insertions + 1,
        m.dom().len() < capacity ==> m2 == m.insert(k, e) && s2.evictions == s.evictions,
        m.dom().len() == capacity ==> s2.evictions == s.evictions + 1 && exists|v: Seq<Seq<char>>| #[trigger] m.dom().contains(v)
            && (forall|w: Seq<Seq<char>>| #[trigger] m.dom().contains(w) ==> m[v].inserted_at <= m[w].inserted_at)
            && m2 == m.remove(v).insert(k, e),
{
    if m.dom().len() >= capacity && m.dom().len() > 0 {
        let v = choose|v: Seq<Seq<char>>| #[trigger] m.dom().contains(v)
            && (forall|w: Seq<Seq<char>>| #[trigger] m.dom().contains(w) ==> m[v].inserted_at <= m[w].inserted_at)
            && m2 == m.remove(v).insert(k, e);
        assert(m.remove(v).dom() =~= m.dom().remove(v));
        assert(m2.dom() =~= m.dom().remove(v).insert(k));
        assert(m.dom().remove(v).len() == m.dom().len() - 1);
    } else {
        assert(m2.dom() =~= m.dom().insert(k));
    }
}

impl MetadataCache {
    /// A well-formed cache holds finitely many entries.
    pub proof fn lemma_entries_finite(&self)
        requires
            self.wf(),
        ensures
            self.entries_map().dom().finite(),
    {
        lemma_keyed_map(self.entries@);
    }
}

} // verus!
