//! Two-tier response cache: a bounded in-process map in front of an
//! optional on-disk store.
//!
//! The in-process tier lives here and is verified end to end.  The disk
//! tier is a directory of one file per key; reading, writing and
//! deleting those files is I/O and happens outside the library, driven
//! by the step values these methods return:
//!
//! * [`FigmaCache::get`] consults the in-process tier and says whether
//!   the disk tier still has to be consulted;
//! * [`FigmaCache::admit_disk_entry`] takes what the disk held and
//!   decides between returning it (promoting it into the in-process
//!   tier) and asking for the file's deletion.
//!
//! Every operation takes the clock as an explicit `now` argument, so the
//! whole policy is verified for every clock value.  All cache outcomes
//! are advisory: a miss only costs a refetch, so no operation fails.

use vstd::prelude::*;
use vstd::hash_map::StringHashMap;
use crate::entry::CachedEntry;
use crate::key::CacheKey;
use crate::text;

verus! {

broadcast use vstd::hash_map::group_hash_map_axioms;

/// Counters reported by [`FigmaCache::stats`].
pub struct CacheStats {
    /// Number of entries in the in-process tier.
    pub memory_entries: u64,
    /// Weighted size of the in-process tier; every entry weighs one.
    pub memory_weighted_size: u64,
    /// Whether the disk tier is enabled.
    pub disk_enabled: bool,
    /// Number of files in the disk tier, as counted by the caller.
    pub disk_entries: usize,
    /// Root directory of the disk tier, if enabled.
    pub disk_path: Option<String>,
}

/// What an in-process lookup decided.
pub enum LookupStep {
    /// Fresh entry found; its payload.
    Hit(String),
    /// Not served from memory; the disk tier is enabled and should be
    /// read for this key.
    CheckDisk,
    /// Not served from memory and no disk tier to fall back to.
    Miss,
}

/// What to do with an entry read back from the disk tier.
pub enum DiskStep {
    /// The entry is fresh: it was promoted and this is its payload.
    Hit(String),
    /// The entry is stale: the caller should delete its file.
    Expired,
    /// The disk tier had nothing for this key.
    Miss,
}

/// A character a key string may not carry into a file name.
pub open spec fn needs_sanitizing(c: char) -> bool {
    c == ':' || c == '/' || c == '\\' || c == ' '
}

/// Key strings made filesystem-safe: each offending character becomes
/// an underscore.
pub open spec fn sanitized(s: Seq<char>) -> Seq<char> {
    s.map_values(|c: char| if needs_sanitizing(c) { '_' } else { c })
}

/// The disk-tier file name of a storage key.
pub open spec fn disk_name_spec(ks: Seq<char>) -> Seq<char> {
    sanitized(ks) + ".json"@
}

/// What the in-process map holds after a store under `ks`: the entry is
/// inserted; when the tier is full and the key is new, the tier is
/// flushed first, which keeps the entry count bounded by `cap`.
pub open spec fn stored(
    m: Map<Seq<char>, CachedEntry>,
    ks: Seq<char>,
    e: CachedEntry,
    cap: int,
) -> Map<Seq<char>, CachedEntry> {
    if m.contains_key(ks) || m.len() < cap {
        m.insert(ks, e)
    } else {
        Map::empty().insert(ks, e)
    }
}

/// What a lookup in map `m` returns at time `now` under the global age
/// ceiling `gmax`: the payload of a fresh entry, nothing otherwise.
pub open spec fn lookup_in(
    m: Map<Seq<char>, CachedEntry>,
    ks: Seq<char>,
    now: int,
    gmax: int,
) -> Option<Seq<char>> {
    if m.contains_key(ks) && m[ks].valid_at(now) && now - m[ks].fetched_at < gmax {
        Some(m[ks].data@)
    } else {
        None
    }
}

/// The in-process tier of the cache plus the disk-tier configuration.
pub struct FigmaCache {
    /// In-process tier.
    pub memory: StringHashMap<CachedEntry>,
    /// Bound on the in-process entry count.
    pub capacity: usize,
    /// Global age ceiling in seconds, independent of per-entry TTLs.
    pub global_max_age: u64,
    /// Root directory of the disk tier, if enabled.
    pub disk_path: Option<String>,
    /// Whether the disk tier is enabled.
    pub disk_enabled: bool,
}

impl FigmaCache {
    /// The in-process tier as a map from key string to entry.
    pub open spec fn contents(self) -> Map<Seq<char>, CachedEntry> {
        self.memory@
    }

    /// Structural invariant: the tier is finite and within capacity,
    /// and the disk flag mirrors the configured path.
    pub open spec fn wf(self) -> bool {
        &&& self.capacity >= 1
        &&& self.contents().dom().finite()
        &&& self.contents().len() <= self.capacity
        &&& self.disk_enabled == (self.disk_path is Some)
    }

    /// An entry is served only while it is both within its own TTL and
    /// within the global ceiling.
    pub open spec fn live_at(self, e: CachedEntry, now: int) -> bool {
        e.valid_at(now) && now - e.fetched_at < self.global_max_age
    }

    /// What a memory lookup returns at time `now`.
    pub open spec fn mem_lookup(self, ks: Seq<char>, now: int) -> Option<Seq<char>> {
        lookup_in(self.contents(), ks, now, self.global_max_age as int)
    }

    /// The fixed configuration is untouched by an operation.
    pub open spec fn same_config(self, other: FigmaCache) -> bool {
        &&& self.capacity == other.capacity
        &&& self.global_max_age == other.global_max_age
        &&& self.disk_path == other.disk_path
        &&& self.disk_enabled == other.disk_enabled
    }

    /// A cache with the given disk root; `None` means memory-only.  The
    /// in-process tier holds at most 1000 entries and nothing older
    /// than an hour.
    pub fn new(disk_path: Option<String>) -> (r: Self)
        ensures
            r.wf(),
            r.contents() == Map::<Seq<char>, CachedEntry>::empty(),
            r.capacity == 1000,
            r.global_max_age == 3600,
            r.disk_path == disk_path,
            r.disk_enabled == (disk_path is Some),
    {
        let disk_enabled = disk_path.is_some();
        FigmaCache {
            memory: StringHashMap::new(),
            capacity: 1000,
            global_max_age: 3600,
            disk_path,
            disk_enabled,
        }
    }

    /// The default root directory of the disk tier, where the platform
    /// names a cache directory for this application.
    pub fn default_cache_dir() -> Option<String> {
        crate::config::platform_cache_dir()
    }

    /// A memory-only cache.
    pub fn memory_only() -> (r: Self)
        ensures
            r.wf(),
            r.contents() == Map::<Seq<char>, CachedEntry>::empty(),
            r.capacity == 1000,
            r.global_max_age == 3600,
            r.disk_path is None,
            !r.disk_enabled,
    {
        Self::new(None)
    }

    /// Consult the in-process tier.  A fresh entry is returned and the
    /// tier left alone; a stale entry is evicted on the spot; on a miss
    /// the step says whether the disk tier should be read next.
    pub fn get(&mut self, key: &CacheKey, now: i64) -> (r: LookupStep)
        requires
            old(self).wf(),
        ensures
            final(self).wf(),
            old(self).same_config(*final(self)),
            (match r {
                LookupStep::Hit(d) => {
                    &&& old(self).mem_lookup(key.key_string(), now as int) == Some(d@)
                    &&& final(self).contents() == old(self).contents()
                },
                LookupStep::CheckDisk => {
                    &&& old(self).mem_lookup(key.key_string(), now as int) is None
                    &&& old(self).disk_enabled
                },
                LookupStep::Miss => {
                    &&& old(self).mem_lookup(key.key_string(), now as int) is None
                    &&& !old(self).disk_enabled
                },
            }),
            old(self).mem_lookup(key.key_string(), now as int) is None ==> final(
                self).contents() == old(self).contents().remove(key.key_string()),
    {
        let ks = key.as_string();
        let mut stale = false;
        match self.memory.get(ks.as_str()) {
            Some(e) => {
                let fresh = (now as i128) - (e.fetched_at as i128) < (e.ttl_seconds as i128)
                    && (now as i128) - (e.fetched_at as i128) < (self.global_max_age as i128);
                if fresh {
                    let d = e.data.clone();
                    proof {
                        assert(old(self).mem_lookup(key.key_string(), now as int) == Some(d@));
                    }
                    return LookupStep::Hit(d);
                }
                stale = true;
            },
            None => {},
        }
        self.memory.remove(ks.as_str());
        proof {
            if !old(self).contents().contains_key(key.key_string()) {
                assert(old(self).contents().remove(key.key_string()) =~= old(
                    self).contents());
            }
            assert(old(self).contents().remove(key.key_string()).dom() =~= old(
                self).contents().dom().remove(key.key_string()));
        }
        if self.disk_enabled {
            LookupStep::CheckDisk
        } else {
            LookupStep::Miss
        }
    }

    /// Take what the disk tier held for `key`.  A fresh entry is
    /// promoted into the in-process tier and its payload returned; a
    /// stale one is reported for deletion; `None` stays a miss.
    pub fn admit_disk_entry(&mut self, key: &CacheKey, found: Option<CachedEntry>, now: i64) -> (r:
        DiskStep)
        requires
            old(self).wf(),
        ensures
            final(self).wf(),
            old(self).same_config(*final(self)),
            (match found {
                None => r is Miss && final(self).contents() == old(self).contents(),
                Some(e) => {
                    if old(self).live_at(e, now as int) {
                        &&& (r matches DiskStep::Hit(d) && d@ == e.data@)
                        &&& final(self).contents() == stored(
                            old(self).contents(), key.key_string(), e, old(self).capacity as int)
                        &&& final(self).mem_lookup(key.key_string(), now as int) == Some(e.data@)
                    } else {
                        &&& r is Expired
                        &&& final(self).contents() == old(self).contents()
                    }
                },
            }),
    {
        match found {
            Some(e) => {
                let fresh = (now as i128) - (e.fetched_at as i128) < (e.ttl_seconds as i128)
                    && (now as i128) - (e.fetched_at as i128) < (self.global_max_age as i128);
                if fresh {
                    let d = e.data.clone();
                    self.store_entry(key, e);
                    DiskStep::Hit(d)
                } else {
                    DiskStep::Expired
                }
            },
            None => DiskStep::Miss,
        }
    }

    /// Store an entry under `key` in the in-process tier, flushing the
    /// tier first when it is full and the key is new.
    fn store_entry(&mut self, key: &CacheKey, e: CachedEntry)
        requires
            old(self).wf(),
        ensures
            final(self).wf(),
            old(self).same_config(*final(self)),
            final(self).contents() == stored(
                old(self).contents(), key.key_string(), e, old(self).capacity as int),
    {
        let ks = key.as_string();
        let present = self.memory.contains_key(ks.as_str());
        if !present && self.memory.len() >= self.capacity {
            self.memory.clear();
        }
        proof {
            let m = self.memory@;
            let kseq = key.key_string();
            assert(m.insert(kseq, e).dom() =~= m.dom().insert(kseq));
            if m.contains_key(kseq) {
                assert(m.dom().insert(kseq) =~= m.dom());
            }
        }
        self.memory.insert(ks, e);
    }

    /// Store a payload fetched at time `now` with the given TTL.  The
    /// result says whether the caller should also write the entry's
    /// disk file.
    pub fn set(&mut self, key: &CacheKey, data: String, ttl_seconds: u64, now: i64) -> (to_disk:
        bool)
        requires
            old(self).wf(),
        ensures
            final(self).wf(),
            old(self).same_config(*final(self)),
            final(self).contents() == stored(
                old(self).contents(),
                key.key_string(),
                CachedEntry { data, fetched_at: now, ttl_seconds },
                old(self).capacity as int,
            ),
            to_disk == old(self).disk_enabled,
    {
        let e = CachedEntry { data, fetched_at: now, ttl_seconds };
        self.store_entry(key, e);
        self.disk_enabled
    }

    /// Drop `key` from the in-process tier.  The result says whether
    /// the caller should also delete the entry's disk file.
    pub fn invalidate(&mut self, key: &CacheKey) -> (from_disk: bool)
        requires
            old(self).wf(),
        ensures
            final(self).wf(),
            old(self).same_config(*final(self)),
            final(self).contents() == old(self).contents().remove(key.key_string()),
            from_disk == old(self).disk_enabled,
    {
        let ks = key.as_string();
        self.memory.remove(ks.as_str());
        proof {
            let kseq = key.key_string();
            assert(old(self).contents().remove(kseq).dom() =~= old(
                self).contents().dom().remove(kseq));
        }
        self.disk_enabled
    }

    /// Drop every entry touching the given file key.  The in-process
    /// tier has no key index, so it is flushed whole — a deliberate
    /// over-invalidation; on disk only the files whose name contains
    /// the identifier are deleted, which the caller performs with
    /// [`disk_purge_matches`].  The result says whether that disk scan
    /// is due.
    pub fn invalidate_file(&mut self, file_key: &str) -> (scan_disk: bool)
        requires
            old(self).wf(),
        ensures
            final(self).wf(),
            old(self).same_config(*final(self)),
            final(self).contents() == Map::<Seq<char>, CachedEntry>::empty(),
            scan_disk == old(self).disk_enabled,
    {
        self.memory.clear();
        self.disk_enabled
    }

    /// Empty the in-process tier.  The caller clears the disk directory
    /// when the result says the disk tier is enabled.
    pub fn clear(&mut self) -> (clear_disk: bool)
        requires
            old(self).wf(),
        ensures
            final(self).wf(),
            old(self).same_config(*final(self)),
            final(self).contents() == Map::<Seq<char>, CachedEntry>::empty(),
            clear_disk == old(self).disk_enabled,
    {
        self.memory.clear();
        self.disk_enabled
    }

    /// A fresh entry for `key` sits in the in-process tier right now.
    /// Nothing is evicted or promoted by this check; the disk tier, if
    /// any, is the caller's to consult.
    pub fn contains(&self, key: &CacheKey, now: i64) -> (r: bool)
        requires
            self.wf(),
        ensures
            r == (self.mem_lookup(key.key_string(), now as int) is Some),
    {
        let ks = key.as_string();
        match self.memory.get(ks.as_str()) {
            Some(e) => {
                (now as i128) - (e.fetched_at as i128) < (e.ttl_seconds as i128) && (now as i128)
                    - (e.fetched_at as i128) < (self.global_max_age as i128)
            },
            None => false,
        }
    }

    /// Counters for the command that reports cache status.  The caller
    /// counts the disk files and passes the number in.
    pub fn stats(&self, disk_entries: usize) -> (r: CacheStats)
        requires
            self.wf(),
        ensures
            r.memory_entries == self.contents().len(),
            r.memory_weighted_size == self.contents().len(),
            r.disk_enabled == self.disk_enabled,
            r.disk_entries == disk_entries,
            r.disk_path == self.disk_path,
    {
        let n = self.memory.len();
        let path = match &self.disk_path {
            Some(p) => Some(p.clone()),
            None => None,
        };
        CacheStats {
            memory_entries: n as u64,
            memory_weighted_size: n as u64,
            disk_enabled: self.disk_enabled,
            disk_entries,
            disk_path: path,
        }
    }
}

/// File name of a key in the disk tier: the key string with `':'`,
/// `'/'`, `'\'` and `' '` replaced by `'_'`, plus the fixed extension.
/// The sanitizing must precede any disk read or write.
pub fn disk_file_name(key: &CacheKey) -> (r: String)
    ensures
        r@ == disk_name_spec(key.key_string()),
{
    let ks = key.as_string();
    let n = ks.as_str().unicode_len();
    let mut out = String::new();
    let mut i: usize = 0;
    while i < n
        invariant
            n == ks@.len(),
            0 <= i <= n,
            out@ == sanitized(ks@.take(i as int)),
        decreases n - i,
    {
        let c = ks.as_str().get_char(i);
        let c2 = if c == ':' || c == '/' || c == '\\' || c == ' ' {
            '_'
        } else {
            c
        };
        out.push(c2);
        proof {
            assert(sanitized(ks@.take(i + 1)) =~= sanitized(ks@.take(i as int)).push(
                if needs_sanitizing(ks@.index(i as int)) { '_' } else { ks@.index(i as int) }));
        }
        i += 1;
    }
    proof {
        assert(ks@.take(n as int) =~= ks@);
    }
    let r = out.concat(".json");
    r
}

/// During a disk purge for a file key, a file is deleted exactly when
/// its name contains the identifier as a substring.
pub fn disk_purge_matches(file_name: &str, file_key: &str) -> (r: bool)
    ensures
        r == text::contains_seq(file_name@, file_key@),
{
    text::str_contains(file_name, file_key)
}

/// A payload stored under a key is returned by a lookup on that key at
/// any time before the entry's TTL and the global ceiling have elapsed,
/// whatever the tier held before.
pub proof fn lemma_set_then_get(
    m: Map<Seq<char>, CachedEntry>,
    ks: Seq<char>,
    e: CachedEntry,
    cap: int,
    later: int,
    gmax: int,
)
    requires
        later - e.fetched_at < e.ttl_seconds,
        later - e.fetched_at < gmax,
    ensures
        lookup_in(stored(m, ks, e, cap), ks, later, gmax) == Some(e.data@),
{
}

/// A key the tier never held yields nothing, and after an
/// invalidation a previously stored key yields nothing either.
pub proof fn lemma_absent_and_invalidated(
    m: Map<Seq<char>, CachedEntry>,
    ks: Seq<char>,
    now: int,
    gmax: int,
)
    ensures
        !m.contains_key(ks) ==> lookup_in(m, ks, now, gmax) is None,
        lookup_in(m.remove(ks), ks, now, gmax) is None,
{
}

/// Promotion: a fresh entry admitted from the disk tier is afterwards
/// served by the in-process tier alone.
pub proof fn lemma_promotion(
    m: Map<Seq<char>, CachedEntry>,
    ks: Seq<char>,
    e: CachedEntry,
    cap: int,
    now: int,
    gmax: int,
)
    requires
        now - e.fetched_at < e.ttl_seconds,
        now - e.fetched_at < gmax,
    ensures
        lookup_in(stored(m, ks, e, cap), ks, now, gmax) == Some(e.data@),
{
}

/// Expiry: once the clock has passed an entry's TTL or the global
/// ceiling, a lookup treats the key as absent.
pub proof fn lemma_expiry(m: Map<Seq<char>, CachedEntry>, ks: Seq<char>, now: int, gmax: int)
    requires
        m.contains_key(ks) ==> now - m[ks].fetched_at >= m[ks].ttl_seconds || now - m[
            ks].fetched_at >= gmax,
    ensures
        lookup_in(m, ks, now, gmax) is None,
{
}

} // verus!
