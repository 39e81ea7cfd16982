//! Cached payloads and the per-resource TTL table.

use vstd::prelude::*;

verus! {

/// One cached response: the serialized payload, the wall-clock second it
/// was fetched, and how many seconds it stays fresh.  Entries are never
/// mutated, only replaced or deleted.
pub struct CachedEntry {
    /// Serialized payload, kept opaque by the cache.
    pub data: String,
    /// Unix timestamp of the fetch.
    pub fetched_at: i64,
    /// Time to live, in seconds.
    pub ttl_seconds: u64,
}

impl CachedEntry {
    /// Fresh at time `now`: the age is below the entry's TTL.
    pub open spec fn valid_at(self, now: int) -> bool {
        now - self.fetched_at < self.ttl_seconds
    }

    /// Executable freshness check against an explicit clock reading.
    pub fn is_valid_at(&self, now: i64) -> (r: bool)
        ensures
            r == self.valid_at(now as int),
    {
        (now as i128) - (self.fetched_at as i128) < (self.ttl_seconds as i128)
    }
}

/// TTLs for the resource kinds, in seconds, ordered by how volatile each
/// resource is.
pub struct CacheTTL;

impl CacheTTL {
    /// Full file metadata: 5 minutes.
    pub const FILE_METADATA: u64 = 300;

    /// Light file metadata: 10 minutes.
    pub const FILE_META_LIGHT: u64 = 600;

    /// Image export URLs: 30 minutes (the storage links they point at
    /// expire not long after).
    pub const IMAGE_URLS: u64 = 1800;

    /// Version history: 1 minute (changes frequently).
    pub const VERSIONS: u64 = 60;

    /// Team data: 1 hour.
    pub const TEAM_DATA: u64 = 3600;

    /// Component info: 30 minutes.
    pub const COMPONENTS: u64 = 1800;
}

} // verus!
