use fgm::cache::{disk_file_name, disk_purge_matches, DiskStep, FigmaCache, LookupStep};
use fgm::entry::{CacheTTL, CachedEntry};
use fgm::key::CacheKey;

const NOW: i64 = 1_700_000_000;

#[test]
fn test_cache_key_string() {
    let key = CacheKey::File("abc123".to_string());
    assert_eq!(key.as_string(), "file:abc123");

    let key = CacheKey::Images("abc".to_string(), "hash".to_string());
    assert_eq!(key.as_string(), "images:abc:hash");
}

#[test]
fn test_memory_cache() {
    let mut cache = FigmaCache::memory_only();

    let key = CacheKey::File("test123".to_string());
    cache.set(&key, "test_value".to_string(), 60, NOW);

    match cache.get(&key, NOW) {
        LookupStep::Hit(d) => assert_eq!(d, "test_value"),
        _ => panic!("expected a hit from the in-process tier"),
    }
}

#[test]
fn test_cache_miss() {
    let mut cache = FigmaCache::memory_only();
    let key = CacheKey::File("nonexistent".to_string());
    assert!(matches!(cache.get(&key, NOW), LookupStep::Miss));
}

#[test]
fn test_cache_invalidate() {
    let mut cache = FigmaCache::memory_only();
    let key = CacheKey::File("test".to_string());

    cache.set(&key, "value".to_string(), 60, NOW);
    assert!(cache.contains(&key, NOW));

    cache.invalidate(&key);
    assert!(!cache.contains(&key, NOW));
}

#[test]
fn test_hash_node_ids() {
    let ids1 = vec!["1:1".to_string(), "1:2".to_string()];
    let ids2 = vec!["1:1".to_string(), "1:2".to_string()];
    let ids3 = vec!["1:2".to_string(), "1:1".to_string()];

    let hash1 = CacheKey::hash_node_ids(&ids1);
    let hash2 = CacheKey::hash_node_ids(&ids2);
    let hash3 = CacheKey::hash_node_ids(&ids3);

    assert_eq!(hash1, hash2);
    assert_ne!(hash1, hash3); // Different order = different hash
}

#[test]
fn set_then_get_before_ttl_elapses() {
    let mut cache = FigmaCache::memory_only();
    let key = CacheKey::Versions("vv".to_string());
    cache.set(&key, "payload".to_string(), 300, NOW);
    match cache.get(&key, NOW + 299) {
        LookupStep::Hit(d) => assert_eq!(d, "payload"),
        _ => panic!("entry should still be fresh"),
    }
}

#[test]
fn expiry_is_detected_and_evicted() {
    let mut cache = FigmaCache::memory_only();
    let key = CacheKey::File("soon".to_string());
    cache.set(&key, "stale".to_string(), 1, NOW);
    // Past the 1-second TTL the entry is treated as absent.
    assert!(matches!(cache.get(&key, NOW + 2), LookupStep::Miss));
    // The stale entry was dropped on that access.
    assert_eq!(cache.stats(0).memory_entries, 0);
}

#[test]
fn disk_hit_is_promoted_to_memory() {
    let mut cache = FigmaCache::new(Some("/tmp/fgm-test-cache".to_string()));
    let key = CacheKey::File("ondisk".to_string());

    // Memory tier is empty: the lookup asks for the disk tier.
    assert!(matches!(cache.get(&key, NOW), LookupStep::CheckDisk));

    // The disk tier held a fresh entry: it is returned and promoted.
    let entry = CachedEntry { data: "from-disk".to_string(), fetched_at: NOW, ttl_seconds: 300 };
    match cache.admit_disk_entry(&key, Some(entry), NOW) {
        DiskStep::Hit(d) => assert_eq!(d, "from-disk"),
        _ => panic!("fresh disk entry should be returned"),
    }

    // A later lookup is served by the in-process tier alone.
    match cache.get(&key, NOW + 1) {
        LookupStep::Hit(d) => assert_eq!(d, "from-disk"),
        _ => panic!("promotion should have filled the in-process tier"),
    }
}

#[test]
fn stale_disk_entry_is_reported_for_deletion() {
    let mut cache = FigmaCache::new(Some("/tmp/fgm-test-cache".to_string()));
    let key = CacheKey::File("old".to_string());
    let entry = CachedEntry { data: "bytes".to_string(), fetched_at: NOW, ttl_seconds: 1 };
    assert!(matches!(
        cache.admit_disk_entry(&key, Some(entry), NOW + 5),
        DiskStep::Expired
    ));
    assert!(matches!(
        cache.admit_disk_entry(&key, None, NOW),
        DiskStep::Miss
    ));
}

#[test]
fn global_ceiling_caps_long_ttls() {
    let mut cache = FigmaCache::memory_only();
    let key = CacheKey::File("longttl".to_string());
    cache.set(&key, "v".to_string(), 100_000, NOW);
    // Within the hour the entry is served.
    assert!(matches!(cache.get(&key, NOW + 3599), LookupStep::Hit(_)));
    // Past the one-hour ceiling it is not, though its own TTL remains.
    let mut cache2 = FigmaCache::memory_only();
    cache2.set(&key, "v".to_string(), 100_000, NOW);
    assert!(matches!(cache2.get(&key, NOW + 3600), LookupStep::Miss));
}

#[test]
fn invalidate_file_flushes_memory_and_matches_disk_names() {
    let mut cache = FigmaCache::new(Some("/tmp/fgm-test-cache".to_string()));
    let key_a = CacheKey::File("abc123".to_string());
    let key_b = CacheKey::Versions("other".to_string());
    cache.set(&key_a, "a".to_string(), 300, NOW);
    cache.set(&key_b, "b".to_string(), 300, NOW);

    // The whole in-process tier goes; the caller scans the disk names.
    let scan = cache.invalidate_file("abc123");
    assert!(scan);
    assert_eq!(cache.stats(0).memory_entries, 0);

    // Only names containing the file key are deleted on disk.
    assert!(disk_purge_matches("file_abc123.json", "abc123"));
    assert!(!disk_purge_matches("versions_other.json", "abc123"));
}

#[test]
fn disk_file_names_are_sanitized() {
    let key = CacheKey::Nodes("a/b".to_string(), "h:1 2".to_string());
    assert_eq!(key.as_string(), "nodes:a/b:h:1 2");
    assert_eq!(disk_file_name(&key), "nodes_a_b_h_1_2.json");
}

#[test]
fn clear_empties_the_memory_tier() {
    let mut cache = FigmaCache::memory_only();
    let key = CacheKey::TeamProjects("t1".to_string());
    cache.set(&key, "x".to_string(), CacheTTL::TEAM_DATA, NOW);
    assert_eq!(cache.stats(3).memory_entries, 1);
    let clear_disk = cache.clear();
    assert!(!clear_disk);
    assert_eq!(cache.stats(0).memory_entries, 0);
}

#[test]
fn stats_report_configuration() {
    let cache = FigmaCache::new(Some("/tmp/fgm-stat".to_string()));
    let stats = cache.stats(7);
    assert!(stats.disk_enabled);
    assert_eq!(stats.disk_entries, 7);
    assert_eq!(stats.disk_path, Some("/tmp/fgm-stat".to_string()));
    assert_eq!(stats.memory_entries, 0);
}

#[test]
fn entry_validity_is_age_under_ttl() {
    let e = CachedEntry { data: "d".to_string(), fetched_at: NOW, ttl_seconds: 10 };
    assert!(e.is_valid_at(NOW));
    assert!(e.is_valid_at(NOW + 9));
    assert!(!e.is_valid_at(NOW + 10));
}

#[test]
fn cached_file_resource_round_trip() {
    // Cache a "file" resource for file key "abc123" with a 300-second
    // TTL containing the JSON {"name":"Demo"}; reading it back yields
    // the same parsed structure; after invalidation it is gone.
    let mut cache = FigmaCache::memory_only();
    let key = CacheKey::File("abc123".to_string());
    let payload = "{\"name\":\"Demo\"}".to_string();
    cache.set(&key, payload.clone(), 300, NOW);

    match cache.get(&key, NOW) {
        LookupStep::Hit(d) => {
            let got: serde_json::Value = serde_json::from_str(&d).unwrap();
            let expected: serde_json::Value = serde_json::from_str(&payload).unwrap();
            assert_eq!(got, expected);
        }
        _ => panic!("freshly cached file resource should be served"),
    }

    cache.invalidate(&key);
    assert!(matches!(cache.get(&key, NOW), LookupStep::Miss));
}

#[test]
fn ttl_table_orders_by_volatility() {
    assert_eq!(CacheTTL::VERSIONS, 60);
    assert_eq!(CacheTTL::FILE_METADATA, 300);
    assert_eq!(CacheTTL::FILE_META_LIGHT, 600);
    assert_eq!(CacheTTL::IMAGE_URLS, 1800);
    assert_eq!(CacheTTL::COMPONENTS, 1800);
    assert_eq!(CacheTTL::TEAM_DATA, 3600);
}
