use salesforce_client::cache::{CacheConfig, QueryCache, RecordCache};
use std::time::{Duration, Instant};

fn encoded_rows() -> Vec<u8> {
    br#"[{"id":"1","name":"Test"}]"#.to_vec()
}

#[test]
fn test_query_cache() {
    let config = CacheConfig::new().ttl(60);
    let mut cache = QueryCache::new(config);

    let query = "SELECT Id FROM Account";
    let data = encoded_rows();

    // Cache miss
    assert!(cache.get(query).is_none());

    // Store in cache
    cache.set(query, data.clone());

    // Cache hit
    let cached = cache.get(query);
    assert!(cached.is_some());
    assert_eq!(cached.unwrap(), data);
}

#[test]
fn test_cache_disabled() {
    let config = CacheConfig::disabled();
    let mut cache = QueryCache::new(config);

    let query = "SELECT Id FROM Account";
    let data = encoded_rows();

    cache.set(query, data);

    // Always a miss when disabled
    assert!(cache.get(query).is_none());
}

#[test]
fn entry_expires_after_ttl() {
    let mut cache = QueryCache::new(CacheConfig::new().ttl(1));
    cache.set("Q", b"V".to_vec());
    assert_eq!(cache.get("Q"), Some(b"V".to_vec()));
    let deadline = Instant::now() + Duration::from_millis(1500);
    while Instant::now() < deadline {
        std::hint::spin_loop();
    }
    assert_eq!(cache.get("Q"), None);
}

#[test]
fn clear_empties_every_entry() {
    let mut cache = QueryCache::new(CacheConfig::new());
    cache.set("Q1", b"a".to_vec());
    cache.set("Q2", b"b".to_vec());
    assert_eq!(cache.get("Q1"), Some(b"a".to_vec()));
    cache.clear();
    assert_eq!(cache.get("Q1"), None);
    assert_eq!(cache.get("Q2"), None);
}

#[test]
fn later_store_replaces_and_invalidate_drops() {
    let mut cache = QueryCache::new(CacheConfig::new());
    cache.set("Q", b"old".to_vec());
    cache.set("Q", b"new".to_vec());
    assert_eq!(cache.get("Q"), Some(b"new".to_vec()));
    cache.invalidate("Q");
    assert_eq!(cache.get("Q"), None);
}

#[test]
fn zero_capacity_disables() {
    let mut cache = QueryCache::new(CacheConfig::new().max_capacity(0));
    cache.set("Q", b"V".to_vec());
    assert_eq!(cache.get("Q"), None);
}

#[test]
fn cache_config_defaults() {
    let config = CacheConfig::default();
    assert_eq!(config.max_capacity, 10_000);
    assert_eq!(config.ttl, 300);
    assert_eq!(config.tti, Some(60));
    let config = CacheConfig::new().tti(5).max_capacity(3);
    assert_eq!(config.tti, Some(5));
    assert_eq!(config.max_capacity, 3);
}

#[test]
fn stats_do_not_fail() {
    let mut cache = QueryCache::new(CacheConfig::new());
    cache.set("Q", b"V".to_vec());
    let stats = cache.stats();
    assert!(stats.entry_count <= 1);
}

#[test]
fn record_cache_round_trip() {
    let mut cache = RecordCache::new(CacheConfig::new());
    assert_eq!(cache.get("Account", "001"), None);
    cache.set("Account", "001", b"acme".to_vec());
    cache.set("Contact", "003", b"jane".to_vec());
    assert_eq!(cache.get("Account", "001"), Some(b"acme".to_vec()));
    cache.invalidate("Account", "001");
    assert_eq!(cache.get("Account", "001"), None);
    assert_eq!(cache.get("Contact", "003"), Some(b"jane".to_vec()));
}

#[test]
fn record_cache_drops_one_object_type() {
    let mut cache = RecordCache::new(CacheConfig::new());
    cache.set("Account", "001", b"a".to_vec());
    cache.set("Account", "002", b"b".to_vec());
    cache.set("Contact", "003", b"c".to_vec());
    cache.invalidate_sobject("Account");
    assert_eq!(cache.get("Account", "001"), None);
    assert_eq!(cache.get("Account", "002"), None);
    assert_eq!(cache.get("Contact", "003"), Some(b"c".to_vec()));
}

#[test]
fn disabled_record_cache_misses() {
    let mut cache = RecordCache::new(CacheConfig::disabled());
    cache.set("Account", "001", b"a".to_vec());
    assert_eq!(cache.get("Account", "001"), None);
}
