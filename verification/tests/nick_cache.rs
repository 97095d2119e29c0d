use poker_pro_track::nick_cache::{clear_nick_cache, NickCache, NickCacheEntry, NICK_TTL_SECONDS};

fn entry(nick: &str, timestamp: u64) -> NickCacheEntry {
    NickCacheEntry {
        nick: nick.to_string(),
        timestamp,
        img_hash: "abc".to_string(),
        confidence_bits: 0.9f64.to_bits(),
    }
}

#[test]
fn ttl_is_five_minutes() {
    assert_eq!(NICK_TTL_SECONDS, 300);
}

#[test]
fn entry_is_used_until_the_ttl() {
    let mut cache = NickCache::new();
    cache.put(7, entry("Hero", 1_000));
    assert_eq!(cache.lookup(7, 1_000, false), Some("Hero".to_string()));
    assert_eq!(cache.lookup(7, 1_299, false), Some("Hero".to_string()));
    assert_eq!(cache.lookup(7, 1_300, false), None);
    assert_eq!(cache.lookup(7, 1_301, false), None);
}

#[test]
fn forced_capture_ignores_a_fresh_entry() {
    let mut cache = NickCache::new();
    cache.put(7, entry("Hero", 1_000));
    assert_eq!(cache.lookup(7, 1_001, true), None);
    assert_eq!(cache.lookup(7, 1_001, false), Some("Hero".to_string()));
}

#[test]
fn freshness_of_an_entry() {
    let held = entry("Hero", 500);
    assert!(held.fresh_at(500));
    assert!(held.fresh_at(799));
    assert!(!held.fresh_at(800));
    assert!(held.fresh_at(499));
    assert!(!held.fresh_at(u64::MAX));
}

#[test]
fn lookup_of_another_window_misses() {
    let mut cache = NickCache::new();
    cache.put(7, entry("Hero", 1_000));
    assert_eq!(cache.lookup(8, 1_001, false), None);
    assert!(cache.get(8).is_none());
}

#[test]
fn put_overwrites() {
    let mut cache = NickCache::new();
    cache.put(7, entry("Hero", 1_000));
    cache.put(7, entry("Villain", 2_000));
    let held = cache.get(7).unwrap();
    assert_eq!(held.nick, "Villain");
    assert_eq!(held.timestamp, 2_000);
    assert_eq!(held.img_hash, "abc");
    assert_eq!(held.confidence_bits, 0.9f64.to_bits());
    assert_eq!(cache.lookup(7, 1_100, false), Some("Villain".to_string()));
}

#[test]
fn get_knows_no_expiry() {
    let mut cache = NickCache::new();
    cache.put(7, entry("Hero", 1_000));
    assert_eq!(cache.lookup(7, 9_000, false), None);
    assert_eq!(cache.get(7).unwrap().nick, "Hero");
}

#[test]
fn clear_makes_every_lookup_miss() {
    let mut cache = NickCache::new();
    for handle in 0..20u32 {
        cache.put(handle, entry("Hero", 1_000));
    }
    assert!(clear_nick_cache(&mut cache));
    for handle in 0..20u32 {
        assert_eq!(cache.lookup(handle, 1_001, false), None);
        assert!(cache.get(handle).is_none());
    }
    let mut empty = NickCache::new();
    assert!(empty.clear());
    assert_eq!(empty.lookup(1, 0, false), None);
}
