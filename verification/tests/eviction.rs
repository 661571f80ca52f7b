use geocache::cache::GeoCache;
use geocache::geolocator::{outcome_to_result, LookupError, ResolveOutcome};
use geocache::ip::IpKey;
use geocache::record::GeoData;
use geocache::service::{apply_resolve, cache_lookup};

fn rec(tag: &str) -> GeoData {
    GeoData {
        country: Some(tag.to_string()),
        city: None,
        latitude_bits: Some(4631166901565532406u64),
        longitude_bits: None,
        timezone: Some("UTC".to_string()),
    }
}

const A: IpKey = IpKey::V4(0x0101_0101);
const B: IpKey = IpKey::V4(0x0202_0202);
const C: IpKey = IpKey::V4(0x0303_0303);

#[test]
fn cache_capacity_two_evicts_oldest() {
    // capacity 2: insert A, B, C in order; A is evicted, B and C remain
    let mut cache = GeoCache::new(2);
    cache.insert(A, rec("a"), 1);
    cache.insert(B, rec("b"), 1);
    cache.insert(C, rec("c"), 1);
    assert!(cache.get(A).is_none());
    assert_eq!(cache.get(B).unwrap().data.country, Some("b".to_string()));
    assert_eq!(cache.get(C).unwrap().data.country, Some("c".to_string()));
}

#[test]
fn cache_get_promotes_recency() {
    // eviction follows access order, not insertion order
    let mut cache = GeoCache::new(2);
    cache.insert(A, rec("a"), 1);
    cache.insert(B, rec("b"), 1);
    assert!(cache.get(A).is_some());
    cache.insert(C, rec("c"), 1);
    assert!(cache.get(A).is_some());
    assert!(cache.get(B).is_none());
    assert!(cache.get(C).is_some());
}

#[test]
fn cache_overwrite_keeps_one_entry() {
    let mut cache = GeoCache::new(2);
    cache.insert(A, rec("old"), 1);
    cache.insert(A, rec("new"), 2);
    let e = cache.get(A).unwrap();
    assert_eq!(e.generation, 2);
    assert_eq!(e.data.country, Some("new".to_string()));
    // the overwrite used no second slot
    cache.insert(B, rec("b"), 2);
    assert!(cache.get(A).is_some());
    assert!(cache.get(B).is_some());
}

#[test]
fn cache_capacity_one() {
    let mut cache = GeoCache::new(1);
    cache.insert(A, rec("a"), 1);
    cache.insert(B, rec("b"), 1);
    assert!(cache.get(A).is_none());
    assert!(cache.get(B).is_some());
}

#[test]
fn cache_miss_is_none() {
    let mut cache = GeoCache::new(4);
    assert!(cache.get(A).is_none());
}

#[test]
fn cache_entry_carries_generation() {
    let mut cache = GeoCache::new(4);
    cache.insert(A, rec("a"), 7);
    assert_eq!(cache.get(A).unwrap().generation, 7);
}

#[test]
fn cache_v4_and_v6_keys_are_distinct() {
    let mut cache = GeoCache::new(4);
    cache.insert(IpKey::V4(5), rec("four"), 1);
    cache.insert(IpKey::V6(5), rec("six"), 1);
    assert_eq!(cache.get(IpKey::V4(5)).unwrap().data.country, Some("four".to_string()));
    assert_eq!(cache.get(IpKey::V6(5)).unwrap().data.country, Some("six".to_string()));
}

#[test]
fn resolve_found_is_cached_for_next_call() {
    // a found record is stored under the generation that was read, so the
    // next lookup of the same address is a hit and needs no second probe
    let mut cache = GeoCache::new(2);
    let r = apply_resolve(&mut cache, A, 3, ResolveOutcome::Found(rec("hit")));
    assert_eq!(r.unwrap().country, Some("hit".to_string()));
    let e = cache.get(A).unwrap();
    assert_eq!(e.generation, 3);
    assert_eq!(e.data.country, Some("hit".to_string()));
    assert_eq!(e.data.latitude_bits, Some(4631166901565532406u64));
    assert_eq!(e.data.timezone, Some("UTC".to_string()));
}

#[test]
fn resolve_not_found_is_not_cached() {
    let mut cache = GeoCache::new(2);
    let r = apply_resolve(&mut cache, A, 3, ResolveOutcome::NotFound);
    assert!(matches!(r, Err(LookupError::NotFound)));
    assert!(cache.get(A).is_none());
}

#[test]
fn resolve_failure_is_not_cached() {
    let mut cache = GeoCache::new(2);
    let r = apply_resolve(&mut cache, A, 3, ResolveOutcome::Failed);
    assert!(matches!(r, Err(LookupError::Internal)));
    assert!(cache.get(A).is_none());
}

#[test]
fn stale_generation_is_a_miss() {
    // an entry tagged with an older generation is logically absent
    let mut cache = GeoCache::new(2);
    cache.insert(A, rec("old"), 1);
    assert!(cache_lookup(&mut cache, A, 2).is_none());
    assert_eq!(cache_lookup(&mut cache, A, 1).unwrap().country, Some("old".to_string()));
}

#[test]
fn second_lookup_is_a_hit() {
    // resolving the same address again under the same generation answers
    // from the cache, with no second probe needed
    let mut cache = GeoCache::new(2);
    apply_resolve(&mut cache, A, 4, ResolveOutcome::Found(rec("first"))).unwrap();
    let hit = cache_lookup(&mut cache, A, 4).unwrap();
    assert_eq!(hit.country, Some("first".to_string()));
}

#[test]
fn outcome_mapping_is_exact() {
    assert!(matches!(outcome_to_result(ResolveOutcome::NotFound), Err(LookupError::NotFound)));
    assert!(matches!(outcome_to_result(ResolveOutcome::Failed), Err(LookupError::Internal)));
    let d = outcome_to_result(ResolveOutcome::Found(rec("x"))).unwrap();
    assert_eq!(d.country, Some("x".to_string()));
}

#[test]
fn record_duplicate_is_equal() {
    let d = rec("dup");
    let e = d.duplicate();
    assert_eq!(e.country, d.country);
    assert_eq!(e.city, d.city);
    assert_eq!(e.latitude_bits, d.latitude_bits);
    assert_eq!(e.longitude_bits, d.longitude_bits);
    assert_eq!(e.timezone, d.timezone);
}
