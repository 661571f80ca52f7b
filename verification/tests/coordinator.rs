use geocache::cache::GeoCache;
use geocache::geolocator::ResolveOutcome;
use geocache::ip::IpKey;
use geocache::record::GeoData;
use geocache::refresh::{temp_path, ExtractOutcome, RefreshError, RefreshMachine, RefreshPhase};
use geocache::service::apply_resolve;

#[test]
fn refresh_success_bumps_generation_once() {
    // generation after a successful refresh = generation before + 1
    let mut m = RefreshMachine::new(1);
    assert!(m.begin());
    m.fetched(true);
    m.extracted(ExtractOutcome::Found);
    m.validated(true);
    m.renamed(true);
    assert_eq!(m.generation, 2);
    assert_eq!(m.phase, RefreshPhase::Idle);
    assert_eq!(m.last_error, None);
}

#[test]
fn refresh_twice_is_safe() {
    // an equivalent snapshot may be published again: the generation simply
    // advances once per success
    let mut m = RefreshMachine::new(1);
    for _ in 0..2 {
        assert!(m.begin());
        m.fetched(true);
        m.extracted(ExtractOutcome::Found);
        m.validated(true);
        m.renamed(true);
    }
    assert_eq!(m.generation, 3);
}

#[test]
fn refresh_fetch_failure_changes_nothing() {
    // a download that fails or times out leaves the generation unchanged
    let mut m = RefreshMachine::new(5);
    assert!(m.begin());
    m.fetched(false);
    assert_eq!(m.generation, 5);
    assert_eq!(m.phase, RefreshPhase::Idle);
    assert_eq!(m.last_error, Some(RefreshError::Transport));
}

#[test]
fn refresh_missing_database_changes_nothing() {
    // an archive with no database file aborts before any swap
    let mut m = RefreshMachine::new(5);
    assert!(m.begin());
    m.fetched(true);
    m.extracted(ExtractOutcome::NoMatch);
    assert_eq!(m.generation, 5);
    assert_eq!(m.phase, RefreshPhase::Idle);
    assert_eq!(m.last_error, Some(RefreshError::MissingDatabase));
}

#[test]
fn refresh_unreadable_archive_changes_nothing() {
    let mut m = RefreshMachine::new(5);
    assert!(m.begin());
    m.fetched(true);
    m.extracted(ExtractOutcome::Failed);
    assert_eq!(m.generation, 5);
    assert_eq!(m.last_error, Some(RefreshError::Extract));
}

#[test]
fn refresh_invalid_database_changes_nothing() {
    // a truncated or corrupt download never reaches the swap
    let mut m = RefreshMachine::new(5);
    assert!(m.begin());
    m.fetched(true);
    m.extracted(ExtractOutcome::Found);
    m.validated(false);
    assert_eq!(m.generation, 5);
    assert_eq!(m.phase, RefreshPhase::Idle);
    assert_eq!(m.last_error, Some(RefreshError::InvalidDatabase));
}

#[test]
fn refresh_rename_failure_changes_nothing() {
    let mut m = RefreshMachine::new(5);
    assert!(m.begin());
    m.fetched(true);
    m.extracted(ExtractOutcome::Found);
    m.validated(true);
    m.renamed(false);
    assert_eq!(m.generation, 5);
    assert_eq!(m.phase, RefreshPhase::Idle);
    assert_eq!(m.last_error, Some(RefreshError::Swap));
}

#[test]
fn refresh_single_flight() {
    // a second trigger while one attempt is in flight is rejected, at
    // every phase, and disturbs nothing
    let mut m = RefreshMachine::new(1);
    assert!(m.begin());
    assert!(!m.begin());
    assert_eq!(m.phase, RefreshPhase::Fetching);
    m.fetched(true);
    assert!(!m.begin());
    assert_eq!(m.phase, RefreshPhase::Extracting);
    m.extracted(ExtractOutcome::Found);
    assert!(!m.begin());
    m.validated(true);
    assert!(!m.begin());
    assert_eq!(m.phase, RefreshPhase::Swapping);
    m.renamed(true);
    assert_eq!(m.generation, 2);
    assert!(m.begin());
}

#[test]
fn refresh_begin_clears_last_failure() {
    let mut m = RefreshMachine::new(1);
    assert!(m.begin());
    m.fetched(false);
    assert_eq!(m.last_error, Some(RefreshError::Transport));
    assert!(m.begin());
    assert_eq!(m.last_error, None);
}

#[test]
fn refresh_in_flight_leaves_lookups_untouched() {
    // lookups keep answering from the cache at every point of a refresh:
    // no step before the publish touches what the lookup path reads
    let key = IpKey::V4(0x0808_0808);
    let data = GeoData {
        country: Some("X".to_string()),
        city: None,
        latitude_bits: None,
        longitude_bits: None,
        timezone: None,
    };
    let mut cache = GeoCache::new(4);
    let mut m = RefreshMachine::new(1);
    apply_resolve(&mut cache, key, m.generation, ResolveOutcome::Found(data)).unwrap();

    assert!(m.begin());
    assert!(cache.get(key).is_some());
    m.fetched(true);
    assert!(cache.get(key).is_some());
    m.extracted(ExtractOutcome::Found);
    assert!(cache.get(key).is_some());
    m.validated(true);
    assert!(cache.get(key).is_some());
    m.renamed(true);
    // the published generation advanced; the old entry is still present,
    // merely stale, and a fresh answer replaces it without error
    let stale = cache.get(key).unwrap();
    assert_eq!(stale.generation, 1);
    assert_eq!(m.generation, 2);
}

#[test]
fn temp_path_shape() {
    assert_eq!(temp_path("geo.mmdb", 42), "geo.mmdb.42.tmp".to_string());
    assert_eq!(temp_path("/var/db/geo.mmdb", 90210), "/var/db/geo.mmdb.90210.tmp".to_string());
    assert_eq!(temp_path("d", 0), "d.0.tmp".to_string());
}

#[test]
fn temp_path_never_equals_live_path() {
    let dest = "geo.mmdb";
    let tmp = temp_path(dest, 7);
    assert!(tmp.len() > dest.len());
    assert_ne!(tmp, dest);
}
