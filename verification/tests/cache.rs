use gcc_builder::artifact_cache::{
    ArtifactCache, ArtifactLookup, ArtifactPresence, BuildConfig,
};
use gcc_builder::error::BuildError;

const SEEN: ArtifactPresence =
    ArtifactPresence { path_exists: true, gcc_executable: true, gpp_executable: true };

fn cfg() -> BuildConfig {
    BuildConfig::from_args("-O2".to_string(), false, false, vec![], vec![])
}

fn store(c: &mut ArtifactCache, version: &str, hash: &str, size: u64, now: u64) -> Vec<String> {
    c.store_artifact(version, hash.to_string(), size, "vh".to_string(), 3600, cfg(), now).unwrap()
}

#[test]
fn cache_key_format() {
    let c = ArtifactCache::new("/cache".to_string(), 10);
    assert_eq!(
        c.generate_cache_key("14.2.0", "abc1234567890000ffffffffffffffff"),
        "gcc-14.2.0-abc1234567890000"
    );
    assert_eq!(c.generate_cache_key("13.2.0", "short"), "gcc-13.2.0-short");
    assert_eq!(c.generate_cache_key("13.2.0", "0123456789abcdef"), "gcc-13.2.0-0123456789abcdef");
}

#[test]
fn an_empty_cache_misses() {
    let mut c = ArtifactCache::new("/cache".to_string(), 10);
    assert_eq!(c.max_age_days, 90);
    assert!(c.artifact_path("14.2.0", "abc1234567890000").is_none());
    assert!(matches!(c.get_artifact("14.2.0", "abc1234567890000", SEEN, 5), ArtifactLookup::Miss));
    assert_eq!(c.get_stats().total_artifacts, 0);
}

#[test]
fn a_stored_installation_is_found_and_counts_as_used() {
    let mut c = ArtifactCache::new("/cache".to_string(), 10);
    assert!(store(&mut c, "14.2.0", "abc1234567890000", 1_000, 100).is_empty());
    assert_eq!(
        c.artifact_path("14.2.0", "abc1234567890000").unwrap(),
        "/cache/gcc-14.2.0-abc1234567890000"
    );
    match c.get_artifact("14.2.0", "abc1234567890000ffff", SEEN, 250) {
        ArtifactLookup::Hit(p) => assert_eq!(p, "/cache/gcc-14.2.0-abc1234567890000"),
        other => panic!("{:?}", other),
    }
    let e = c.index.get("gcc-14.2.0-abc1234567890000").unwrap();
    assert_eq!(e.last_accessed, 250);
    assert_eq!(e.created_at, 100);
    assert_eq!(e.size_bytes, 1_000);
    assert_eq!(e.gcc_version, "14.2.0");
    assert_eq!(c.total_size_bytes, 1_000);
    assert!(matches!(c.get_artifact("14.2.0", "abd1234567890000", SEEN, 5), ArtifactLookup::Miss));
    assert!(matches!(c.get_artifact("14.2.1", "abc1234567890000", SEEN, 5), ArtifactLookup::Miss));
}

#[test]
fn an_unusable_installation_is_not_handed_out() {
    for seen in [
        ArtifactPresence { path_exists: false, gcc_executable: true, gpp_executable: true },
        ArtifactPresence { path_exists: true, gcc_executable: false, gpp_executable: true },
        ArtifactPresence { path_exists: true, gcc_executable: true, gpp_executable: false },
    ] {
        let mut c = ArtifactCache::new("/cache".to_string(), 10);
        store(&mut c, "14.2.0", "abc1234567890000", 1_000, 100);
        store(&mut c, "13.2.0", "abc1234567890000", 500, 100);
        match c.get_artifact("14.2.0", "abc1234567890000", seen, 250) {
            ArtifactLookup::Invalid(p) => assert_eq!(p, "/cache/gcc-14.2.0-abc1234567890000"),
            other => panic!("{:?}", other),
        }
        assert_eq!(c.index.len(), 1);
        assert_eq!(c.total_size_bytes, 500);
        assert!(matches!(
            c.get_artifact("14.2.0", "abc1234567890000", SEEN, 251),
            ArtifactLookup::Miss
        ));
    }
}

#[test]
fn storing_again_replaces_the_entry() {
    let mut c = ArtifactCache::new("/cache".to_string(), 10);
    store(&mut c, "14.2.0", "abc1234567890000", 1_000, 100);
    store(&mut c, "14.2.0", "abc1234567890000", 300, 200);
    assert_eq!(c.index.len(), 1);
    assert_eq!(c.total_size_bytes, 300);
    assert_eq!(c.index.get("gcc-14.2.0-abc1234567890000").unwrap().created_at, 200);
}

#[test]
fn a_full_cache_loses_its_least_recently_used_entries() {
    let gb: u64 = 1_000_000_000;
    let mut c = ArtifactCache::new("/cache".to_string(), 10);
    assert!(store(&mut c, "10.5.0", "h000000000000000", 4 * gb, 1).is_empty());
    assert!(store(&mut c, "11.5.0", "h000000000000000", 3 * gb, 2).is_empty());
    assert!(store(&mut c, "12.4.0", "h000000000000000", 3 * gb, 3).is_empty());
    assert_eq!(c.total_size_bytes, 10 * gb);
    // use the oldest entry, so that it becomes the most recently used
    assert!(matches!(c.get_artifact("10.5.0", "h000000000000000", SEEN, 4), ArtifactLookup::Hit(_)));
    let gone = store(&mut c, "13.3.0", "h000000000000000", 2 * gb, 5);
    // 12 GB > 10 GB: entries go until at most 8 GB are left
    assert_eq!(gone, vec!["/cache/gcc-11.5.0-h000000000000000", "/cache/gcc-12.4.0-h000000000000000"]);
    assert_eq!(c.total_size_bytes, 6 * gb);
    assert!(c.index.contains_key("gcc-10.5.0-h000000000000000"));
    assert!(c.index.contains_key("gcc-13.3.0-h000000000000000"));
    assert!(c.evict_old_artifacts().is_empty());
}

#[test]
fn eviction_stops_at_four_fifths() {
    let gb: u64 = 1_000_000_000;
    let mut c = ArtifactCache::new("/cache".to_string(), 10);
    store(&mut c, "10.5.0", "h000000000000000", 2 * gb, 1);
    store(&mut c, "11.5.0", "h000000000000000", 3 * gb, 2);
    store(&mut c, "12.4.0", "h000000000000000", 4 * gb, 3);
    assert_eq!(c.evict_target(), 8 * gb as u128);
    assert!(!c.is_over_limit());
    let gone = c.evict_old_artifacts();
    assert_eq!(gone, vec!["/cache/gcc-10.5.0-h000000000000000"]);
    assert_eq!(c.total_size_bytes, 7 * gb);
}

#[test]
fn expired_entries_are_reaped_once_a_day() {
    let day: u64 = 86_400;
    let mut c = ArtifactCache::new("/cache".to_string(), 10);
    store(&mut c, "10.5.0", "h000000000000000", 10, 0);
    store(&mut c, "11.5.0", "h000000000000000", 20, 10 * day);
    store(&mut c, "12.4.0", "h000000000000000", 30, 50 * day);
    assert!(c.cleanup_due(0));
    assert!(c.cleanup_if_needed(50 * day).is_empty());
    assert_eq!(c.last_cleanup, Some(50 * day));
    assert!(!c.cleanup_due(51 * day));
    assert!(c.cleanup_due(51 * day + 1));
    assert!(c.cleanup_if_needed(50 * day + 100).is_empty());
    assert_eq!(c.last_cleanup, Some(50 * day));
    // at day 100 and one second the entry of day 10 is older than 90 days
    let gone = c.cleanup_if_needed(100 * day + 1);
    assert_eq!(gone, vec!["/cache/gcc-10.5.0-h000000000000000", "/cache/gcc-11.5.0-h000000000000000"]);
    assert_eq!(c.total_size_bytes, 30);
    assert_eq!(c.index.len(), 1);
    assert!(c.cleanup_expired_artifacts(140 * day).is_empty());
    assert_eq!(c.cleanup_expired_artifacts(140 * day + 1).len(), 1);
    assert_eq!(c.total_size_bytes, 0);
}

#[test]
fn removing_by_key() {
    let mut c = ArtifactCache::new("/cache".to_string(), 10);
    store(&mut c, "10.5.0", "h000000000000000", 10, 0);
    assert_eq!(c.remove_artifact("nothing"), None);
    assert_eq!(
        c.remove_artifact("gcc-10.5.0-h000000000000000"),
        Some("/cache/gcc-10.5.0-h000000000000000".to_string())
    );
    assert_eq!(c.total_size_bytes, 0);
    assert_eq!(c.index.len(), 0);
}

#[test]
fn sizes_that_cannot_be_counted_are_refused() {
    let mut c = ArtifactCache::new("/cache".to_string(), u64::MAX);
    store(&mut c, "10.5.0", "h000000000000000", u64::MAX - 5, 0);
    let r = c.store_artifact("11.5.0", "h000000000000000".to_string(), 6, String::new(), 0, cfg(), 1);
    assert!(matches!(r, Err(BuildError::ResourceExhausted { .. })));
    assert_eq!(c.index.len(), 1);
    assert!(c.store_artifact("11.5.0", "h000000000000000".to_string(), 5, String::new(), 0, cfg(), 1).is_ok());
    assert_eq!(c.total_size_bytes, u64::MAX);
}

#[test]
fn statistics_and_listing() {
    let mut c = ArtifactCache::new("/cache".to_string(), 1);
    store(&mut c, "10.5.0", "h000000000000000", 100_000_000, 10);
    store(&mut c, "11.5.0", "h000000000000000", 300_000_000, 20);
    let s = c.get_stats();
    assert_eq!(s.total_artifacts, 2);
    assert_eq!(s.total_size_bytes, 400_000_000);
    assert_eq!(s.max_size_gb, 1);
    assert_eq!(s.utilization_percent, 40);
    assert_eq!(s.total_saved_time_secs, 7200);
    assert_eq!(s.average_artifact_size_bytes, 200_000_000);
    let l = c.list_artifacts(50);
    assert_eq!(l.len(), 2);
    assert_eq!(l[0].cache_key, "gcc-10.5.0-h000000000000000");
    assert_eq!(l[0].age_secs, 40);
    assert_eq!(l[1].last_used_secs, 30);
    assert_eq!(l[1].size_bytes, 300_000_000);
    assert_eq!(ArtifactCache::new("/c".to_string(), 0).get_stats().utilization_percent, 100);
}
