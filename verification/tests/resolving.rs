use gcc_builder::error::BuildError;
use gcc_builder::resolver::{
    cache_is_stale, cache_latest_version, candidate_version, check_cache,
    get_cached_latest_version, get_latest_gcc_release, latest_in_listing, latest_release,
    release_pattern, resolve_latest, resolve_versions, update_cache, CachedVersion,
    ResolveSource, VersionCache,
};
use gcc_builder::version::GccVersion;

const LISTING: &str = "<a href=\"gcc-12.3.0/\">gcc-12.3.0/</a>\n<a href=\"gcc-13.1.0/\">gcc-13.1.0/</a>\n\
<a href=\"gcc-13.2.0/\">gcc-13.2.0/</a>\n<a href=\"gcc-13.10.0/\">gcc-13.10.0/</a>\n\
<a href=\"gcc-13.9.1/\">gcc-13.9.1/</a>\n<a href=\"gcc-130.1.0/\">x</a> gcc-13.3/ gcc-14.1.0/";

#[test]
fn pattern_for_a_release_line() {
    assert_eq!(release_pattern(13), "gcc-13\\.\\d+\\.\\d+/");
}

#[test]
fn directory_names_that_name_a_release() {
    assert_eq!(candidate_version("gcc-13.2.0/", 13).unwrap().full, "13.2.0");
    assert!(candidate_version("gcc-13.2.0/", 12).is_none());
    assert!(candidate_version("gcc-13.2.0", 13).is_none());
    assert!(candidate_version("gdb-13.2.0/", 13).is_none());
    assert!(candidate_version("gcc-13.2/", 13).is_none());
    assert!(candidate_version("gcc-/", 13).is_none());
    assert!(candidate_version("", 13).is_none());
}

#[test]
fn newest_release_is_by_number() {
    let names: Vec<String> =
        ["gcc-13.1.0/", "gcc-13.10.0/", "junk", "gcc-13.9.1/", "gcc-14.3.0/"].iter().map(|s| s.to_string()).collect();
    assert_eq!(latest_release(13, &names).unwrap().full, "13.10.0");
    assert_eq!(latest_release(14, &names).unwrap().full, "14.3.0");
    assert!(latest_release(12, &names).is_none());
    assert!(latest_release(13, &vec![]).is_none());
}

#[test]
fn newest_release_in_a_listing() {
    assert_eq!(latest_in_listing(13, LISTING).unwrap().full, "13.10.0");
    assert_eq!(latest_in_listing(12, LISTING).unwrap().full, "12.3.0");
    assert_eq!(latest_in_listing(14, LISTING).unwrap().full, "14.1.0");
    assert!(latest_in_listing(15, LISTING).is_none());
    assert!(latest_in_listing(13, "").is_none());
}

#[test]
fn three_tiers_of_resolution() {
    let cached = GccVersion::new(13, 1, 0).unwrap();
    let (v, s) = resolve_latest(13, Some(cached), Some(LISTING)).unwrap();
    assert_eq!((v.full.as_str(), s), ("13.1.0", ResolveSource::Cache));
    let (v, s) = resolve_latest(13, None, Some(LISTING)).unwrap();
    assert_eq!((v.full.as_str(), s), ("13.10.0", ResolveSource::Server));
    let (v, s) = resolve_latest(13, None, None).unwrap();
    assert_eq!((v.full.as_str(), s), ("13.3.0", ResolveSource::Fallback));
    let (v, s) = resolve_latest(15, None, Some(LISTING)).unwrap();
    assert_eq!((v.full.as_str(), s), ("15.2.0", ResolveSource::Fallback));
    match resolve_latest(9, None, Some(LISTING)) {
        Err(BuildError::VersionLookup { major_version, .. }) => assert_eq!(major_version, 9),
        other => panic!("{:?}", other.map(|r| r.0.full)),
    }
}

#[test]
fn the_file_of_cached_versions() {
    let contents = "gcc-12:12.4.0\ngcc-13:13.2.0\nnoise\ngcc-13:13.9.9\n";
    assert_eq!(check_cache(contents, 13), Some("13.2.0".to_string()));
    assert_eq!(check_cache(contents, 12), Some("12.4.0".to_string()));
    assert_eq!(check_cache(contents, 1), None);
    assert_eq!(check_cache("", 13), None);
    assert_eq!(check_cache("gcc-13:a:b", 13), Some("a:b".to_string()));
    assert_eq!(check_cache("gcc-13", 13), None);
    assert_eq!(check_cache(" gcc-13:13.2.0", 13), None);
    assert_eq!(update_cache(contents, 13, "13.3.0"), "gcc-12:12.4.0\nnoise\ngcc-13:13.3.0");
    assert_eq!(update_cache("", 14, "14.2.0"), "gcc-14:14.2.0");
    assert_eq!(update_cache("gcc-130:x", 13, "13.3.0"), "gcc-130:x\ngcc-13:13.3.0");
    assert_eq!(check_cache(&update_cache(contents, 15, "15.2.0"), 15), Some("15.2.0".to_string()));
    assert!(!cache_is_stale(86400));
    assert!(cache_is_stale(86401));
}

#[test]
fn release_from_the_cache_file_first() {
    let (v, s) = get_latest_gcc_release(13, Some("gcc-13:13.2.0\n"), 100, Some(LISTING)).unwrap();
    assert_eq!((v.full.as_str(), s), ("13.2.0", ResolveSource::Cache));
    let (v, s) = get_latest_gcc_release(13, Some("gcc-13:13.2.0\n"), 90000, Some(LISTING)).unwrap();
    assert_eq!((v.full.as_str(), s), ("13.10.0", ResolveSource::Server));
    let (v, s) = get_latest_gcc_release(13, Some("gcc-13:garbage\n"), 100, None).unwrap();
    assert_eq!((v.full.as_str(), s), ("13.3.0", ResolveSource::Fallback));
    let (v, s) = get_latest_gcc_release(13, None, 0, Some(LISTING)).unwrap();
    assert_eq!((v.full.as_str(), s), ("13.10.0", ResolveSource::Server));
}

#[test]
fn versions_that_resolved() {
    let got = resolve_versions(&vec![None, GccVersion::new(13, 2, 0), None, GccVersion::new(11, 5, 0)]).unwrap();
    assert_eq!(got.iter().map(|v| v.full.clone()).collect::<Vec<_>>(), vec!["13.2.0", "11.5.0"]);
    assert!(matches!(resolve_versions(&vec![None, None]), Err(BuildError::NoVersionsSelected)));
    assert!(matches!(resolve_versions(&vec![]), Err(BuildError::NoVersionsSelected)));
}

#[test]
fn answers_in_memory_expire() {
    let mut c = VersionCache::new();
    cache_latest_version(&mut c, 13, GccVersion::new(13, 2, 0).unwrap(), 1000);
    assert_eq!(get_cached_latest_version(&mut c, 13, 1000).unwrap().full, "13.2.0");
    assert_eq!(get_cached_latest_version(&mut c, 13, 1000 + 86399).unwrap().full, "13.2.0");
    assert!(get_cached_latest_version(&mut c, 14, 1000).is_none());
    assert!(get_cached_latest_version(&mut c, 13, 1000 + 86400).is_none());
    assert!(get_cached_latest_version(&mut c, 13, 1000).is_none());
    let s = c.get_stats();
    assert_eq!((s.total_hits, s.total_misses, s.total_evictions), (2, 3, 1));
    assert_eq!(s.hit_rate_percent, 40);
    assert_eq!(s.version_entries, 0);
}

#[test]
fn listings_in_memory() {
    let mut c = VersionCache::new();
    assert_eq!(c.get_stats().hit_rate_percent, 0);
    c.put_listing("u".to_string(), "body".to_string(), 60, 10);
    assert_eq!(c.get_listing("u", 69), Some("body".to_string()));
    assert_eq!(c.get_listing("v", 69), None);
    assert_eq!(c.get_listing("u", 70), None);
    assert_eq!(c.get_stats().listing_entries, 0);
    c.put_version("k".to_string(), GccVersion::new(12, 4, 0).unwrap(), 5, 0);
    c.put_listing("u".to_string(), "body".to_string(), 60, 10);
    c.clear();
    assert_eq!((c.get_stats().version_entries, c.get_stats().listing_entries), (0, 0));
    assert_eq!(c.get_stats().total_hits, 1);
}

#[test]
fn loading_keeps_what_is_still_valid() {
    let mut c = VersionCache::new();
    let fresh = CachedVersion { version: GccVersion::new(13, 2, 0).unwrap(), resolved_at: 100, ttl_secs: 50 };
    let stale = CachedVersion { version: GccVersion::new(12, 4, 0).unwrap(), resolved_at: 100, ttl_secs: 10 };
    assert!(c.load("a".to_string(), fresh, 120));
    assert!(!c.load("b".to_string(), stale, 120));
    assert_eq!(c.get_version("a", 120).unwrap().full, "13.2.0");
    assert!(c.get_version("b", 120).is_none());
}
