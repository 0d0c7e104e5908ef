use gcc_builder::artifact_cache::{
    calculate_verification_hash, key_paths, push_bytes, ArtifactCache, BuildConfig as CacheConfig,
    KeyItem,
};
use gcc_builder::build_state::{BuildPhase, BuildStateManager, PhaseStatus};
use gcc_builder::cli::Args;
use gcc_builder::config::BuildConfig;
use gcc_builder::resolver::{CachedListing, VersionCache};
use gcc_builder::scheduler::{AcquireOutcome, BuildScheduler};
use gcc_builder::strmap::StrMap;
use gcc_builder::version::GccVersion;

fn machine() -> BuildScheduler {
    let args = Args {
        versions: None,
        debug: false,
        dry_run: false,
        enable_multilib: false,
        static_build: false,
        generic: false,
        keep_build_dir: false,
        log_file: None,
        optimization: "2".to_string(),
        prefix: None,
        save: false,
        verbose: false,
        parallel: 2,
    };
    let config = BuildConfig::from_args(&args, "/tmp/b".to_string(), "x86_64-linux-gnu".to_string());
    BuildScheduler::new(&config, 64_000, 16)
}

#[test]
fn hash_of_an_installation() {
    let abc = "ba7816bf8f01cfea414140de5dae2223b00361a396177a9cb410ff61f20015ad";
    let nothing = "e3b0c44298fc1c149afbf4c8996fb92427ae41e4649b934ca495991b7852b855";
    assert_eq!(calculate_verification_hash(&vec![]), nothing);
    assert_eq!(calculate_verification_hash(&vec![KeyItem::Missing, KeyItem::Missing]), nothing);
    assert_eq!(calculate_verification_hash(&vec![KeyItem::File(b"abc".to_vec())]), abc);
    // a file brings its bytes, a directory its path, and they are taken in order
    let mixed = vec![
        KeyItem::File(b"a".to_vec()),
        KeyItem::Missing,
        KeyItem::Directory("bc".to_string()),
    ];
    assert_eq!(calculate_verification_hash(&mixed), abc);
    let turned = vec![KeyItem::Directory("bc".to_string()), KeyItem::File(b"a".to_vec())];
    assert_ne!(calculate_verification_hash(&turned), abc);
}

#[test]
fn what_stands_for_an_installation() {
    assert_eq!(key_paths(), vec!["bin/gcc", "bin/g++", "lib/gcc", "include"]);
}

#[test]
fn bytes_are_appended() {
    let mut out = vec![1u8, 2];
    push_bytes(&mut out, &[3, 4, 5]);
    assert_eq!(out, vec![1, 2, 3, 4, 5]);
    push_bytes(&mut out, &[]);
    assert_eq!(out, vec![1, 2, 3, 4, 5]);
}

#[test]
fn a_scheduler_in_order_and_out_of_order() {
    let mut s = machine();
    assert!(s.is_well_formed());
    let v13 = GccVersion::new(13, 2, 0).unwrap();
    let v14 = GccVersion::new(14, 2, 0).unwrap();
    assert!(matches!(s.acquire_build_slot(&v13, 1_000_000, 10), AcquireOutcome::Granted(_)));
    assert!(s.is_well_formed());

    let mut twice_waiting = machine();
    twice_waiting.waiting.push(v14.clone());
    assert!(twice_waiting.is_well_formed());
    twice_waiting.waiting.push(GccVersion::new(14, 2, 0).unwrap());
    assert!(!twice_waiting.is_well_formed());

    let mut no_capacity = machine();
    no_capacity.capacity = 0;
    assert!(!no_capacity.is_well_formed());

    let mut too_much = machine();
    too_much.capacity = too_much.max_concurrent + 1;
    assert!(!too_much.is_well_formed());

    let mut long_history = machine();
    long_history.load_history = vec![0; 61];
    assert!(!long_history.is_well_formed());
    long_history.load_history = vec![0; 60];
    assert!(long_history.is_well_formed());

    let mut no_memory = machine();
    no_memory.ram_per_build = 0;
    assert!(!no_memory.is_well_formed());
}

#[test]
fn a_map_has_each_key_once() {
    let mut m: StrMap<u32> = StrMap::new();
    assert!(m.has_unique_keys());
    m.insert("a".to_string(), 1);
    m.insert("b".to_string(), 2);
    m.insert("a".to_string(), 3);
    assert!(m.has_unique_keys());
    assert_eq!(m.len(), 2);
    m.entries.push(("b".to_string(), 4));
    assert!(!m.has_unique_keys());
}

#[test]
fn a_version_cache_in_order_and_out_of_order() {
    let mut c = VersionCache::new();
    assert!(c.is_well_formed());
    c.put_listing("u".to_string(), "x".to_string(), 10, 0);
    assert!(c.is_well_formed());
    c.listings.entries.push((
        "u".to_string(),
        CachedListing { content: "y".to_string(), fetched_at: 0, ttl_secs: 1 },
    ));
    assert!(!c.is_well_formed());
}

#[test]
fn a_state_in_order_and_out_of_order() {
    let fresh = || {
        BuildStateManager::create_state(
            GccVersion::new(13, 2, 0).unwrap(),
            "/b".to_string(),
            "/p".to_string(),
            "h".to_string(),
            1,
        )
    };
    let mut s = fresh();
    assert!(s.is_well_formed());
    s.update_phase(BuildPhase::Download, PhaseStatus::InProgress, None, 2).unwrap();
    s.update_phase(BuildPhase::Download, PhaseStatus::Completed, None, 3).unwrap();
    assert!(s.is_well_formed());

    // a phase that is started while the one before it is not done
    let mut skipped = fresh();
    skipped.phases[2].status = PhaseStatus::InProgress;
    assert!(!skipped.is_well_formed());

    // a phase too few
    let mut short = fresh();
    short.phases.pop();
    assert!(!short.is_well_formed());
}

#[test]
fn an_artifact_cache_in_order_and_out_of_order() {
    let mut c = ArtifactCache::new("/cache".to_string(), 10);
    assert!(c.is_well_formed());
    let config = CacheConfig::from_args("-O2".to_string(), false, false, vec![], vec![]);
    c.store_artifact("13.2.0", "abc".to_string(), 500, "vh".to_string(), 60, config, 5).unwrap();
    assert!(c.is_well_formed());
    assert_eq!(c.total_size_bytes, 500);
    c.total_size_bytes = 499;
    assert!(!c.is_well_formed());
}
