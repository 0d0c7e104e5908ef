use gcc_builder::binary_verifier::{
    assess, essential_binaries, needs_compile_check, needs_version_check, BinaryProbe,
    BinaryVerifier, VerificationLevel, VerificationResult,
};
use gcc_builder::version::GccVersion;

const GOOD: BinaryProbe =
    BinaryProbe { exists: true, executable: true, version_ok: true, compile_ok: true };
const MISSING: BinaryProbe =
    BinaryProbe { exists: false, executable: false, version_ok: false, compile_ok: false };
const NO_VERSION: BinaryProbe =
    BinaryProbe { exists: true, executable: true, version_ok: false, compile_ok: true };
const NO_COMPILE: BinaryProbe =
    BinaryProbe { exists: true, executable: true, version_ok: true, compile_ok: false };
const NOT_EXECUTABLE: BinaryProbe =
    BinaryProbe { exists: true, executable: false, version_ok: true, compile_ok: true };

#[test]
fn checked_compilers() {
    assert_eq!(essential_binaries(13), vec!["gcc-13", "g++-13", "gfortran-13", "gcov-13"]);
}

#[test]
fn levels_of_validity() {
    let r = VerificationResult {
        exists: true,
        executable: true,
        version_works: true,
        compile_works: false,
        verified_at: 0,
    };
    assert!(r.is_valid(&VerificationLevel::Quick));
    assert!(r.is_valid(&VerificationLevel::Fast));
    assert!(!r.is_valid(&VerificationLevel::Full));
    let q = VerificationResult { version_works: false, ..r };
    assert!(q.is_valid(&VerificationLevel::Quick));
    assert!(!q.is_valid(&VerificationLevel::Fast));
    let n = VerificationResult { executable: false, ..r };
    assert!(!n.is_valid(&VerificationLevel::Quick));
}

#[test]
fn freshness() {
    let r = VerificationResult {
        exists: true,
        executable: true,
        version_works: true,
        compile_works: true,
        verified_at: 1000,
    };
    assert!(r.is_fresh(300, 1000));
    assert!(r.is_fresh(300, 1299));
    assert!(!r.is_fresh(300, 1300));
    assert!(r.is_fresh(300, 5));
    assert!(!r.is_fresh(0, 1000));
}

#[test]
fn assessing_a_probe() {
    let quick = assess(VerificationLevel::Quick, NO_VERSION, 7);
    assert!(quick.version_works && quick.compile_works && quick.verified_at == 7);
    let fast = assess(VerificationLevel::Fast, NO_VERSION, 7);
    assert!(!fast.version_works && fast.compile_works);
    assert!(!fast.is_valid(&VerificationLevel::Fast));
    let full = assess(VerificationLevel::Full, NO_COMPILE, 7);
    assert!(full.version_works && !full.compile_works);
    let skipped = assess(VerificationLevel::Full, NO_VERSION, 7);
    assert!(!skipped.version_works && skipped.compile_works);
    let absent = assess(VerificationLevel::Quick, MISSING, 7);
    assert!(!absent.exists && !absent.executable && !absent.version_works && !absent.compile_works);
    let plain = assess(VerificationLevel::Quick, NOT_EXECUTABLE, 7);
    assert!(plain.exists && !plain.executable && !plain.version_works);
    assert!(!needs_version_check(VerificationLevel::Quick));
    assert!(needs_version_check(VerificationLevel::Fast));
    assert!(needs_compile_check(VerificationLevel::Full, true));
    assert!(!needs_compile_check(VerificationLevel::Full, false));
    assert!(!needs_compile_check(VerificationLevel::Fast, true));
}

#[test]
fn installation_is_valid_if_both_compilers_pass() {
    let v = GccVersion::new(13, 2, 0).unwrap();
    let cases: [(Vec<BinaryProbe>, bool); 5] = [
        (vec![GOOD, GOOD, GOOD, GOOD], true),
        (vec![GOOD, GOOD, MISSING, MISSING], true),
        (vec![MISSING, GOOD, GOOD, GOOD], false),
        (vec![GOOD, NO_VERSION, GOOD, GOOD], false),
        (vec![NOT_EXECUTABLE, GOOD, GOOD, GOOD], false),
    ];
    for (probes, expected) in cases {
        let mut b = BinaryVerifier::new(VerificationLevel::Fast);
        let (valid, passed) = b.verify_gcc_installation("/p", &v, true, &probes, 100);
        assert_eq!(valid, expected);
        assert_eq!(passed.len(), 4);
    }
    let mut b = BinaryVerifier::new(VerificationLevel::Fast);
    let (valid, passed) = b.verify_gcc_installation("/p", &v, false, &vec![GOOD; 4], 100);
    assert!(!valid && passed.is_empty());
}

#[test]
fn results_are_remembered_for_five_minutes() {
    let v = GccVersion::new(13, 2, 0).unwrap();
    let mut b = BinaryVerifier::new(VerificationLevel::Fast);
    assert_eq!(b.cache_max_age_secs, 300);
    assert!(b.cached_result("/p/bin/gcc-13", 100).is_none());
    assert!(b.verify_gcc_installation("/p", &v, true, &vec![GOOD; 4], 100).0);
    let kept = b.cached_result("/p/bin/gcc-13", 100).unwrap();
    assert!(kept.exists && kept.version_works && kept.verified_at == 100);
    assert!(b.cached_result("/p/bin/g++-13", 399).is_some());
    assert!(b.cached_result("/p/bin/g++-13", 400).is_none());
    assert!(b.cached_result("/q/bin/gcc-13", 100).is_none());
    // within five minutes the remembered result decides, whatever is seen now
    assert!(b.verify_gcc_installation("/p", &v, true, &vec![MISSING; 4], 399).0);
    // after that the compilers are looked at again
    assert!(!b.verify_gcc_installation("/p", &v, true, &vec![MISSING; 4], 400).0);
    assert!(!b.verify_gcc_installation("/p", &v, true, &vec![GOOD; 4], 401).0);
    b.clear_cache();
    assert!(b.cached_result("/p/bin/gcc-13", 401).is_none());
    assert!(b.verify_gcc_installation("/p", &v, true, &vec![GOOD; 4], 401).0);
}

#[test]
fn one_binary_at_a_time() {
    let mut b = BinaryVerifier::new(VerificationLevel::Full);
    assert!(!b.verify_binary("/x/bin/gcc-12", NO_COMPILE, 10));
    assert!(!b.verify_binary("/x/bin/gcc-12", GOOD, 11));
    assert!(b.verify_binary("/x/bin/g++-12", GOOD, 11));
    assert!(b.verify_binary("/x/bin/gcc-12", GOOD, 310));
}

#[test]
fn forced_rebuild_is_never_skipped() {
    let v = GccVersion::new(13, 2, 0).unwrap();
    let mut b = BinaryVerifier::new(VerificationLevel::Quick);
    assert!(b.should_skip_build("/p", &v, false, true, &vec![GOOD; 4], 100));
    assert!(!b.should_skip_build("/p", &v, true, true, &vec![GOOD; 4], 101));
    assert!(b.cached_result("/p/bin/gcc-13", 101).is_none());
    assert!(!b.should_skip_build("/p", &v, false, false, &vec![GOOD; 4], 102));
    assert!(!b.should_skip_build("/p", &v, false, true, &vec![MISSING; 4], 103));
}
