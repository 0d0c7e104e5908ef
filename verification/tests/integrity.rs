use gcc_builder::digest::sha512_hex;
use gcc_builder::download::{
    archive_format, download_gcc_source, extract_plan, extract_tarball, extraction_result,
    failure_error,
    on_fetched, on_inspected, on_verified, source_dir_name, stripped_components, tar_arguments,
    trim_end, ArchiveFormat, DownloadEvent, DownloadFailure, DownloadState, DownloadStep,
    ExistingFile, ExtractAction,
};
use gcc_builder::error::{BuildError, ErrorKind};
use gcc_builder::integrity::{
    checksum_url, checksums_match, expected_checksum, judge_checksum, release_key_fingerprints,
    signature_url, tarball_acceptable, tarball_url, verdict_accepts, verification_kind,
    verify_gpg, verify_sha512, FetchOutcome, GpgOutcome, Verdict, VerificationKind,
};
use gcc_builder::version::GccVersion;

const MB: u64 = 1_000_000;

#[test]
fn strategy_by_release_line() {
    assert_eq!(verification_kind(14, false), VerificationKind::Sha512);
    assert_eq!(verification_kind(15, false), VerificationKind::Sha512);
    assert_eq!(verification_kind(13, false), VerificationKind::Gpg);
    assert_eq!(verification_kind(10, false), VerificationKind::Gpg);
    assert_eq!(verification_kind(14, true), VerificationKind::Skip);
    assert_eq!(verification_kind(12, true), VerificationKind::Skip);
}

#[test]
fn size_floor_for_source_archives() {
    assert!(tarball_acceptable(60 * MB, true));
    assert!(tarball_acceptable(50 * MB + 1, true));
    assert!(!tarball_acceptable(50 * MB, true));
    assert!(!tarball_acceptable(60 * MB, false));
    assert!(!tarball_acceptable(0, true));
}

#[test]
fn addresses() {
    let v = GccVersion::new(14, 2, 0).unwrap();
    assert_eq!(tarball_url(&v), "https://gcc.gnu.org/ftp/gcc/releases/gcc-14.2.0/gcc-14.2.0.tar.xz");
    assert_eq!(checksum_url(&v), "https://gcc.gnu.org/ftp/gcc/releases/gcc-14.2.0/sha512.sum");
    assert_eq!(
        signature_url(&v),
        "https://gcc.gnu.org/ftp/gcc/releases/gcc-14.2.0/gcc-14.2.0.tar.xz.sig"
    );
    assert_eq!(release_key_fingerprints().len(), 3);
    assert_eq!(release_key_fingerprints()[0], "33C235A34C46AA3FFB293709A328C3A2C3C45C06");
}

#[test]
fn checksum_is_the_first_word_of_the_first_line_naming_the_file() {
    let list = "aaa111  gcc-14.2.0.tar.gz\nbbb222  gcc-14.2.0.tar.xz\nccc333  gcc-14.2.0.tar.xz\n";
    assert_eq!(expected_checksum(list, "gcc-14.2.0.tar.xz"), Some("bbb222".to_string()));
    assert_eq!(expected_checksum(list, "gcc-14.2.0.tar.gz"), Some("aaa111".to_string()));
    assert_eq!(expected_checksum(list, "gcc-14.2.0.tar"), Some("aaa111".to_string()));
    assert_eq!(expected_checksum(list, "gcc-15.1.0.tar.xz"), None);
    assert_eq!(expected_checksum("", "x"), None);
    assert_eq!(expected_checksum("\t abc \r\n", " "), Some("abc".to_string()));
    assert_eq!(expected_checksum("   \nx", " "), None);
}

#[test]
fn checksums_compare_without_case() {
    assert!(checksums_match("ABCdef0123", "abcDEF0123"));
    assert!(!checksums_match("abc", "abd"));
    assert!(!checksums_match("abc", "abc0"));
    assert!(checksums_match("", ""));
}

#[test]
fn judging_a_checksum() {
    let body = FetchOutcome::Body("DDAF35  gcc-14.2.0.tar.xz\n".to_string());
    assert_eq!(judge_checksum(&body, "gcc-14.2.0.tar.xz", "ddaf35"), Verdict::Verified);
    assert_eq!(judge_checksum(&body, "gcc-14.2.0.tar.xz", "ddaf36"), Verdict::Mismatch);
    assert_eq!(judge_checksum(&body, "gcc-14.1.0.tar.xz", "ddaf35"), Verdict::Unchecked);
    assert_eq!(judge_checksum(&FetchOutcome::HttpError(404), "gcc-14.2.0.tar.xz", "x"), Verdict::Unchecked);
    assert_eq!(judge_checksum(&FetchOutcome::NetworkError, "gcc-14.2.0.tar.xz", "x"), Verdict::Unchecked);
    assert!(verdict_accepts(Verdict::Verified));
    assert!(verdict_accepts(Verdict::Unchecked));
    assert!(!verdict_accepts(Verdict::Mismatch));
}

#[test]
fn verifying_bytes_against_the_published_list() {
    let data = b"the bytes of an archive".to_vec();
    let good = FetchOutcome::Body(format!("{}  gcc-14.2.0.tar.xz\n", sha512_hex(&data).to_uppercase()));
    assert_eq!(verify_sha512(&good, "gcc-14.2.0.tar.xz", &data), Verdict::Verified);
    let mut other = data.clone();
    other[0] ^= 1;
    assert_eq!(verify_sha512(&good, "gcc-14.2.0.tar.xz", &other), Verdict::Mismatch);
    assert_eq!(verify_sha512(&FetchOutcome::HttpError(503), "gcc-14.2.0.tar.xz", &data), Verdict::Unchecked);
}

#[test]
fn judging_a_signature() {
    let ok = GpgOutcome { success: true, stderr: String::new() };
    let no_key = GpgOutcome { success: false, stderr: "gpg: Can't check signature: No public key".to_string() };
    let unknown = GpgOutcome { success: false, stderr: "unknown key".to_string() };
    let bad = GpgOutcome { success: false, stderr: "gpg: BAD signature".to_string() };
    assert_eq!(verify_gpg(false, Some(&bad)), Verdict::Unchecked);
    assert_eq!(verify_gpg(true, None), Verdict::Unchecked);
    assert_eq!(verify_gpg(true, Some(&ok)), Verdict::Verified);
    assert_eq!(verify_gpg(true, Some(&no_key)), Verdict::Unchecked);
    assert_eq!(verify_gpg(true, Some(&unknown)), Verdict::Unchecked);
    assert_eq!(verify_gpg(true, Some(&bad)), Verdict::Mismatch);
}

#[test]
fn first_look_at_the_destination() {
    let whole = Some(ExistingFile { size: 60 * MB, listable: true });
    let broken = Some(ExistingFile { size: 60 * MB, listable: false });
    let small = Some(ExistingFile { size: 50 * MB, listable: true });
    assert_eq!(on_inspected(whole, false), DownloadStep::Done);
    assert_eq!(on_inspected(broken, false), DownloadStep::Fetch { attempt: 1, delete_first: true });
    assert_eq!(on_inspected(small, false), DownloadStep::Fetch { attempt: 1, delete_first: true });
    assert_eq!(on_inspected(None, false), DownloadStep::Fetch { attempt: 1, delete_first: false });
    assert_eq!(on_inspected(None, true), DownloadStep::Done);
    assert_eq!(on_inspected(broken, true), DownloadStep::Done);
}

#[test]
fn after_an_attempt() {
    assert_eq!(on_fetched(1, true, 60 * MB, true, 3), DownloadStep::Verify { attempt: 1 });
    assert_eq!(on_fetched(1, true, 9 * MB, true, 3), DownloadStep::Failed(DownloadFailure::TooSmall));
    assert_eq!(on_fetched(1, true, 10 * MB, true, 3), DownloadStep::Fetch { attempt: 2, delete_first: true });
    assert_eq!(on_fetched(1, true, 60 * MB, false, 3), DownloadStep::Fetch { attempt: 2, delete_first: true });
    assert_eq!(on_fetched(2, false, 0, false, 3), DownloadStep::Fetch { attempt: 3, delete_first: true });
    assert_eq!(on_fetched(3, false, 0, false, 3), DownloadStep::Failed(DownloadFailure::Exhausted));
}

#[test]
fn after_a_check() {
    assert_eq!(on_verified(1, 0, Verdict::Verified, 3), DownloadStep::Done);
    assert_eq!(on_verified(1, 0, Verdict::Unchecked, 3), DownloadStep::Done);
    assert_eq!(on_verified(1, 0, Verdict::Mismatch, 3), DownloadStep::Fetch { attempt: 2, delete_first: true });
    assert_eq!(on_verified(2, 1, Verdict::Mismatch, 3), DownloadStep::Failed(DownloadFailure::ChecksumMismatch));
    assert_eq!(on_verified(3, 0, Verdict::Mismatch, 3), DownloadStep::Failed(DownloadFailure::ChecksumMismatch));
}

#[test]
fn happy_download() {
    let (s, step) = download_gcc_source(DownloadState::Start, DownloadEvent::Inspected(None), 3, false);
    assert_eq!(step, Some(DownloadStep::Fetch { attempt: 1, delete_first: false }));
    let (s, step) = download_gcc_source(s, DownloadEvent::Fetched { ok: true, size: 60 * MB, listable: true }, 3, false);
    assert_eq!(step, Some(DownloadStep::Verify { attempt: 1 }));
    let (s, step) = download_gcc_source(s, DownloadEvent::Checked(Verdict::Verified), 3, false);
    assert_eq!(step, Some(DownloadStep::Done));
    assert_eq!(s, DownloadState::Finished);
    assert_eq!(download_gcc_source(s, DownloadEvent::Checked(Verdict::Verified), 3, false), (s, None));
}

#[test]
fn a_wrong_archive_is_fetched_once_more_and_then_given_up() {
    let (s, _) = download_gcc_source(DownloadState::Start, DownloadEvent::Inspected(None), 3, false);
    let fetched = DownloadEvent::Fetched { ok: true, size: 60 * MB, listable: true };
    let (s, _) = download_gcc_source(s, fetched, 3, false);
    let (s, step) = download_gcc_source(s, DownloadEvent::Checked(Verdict::Mismatch), 3, false);
    assert_eq!(step, Some(DownloadStep::Fetch { attempt: 2, delete_first: true }));
    assert_eq!(s, DownloadState::Fetching { attempt: 2, mismatches: 1 });
    let (s, step) = download_gcc_source(s, fetched, 3, false);
    assert_eq!(step, Some(DownloadStep::Verify { attempt: 2 }));
    let (s, step) = download_gcc_source(s, DownloadEvent::Checked(Verdict::Mismatch), 3, false);
    assert_eq!(step, Some(DownloadStep::Failed(DownloadFailure::ChecksumMismatch)));
    assert_eq!(s, DownloadState::Finished);
    assert!(matches!(
        failure_error(DownloadFailure::ChecksumMismatch, "u", "gcc-14.2.0.tar.xz", VerificationKind::Sha512),
        BuildError::ChecksumMismatch { .. }
    ));
    assert!(matches!(
        failure_error(DownloadFailure::Exhausted, "u", "f", VerificationKind::Sha512),
        BuildError::Download { .. }
    ));
}

#[test]
fn errors_of_a_download_given_up() {
    match failure_error(DownloadFailure::ChecksumMismatch, "u", "gcc-13.2.0.tar.xz", VerificationKind::Gpg) {
        e @ BuildError::GpgVerificationFailed { .. } => {
            assert_eq!(e.kind(), ErrorKind::ChecksumMismatch);
            assert_eq!(e.message(), "GPG signature verification failed for gcc-13.2.0.tar.xz");
        }
        other => panic!("{:?}", other),
    }
    match failure_error(DownloadFailure::ChecksumMismatch, "u", "f", VerificationKind::Skip) {
        BuildError::ChecksumMismatch { file, .. } => assert_eq!(file, "f"),
        other => panic!("{:?}", other),
    }
    match failure_error(DownloadFailure::TooSmall, "gcc-13.2.0/f", "f", VerificationKind::Gpg) {
        BuildError::Download { url, message } => {
            assert_eq!(url, "gcc-13.2.0/f");
            assert_eq!(message, "Downloaded file too small");
        }
        other => panic!("{:?}", other),
    }
    match failure_error(DownloadFailure::Exhausted, "u", "f", VerificationKind::Gpg) {
        BuildError::Download { message, .. } => assert_eq!(message, "Download failed: all attempts exhausted"),
        other => panic!("{:?}", other),
    }
}

#[test]
fn what_unpacking_comes_to() {
    assert!(extraction_result("gcc-13.2.0.tar.xz", true, "").is_ok());
    match extraction_result("gcc-13.2.0.tar.xz", false, "tar: Unexpected EOF in archive") {
        Err(e @ BuildError::Extraction { .. }) => {
            assert_eq!(e.kind(), ErrorKind::Extraction);
            assert_eq!(
                e.message(),
                "Failed to extract archive gcc-13.2.0.tar.xz: tar: Unexpected EOF in archive"
            );
        }
        other => panic!("{:?}", other),
    }
}

#[test]
fn events_out_of_turn_change_nothing() {
    let s = DownloadState::Fetching { attempt: 1, mismatches: 0 };
    assert_eq!(download_gcc_source(s, DownloadEvent::Inspected(None), 3, false), (s, None));
    assert_eq!(download_gcc_source(s, DownloadEvent::Checked(Verdict::Verified), 3, false), (s, None));
    assert_eq!(
        download_gcc_source(DownloadState::Start, DownloadEvent::Checked(Verdict::Verified), 3, false),
        (DownloadState::Start, None)
    );
}

#[test]
fn archives_by_name() {
    assert_eq!(archive_format("/p/gcc-13.2.0.tar.xz"), ArchiveFormat::TarXz);
    assert_eq!(archive_format("mpc-1.2.1.tar.gz"), ArchiveFormat::TarGz);
    assert_eq!(archive_format("x.tar"), ArchiveFormat::Tar);
    assert_eq!(archive_format("x.zip"), ArchiveFormat::Unsupported);
    assert_eq!(archive_format("x.xz"), ArchiveFormat::Unsupported);
    assert_eq!(source_dir_name("gcc-13.2.0.tar.xz"), "gcc-13.2.0");
    assert_eq!(source_dir_name("gcc-13.2.0.tar.xz.tar.xz"), "gcc-13.2.0");
    assert_eq!(source_dir_name("gcc-13.2.0.tar.gz"), "gcc-13.2.0.tar.gz");
    assert_eq!(trim_end("aXX", "X"), "a");
    assert_eq!(trim_end("a", ""), "a");
    assert_eq!(trim_end("XX", "X"), "");
    for (name, suffix) in [("30G", "G"), ("GG", "G"), ("a.b.b", ".b"), ("abab", "ab"), ("x", "xx")] {
        assert_eq!(trim_end(name, suffix), name.trim_end_matches(suffix));
    }
}

#[test]
fn unpacking() {
    assert_eq!(extract_plan(false), vec![ExtractAction::Untar]);
    assert_eq!(extract_plan(true), vec![ExtractAction::RemoveTree, ExtractAction::Untar]);
    assert_eq!(tar_arguments("/p/a.tar.xz", "/w", 0), vec!["-Jxf", "/p/a.tar.xz", "-C", "/w"]);
    assert_eq!(
        tar_arguments("/p/a.tar.xz", "/w", 2),
        vec!["-Jxf", "/p/a.tar.xz", "-C", "/w", "--strip-components", "2"]
    );
    let (dir, plan, args) = extract_tarball("/p/gcc-13.2.0.tar.xz", "gcc-13.2.0.tar.xz", "/w", true, false);
    assert_eq!(dir, "/w/gcc-13.2.0");
    assert_eq!(plan, vec![ExtractAction::RemoveTree, ExtractAction::Untar]);
    assert_eq!(args, vec!["-Jxf", "/p/gcc-13.2.0.tar.xz", "-C", "/w"]);
    let (dir, plan, _) = extract_tarball("/p/gcc-13.2.0.tar.xz", "gcc-13.2.0.tar.xz", "/w", true, true);
    assert_eq!(dir, "/w/gcc-13.2.0");
    assert!(plan.is_empty());
    let parts: Vec<String> = ["gcc-13.2.0", "gcc", "tree.c"].iter().map(|s| s.to_string()).collect();
    assert_eq!(stripped_components(&parts, 1), Some(vec!["gcc".to_string(), "tree.c".to_string()]));
    assert_eq!(stripped_components(&parts, 3), None);
    assert_eq!(stripped_components(&parts, 0), Some(parts.clone()));
}
