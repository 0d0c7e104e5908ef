use gcc_builder::error::{exit_code, BuildError, BuildStatus, ErrorKind};
use gcc_builder::retry::{
    is_oom_text, PhaseRetryExecutor, RetryConfig, RetryDecision, RetryExecutor, RetryStrategy,
};

fn make_error(message: &str) -> BuildError {
    BuildError::Make { version: "13.2.0".to_string(), message: message.to_string() }
}

#[test]
fn default_schedules() {
    let s = RetryStrategy::default_strategy();
    assert_eq!(
        (s.max_attempts, s.initial_delay_secs, s.backoff_tenths, s.max_delay_secs),
        (3, 10, 20, 300)
    );
    assert!(s.reduce_parallelism_on_oom);
    let d = RetryStrategy::download_strategy();
    assert_eq!((d.max_attempts, d.initial_delay_secs), (5, 2));
    let c = RetryConfig::default_config();
    assert!(c.enable_auto_retry && c.enable_oom_adjustment);
    assert_eq!(c.max_global_retries, 10);
}

#[test]
fn delays_double_up_to_the_cap() {
    let s = RetryStrategy::default_strategy();
    let mut d = s.initial_delay_secs;
    let mut seen = vec![d];
    for _ in 0..7 {
        d = s.next_delay(d);
        seen.push(d);
    }
    assert_eq!(seen, vec![10, 20, 40, 80, 160, 300, 300, 300]);
    let odd = RetryStrategy { backoff_tenths: 15, ..s };
    assert_eq!(odd.next_delay(10), 15);
    assert_eq!(odd.next_delay(15), 22);
    assert_eq!(odd.next_delay(u64::MAX), 300);
}

#[test]
fn out_of_memory_marks() {
    for text in [
        "out of memory",
        "cc1plus: memory exhausted",
        "fork: cannot allocate memory",
        "killed",
        "terminated by signal 9",
        "virtual memory exhausted: cannot allocate memory",
    ] {
        assert!(is_oom_text(text), "text {:?}", text);
    }
    for text in ["", "memory", "signal 11", "exhausted", "Killed", "room", "insufficient memory"] {
        assert!(!is_oom_text(text), "text {:?}", text);
    }
}

#[test]
fn classification_lowers_the_case_first() {
    let e = RetryExecutor::new(RetryStrategy::default_strategy());
    assert!(e.is_oom_error(&make_error("Virtual Memory Exhausted")));
    assert!(e.is_oom_error(&make_error("process KILLED")));
    assert!(!e.is_oom_error(&make_error("undefined reference to `foo'")));
    assert!(e.is_network_error(&BuildError::Download {
        url: "u".to_string(),
        message: "m".to_string()
    }));
    assert!(e.is_network_error(&BuildError::NetworkTimeout { message: "m".to_string() }));
    assert!(!e.is_network_error(&make_error("x")));
}

#[test]
fn delay_by_kind_of_failure() {
    let e = RetryExecutor::new(RetryStrategy::default_strategy());
    let net = BuildError::Download { url: "u".to_string(), message: "m".to_string() };
    assert_eq!(e.calculate_retry_delay(&make_error("x"), 40, false), 40);
    assert_eq!(e.calculate_retry_delay(&net, 40, false), 5);
    assert_eq!(e.calculate_retry_delay(&net, 40, true), 60);
    assert_eq!(e.calculate_retry_delay(&make_error("x"), 40, true), 60);
}

#[test]
fn out_of_memory_recovery() {
    let mut p = PhaseRetryExecutor::new();
    let err = make_error("virtual memory exhausted");
    let first = p.retry_build(1, &err, 10);
    assert_eq!(
        first,
        RetryDecision::Retry {
            delay_secs: 60,
            next_delay_secs: 20,
            reduce_to: Some(1),
            recovery_secs: 30
        }
    );
    let second = p.retry_build(2, &err, 20);
    assert_eq!(
        second,
        RetryDecision::Retry {
            delay_secs: 60,
            next_delay_secs: 40,
            reduce_to: Some(2),
            recovery_secs: 30
        }
    );
    let third = p.retry_build(3, &err, 40);
    assert_eq!(third, RetryDecision::GiveUp { reduce_to: Some(3) });
    let stats = p.executor.get_oom_stats();
    assert_eq!(stats.oom_count, 3);
    assert!(stats.reduction_applied);
}

#[test]
fn plain_failures_follow_the_schedule() {
    let mut e = RetryExecutor::new(RetryStrategy::default_strategy());
    let err = make_error("syntax error");
    assert_eq!(
        e.decide(1, &err, 10, false),
        RetryDecision::Retry { delay_secs: 10, next_delay_secs: 20, reduce_to: None, recovery_secs: 0 }
    );
    assert_eq!(
        e.decide(2, &err, 20, false),
        RetryDecision::Retry { delay_secs: 20, next_delay_secs: 40, reduce_to: None, recovery_secs: 0 }
    );
    assert_eq!(e.decide(3, &err, 40, false), RetryDecision::GiveUp { reduce_to: None });
    assert_eq!(e.get_oom_stats().oom_count, 0);
    assert!(!e.get_oom_stats().reduction_applied);
}

#[test]
fn downloads_get_five_attempts() {
    let p = PhaseRetryExecutor::new();
    let mut e = p.retry_download();
    let err = BuildError::Download { url: "u".to_string(), message: "503".to_string() };
    for attempt in 1..5 {
        assert!(matches!(
            e.decide(attempt, &err, 2, false),
            RetryDecision::Retry { delay_secs: 5, .. }
        ));
    }
    assert!(matches!(e.decide(5, &err, 2, false), RetryDecision::GiveUp { .. }));
}

#[test]
fn error_messages() {
    assert_eq!(
        BuildError::Download { url: "http://x".to_string(), message: "503".to_string() }.message(),
        "Failed to download http://x: 503"
    );
    assert_eq!(
        BuildError::ChecksumMismatch {
            file: "f".to_string(),
            expected: "aa".to_string(),
            actual: "bb".to_string()
        }
        .message(),
        "Checksum verification failed for f: expected aa, got bb"
    );
    assert_eq!(
        BuildError::VersionLookup { major_version: 13, message: "none".to_string() }.message(),
        "Version lookup failed for GCC 13: none"
    );
    assert_eq!(BuildError::NoVersionsSelected.message(), "No GCC versions selected");
    assert_eq!(
        BuildError::LockFailed.message(),
        "Lock acquisition failed: another instance is running"
    );
    assert_eq!(BuildError::RunningAsRoot.message(), "Script must not be run as root");
    assert_eq!(
        BuildError::InvalidVersionSpec { spec: "x".to_string() }.message(),
        "Invalid version specification: x"
    );
    assert_eq!(
        make_error("boom").message(),
        "Build (make) failed for GCC 13.2.0: boom"
    );
    assert_eq!(
        BuildError::Configure { version: "13.2.0".to_string(), message: "see config.log".to_string() }
            .message(),
        "Configure failed for GCC 13.2.0: see config.log"
    );
    assert_eq!(BuildError::PostInstall { task: "ldconfig".to_string() }.message(), "Post-install task failed: ldconfig");
    assert_eq!(BuildError::Cancelled.message(), "cancelled");
}

#[test]
fn kinds_and_exit_codes() {
    assert_eq!(BuildError::LockFailed.kind(), ErrorKind::LockHeld);
    assert_eq!(
        BuildError::InsufficientResources { message: String::new() }.kind(),
        ErrorKind::SystemRequirements
    );
    assert_eq!(make_error("x").kind(), ErrorKind::BuildFailed);
    assert_eq!(BuildError::Cancelled.kind(), ErrorKind::Cancelled);
    assert_eq!(BuildError::Io { message: String::new() }.kind(), ErrorKind::Other);
    assert_eq!(exit_code(ErrorKind::SystemRequirements), 2);
    assert_eq!(exit_code(ErrorKind::LockHeld), 3);
    assert_eq!(exit_code(ErrorKind::BuildFailed), 1);
    assert_eq!(exit_code(ErrorKind::Download), 1);
}

#[test]
fn status_texts() {
    assert_eq!(BuildStatus::Pending.text(), "PENDING");
    assert_eq!(BuildStatus::PostInstall.text(), "POST_INSTALL");
    assert_eq!(BuildStatus::Success.text(), "SUCCESS");
    assert_eq!(BuildStatus::DryRun.text(), "DRY_RUN");
    assert_eq!(BuildStatus::Failed("ChecksumMismatch".to_string()).text(), "FAILED: ChecksumMismatch");
    assert_eq!(BuildStatus::Skipped("cache_hit".to_string()).text(), "SKIPPED: cache_hit");
    assert!(BuildStatus::Success.is_final());
    assert!(BuildStatus::Skipped(String::new()).is_final());
    assert!(!BuildStatus::Building.is_final());
}
