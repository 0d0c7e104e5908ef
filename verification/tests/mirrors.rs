use gcc_builder::error::BuildError;
use gcc_builder::mirror::{FailoverStep, MirrorManager};

#[test]
fn the_usual_mirrors() {
    let m = MirrorManager::new();
    assert_eq!(m.mirrors.len(), 5);
    assert_eq!(m.mirrors[0].name, "GNU Main");
    assert_eq!(m.mirrors[0].base_url, "https://ftp.gnu.org/gnu/gcc/");
    assert_eq!(m.mirrors[4].name, "CTAN");
    assert_eq!(m.timeout_secs, 300);
    assert_eq!(m.max_retries_per_mirror, 2);
    for (i, mirror) in m.mirrors.iter().enumerate() {
        assert_eq!(mirror.priority as usize, i + 1);
        assert_eq!(mirror.max_failures, 3);
        assert!(mirror.is_healthy());
    }
}

#[test]
fn score_formula() {
    let mut m = MirrorManager::new();
    let scale: i128 = 3_600_000;
    assert_eq!(m.mirrors[0].score(1000), scale * 90);
    assert_eq!(m.mirrors[4].score(1000), scale * 50);
    m.record_failure(0);
    assert_eq!(m.mirrors[0].score(1000), scale * 70);
    m.record_success(1, 1000, 60_000_000, 10);
    // priority 2, just succeeded, 6000 kB/s halved with the old speed of 0
    assert_eq!(m.mirrors[1].avg_speed_kbps, 3000);
    assert_eq!(m.mirrors[1].score(1000), scale * 80 + scale * 48 + scale * 15);
    // twelve hours later half of the recency bonus is left
    assert_eq!(m.mirrors[1].score(1000 + 12 * 3600), scale * 80 + scale * 24 + scale * 15);
    // after a day nothing of it is left
    assert_eq!(m.mirrors[1].score(1000 + 24 * 3600), scale * 95);
    assert_eq!(m.mirrors[1].score(1000 + 1000 * 3600), scale * 95);
    // the score is never negative
    for _ in 0..10 {
        m.record_failure(4);
    }
    assert_eq!(m.mirrors[4].score(1000), 0);
}

#[test]
fn healthy_mirrors_are_tried_best_first() {
    let mut m = MirrorManager::new();
    assert_eq!(m.plan_download(0), vec![0, 1, 2, 3, 4]);
    m.record_failure(0);
    m.record_failure(0);
    assert_eq!(m.plan_download(0), vec![1, 2, 3, 0, 4]);
    m.record_failure(0);
    assert!(!m.mirrors[0].is_healthy());
    assert_eq!(m.plan_download(0), vec![1, 2, 3, 4]);
    m.record_success(4, 50, 100_000_000, 1);
    assert_eq!(m.plan_download(60), vec![4, 1, 2, 3]);
}

#[test]
fn ties_go_to_the_earlier_mirror() {
    let mut m = MirrorManager::new();
    m.record_failure(0);
    // mirror 0: 90 - 20 = 70; mirror 2: 70
    assert_eq!(m.plan_download(0), vec![1, 0, 2, 3, 4]);
}

#[test]
fn failover_after_a_failed_mirror() {
    let mut m = MirrorManager::new();
    let order = m.plan_download(500);
    assert_eq!(order[0], 0);
    let step = m.download_with_failover(&order, 0, false, 500, 0, 0);
    assert_eq!(step, FailoverStep::TryNext { position: 1, pause_secs: 2 });
    assert_eq!(m.mirrors[0].failure_count, 1);
    assert!(m.mirrors[0].is_healthy());
    let step = m.download_with_failover(&order, 1, true, 520, 90_000_000, 20);
    assert_eq!(step, FailoverStep::Done);
    assert_eq!(m.mirrors[1].failure_count, 0);
    assert_eq!(m.mirrors[1].last_success, Some(520));
    assert_eq!(m.mirrors[1].avg_speed_kbps, 2250);
    assert_eq!(m.mirrors[0].failure_count, 1);
}

#[test]
fn success_forgives_failures() {
    let mut m = MirrorManager::new();
    m.record_failure(2);
    m.record_failure(2);
    m.record_failure(2);
    assert!(!m.mirrors[2].is_healthy());
    m.record_success(2, 77, 1000, 0);
    assert!(m.mirrors[2].is_healthy());
    assert_eq!(m.mirrors[2].failure_count, 0);
    assert_eq!(m.mirrors[2].last_success, Some(77));
    assert_eq!(m.mirrors[2].avg_speed_kbps, 0);
}

#[test]
fn exhausted_when_every_healthy_mirror_failed() {
    let mut m = MirrorManager::new();
    for i in 0..4 {
        for _ in 0..3 {
            m.record_failure(i);
        }
    }
    let order = m.plan_download(0);
    assert_eq!(order, vec![4]);
    assert_eq!(m.download_with_failover(&order, 0, false, 0, 0, 0), FailoverStep::Exhausted);
    assert_eq!(m.plan_download(1), vec![4]);
    m.record_failure(4);
    m.record_failure(4);
    assert!(m.plan_download(0).is_empty());
}

#[test]
fn attempts_per_mirror() {
    let m = MirrorManager::new();
    assert_eq!(m.after_failed_attempt(1), Some(5));
    assert_eq!(m.after_failed_attempt(2), None);
    assert_eq!(m.after_failed_attempt(3), None);
    assert_eq!(m.attempt_url(2, "gcc-13.2.0/gcc-13.2.0.tar.xz"),
        "https://mirrors.kernel.org/gnu/gcc/gcc-13.2.0/gcc-13.2.0.tar.xz");
}

#[test]
fn curl_arguments() {
    let m = MirrorManager::new();
    assert_eq!(
        m.curl_arguments("https://x/y", "/tmp/y", false),
        vec!["-fSL", "--connect-timeout", "30", "--max-time", "300", "--retry", "0", "-o", "/tmp/y", "https://x/y"]
    );
    assert_eq!(
        m.curl_arguments("https://x/y", "/tmp/y", true),
        vec!["-fSL", "--connect-timeout", "30", "--max-time", "300", "--retry", "0", "-o", "/tmp/y", "-C", "-", "https://x/y"]
    );
}

#[test]
fn probing_revives_and_condemns() {
    let mut m = MirrorManager::new();
    for _ in 0..3 {
        m.record_failure(0);
    }
    assert!(m.test_mirrors(&vec![true, false, false, false, false], 9).is_ok());
    assert!(m.mirrors[0].is_healthy());
    assert_eq!(m.mirrors[0].last_success, Some(9));
    assert_eq!(m.mirrors[1].failure_count, 1);
    assert_eq!(m.healthy_count(), 5);
    assert!(m.test_mirrors(&vec![false; 5], 10).is_ok());
    let r = m.test_mirrors(&vec![false; 5], 11);
    assert_eq!(m.healthy_count(), 1);
    assert!(r.is_ok());
    match m.test_mirrors(&vec![false; 5], 12) {
        Err(BuildError::NetworkTimeout { message }) => {
            assert_eq!(message, "No healthy mirrors available")
        }
        other => panic!("{:?}", other),
    }
    assert_eq!(m.healthy_count(), 0);
}

#[test]
fn statistics_and_reset() {
    let mut m = MirrorManager::new();
    m.record_success(3, 100, 10_000_000, 1);
    m.record_failure(0);
    let s = m.get_stats(100);
    assert_eq!(s.total_mirrors, 5);
    assert_eq!(s.healthy_mirrors, 5);
    assert_eq!(s.average_speed_kbps, 1000);
    assert_eq!(s.best_mirror, "GNU FTP");
    m.reset_stats();
    for mirror in &m.mirrors {
        assert_eq!((mirror.failure_count, mirror.last_success, mirror.avg_speed_kbps), (0, None, 0));
    }
    assert_eq!(m.get_stats(100).best_mirror, "GNU Main");
}
