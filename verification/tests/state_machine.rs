use gcc_builder::build_state::{BuildPhase, BuildState, BuildStateManager, PhaseStatus};
use gcc_builder::version::GccVersion;

fn fresh() -> BuildState {
    BuildStateManager::create_state(
        GccVersion::new(13, 2, 0).unwrap(),
        "/tmp/b/workspace/gcc-13.2.0/build-gcc".to_string(),
        "/usr/local/programs/gcc-13.2.0".to_string(),
        "abc".to_string(),
        100,
    )
}

fn statuses(s: &BuildState) -> Vec<PhaseStatus> {
    s.phases.iter().map(|p| p.status).collect()
}

fn in_order(st: &[PhaseStatus]) -> bool {
    for j in 0..st.len() {
        if st[j] != PhaseStatus::NotStarted {
            for i in 0..j {
                if st[i] != PhaseStatus::Completed {
                    return false;
                }
            }
        }
    }
    st.iter().filter(|s| **s == PhaseStatus::InProgress).count() <= 1
}

#[test]
fn phases_are_seven_in_order() {
    let all = BuildPhase::all_phases();
    assert_eq!(
        all,
        vec![
            BuildPhase::Download,
            BuildPhase::Extract,
            BuildPhase::Prerequisites,
            BuildPhase::Configure,
            BuildPhase::Compile,
            BuildPhase::Install,
            BuildPhase::PostInstall,
        ]
    );
    for (i, p) in all.iter().enumerate() {
        assert_eq!(p.index(), i);
        assert_eq!(BuildPhase::from_index(i), Some(*p));
    }
    assert_eq!(BuildPhase::from_index(7), None);
    assert_eq!(BuildPhase::Compile.display_name(), "Building GCC");
    assert_eq!(BuildPhase::Download.display_name(), "Downloading source");
    assert_eq!(BuildPhase::PostInstall.name(), "PostInstall");
}

#[test]
fn new_state_has_nothing_started() {
    let s = fresh();
    assert_eq!(statuses(&s), vec![PhaseStatus::NotStarted; 7]);
    assert_eq!(s.started_at, 100);
    assert_eq!(s.last_updated, 100);
    assert_eq!(s.config_hash, "abc");
    assert_eq!(s.get_resume_point(), Some(BuildPhase::Download));
    assert!(!s.is_complete());
}

#[test]
fn a_full_run_completes_every_phase_in_order() {
    let mut s = fresh();
    let mut now = 100;
    for p in BuildPhase::all_phases() {
        now += 1;
        assert!(s.update_phase(p, PhaseStatus::InProgress, None, now).is_ok());
        assert!(in_order(&statuses(&s)));
        assert_eq!(s.get_resume_point(), Some(p));
        now += 1;
        assert!(s.update_phase(p, PhaseStatus::Completed, None, now).is_ok());
        assert!(in_order(&statuses(&s)));
        assert_eq!(s.phases[p.index()].started_at, Some(now - 1));
        assert_eq!(s.phases[p.index()].completed_at, Some(now));
    }
    assert!(s.is_complete());
    assert_eq!(s.get_resume_point(), None);
    assert_eq!(s.last_updated, now);
    assert!(!s.can_resume("abc", true));
}

#[test]
fn phases_cannot_be_started_out_of_order() {
    let mut s = fresh();
    assert!(s.update_phase(BuildPhase::Extract, PhaseStatus::InProgress, None, 1).is_err());
    assert!(s.update_phase(BuildPhase::Download, PhaseStatus::Completed, None, 1).is_err());
    assert!(s.update_phase(BuildPhase::Download, PhaseStatus::Failed, None, 1).is_err());
    assert!(s.update_phase(BuildPhase::Download, PhaseStatus::NotStarted, None, 1).is_err());
    assert_eq!(statuses(&s), vec![PhaseStatus::NotStarted; 7]);
    assert_eq!(s.last_updated, 100);
    assert!(s.update_phase(BuildPhase::Download, PhaseStatus::InProgress, None, 2).is_ok());
    assert!(s.update_phase(BuildPhase::Download, PhaseStatus::InProgress, None, 3).is_err());
    assert!(s.update_phase(BuildPhase::Extract, PhaseStatus::InProgress, None, 3).is_err());
    assert!(in_order(&statuses(&s)));
}

#[test]
fn a_failed_phase_can_be_taken_up_again() {
    let mut s = fresh();
    s.update_phase(BuildPhase::Download, PhaseStatus::InProgress, None, 1).unwrap();
    s.update_phase(BuildPhase::Download, PhaseStatus::Completed, None, 2).unwrap();
    s.update_phase(BuildPhase::Extract, PhaseStatus::InProgress, None, 3).unwrap();
    s.update_phase(BuildPhase::Extract, PhaseStatus::Failed, Some("tar failed".to_string()), 4)
        .unwrap();
    assert_eq!(s.phases[1].error, Some("tar failed".to_string()));
    assert_eq!(s.get_resume_point(), Some(BuildPhase::Extract));
    assert!(s.can_resume("abc", true));
    assert!(!s.can_resume("other", true));
    assert!(!s.can_resume("abc", false));
    assert!(s.update_phase(BuildPhase::Prerequisites, PhaseStatus::InProgress, None, 5).is_err());
    assert!(s.update_phase(BuildPhase::Extract, PhaseStatus::InProgress, None, 6).is_ok());
    assert_eq!(s.phases[1].error, None);
    assert!(in_order(&statuses(&s)));
}

#[test]
fn an_unfinished_build_can_be_resumed() {
    let s = fresh();
    assert!(s.can_resume("abc", true));
}

#[test]
fn cache_hit_completes_everything() {
    let mut s = fresh();
    s.complete_from_cache(200);
    assert_eq!(statuses(&s), vec![PhaseStatus::Completed; 7]);
    assert!(s.is_complete());
    assert_eq!(s.last_updated, 200);
    assert_eq!(s.get_resume_point(), None);
}

#[test]
fn checkpoints_are_kept_per_phase() {
    let mut s = fresh();
    s.add_checkpoint(BuildPhase::Configure, "log".to_string(), "config.log".to_string(), 7);
    s.add_checkpoint(BuildPhase::Configure, "log".to_string(), "other.log".to_string(), 8);
    s.add_checkpoint(BuildPhase::Configure, "dir".to_string(), "/b".to_string(), 9);
    let cp = &s.phases[3].checkpoints;
    assert_eq!(cp.len(), 2);
    assert_eq!(cp.get("log"), Some(&"other.log".to_string()));
    assert_eq!(cp.get("dir"), Some(&"/b".to_string()));
    assert_eq!(cp.get("none"), None);
    assert_eq!(s.phases[2].checkpoints.len(), 0);
    assert_eq!(s.last_updated, 9);
}

#[test]
fn state_files_are_named_after_the_version() {
    let m = BuildStateManager::new("/var/state".to_string());
    let v = GccVersion::new(14, 2, 0).unwrap();
    assert_eq!(m.state_file(&v), "/var/state/gcc-14.2.0-state.json");
    assert!(BuildStateManager::is_state_file("gcc-14.2.0-state.json"));
    assert!(!BuildStateManager::is_state_file("gcc-14.2.0-state.json.bak"));
}
