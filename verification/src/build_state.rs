use vstd::prelude::*;
use vstd::string::StringExecFns;
use crate::error::BuildError;
use crate::strmap::StrMap;
use crate::text::{spec_ends_with, str_ends_with, str_eq};
use crate::version::{path_join, spec_path_join, GccVersion};

verus! {

/// How many phases the build of one version has.
pub const PHASE_COUNT: usize = 7;

/// The phases of the build of one version, in the order in which they run.
#[derive(Debug, Clone, Copy, PartialEq, Eq, Structural, Hash)]
pub enum BuildPhase {
    Download,
    Extract,
    Prerequisites,
    Configure,
    Compile,
    Install,
    PostInstall,
}

/// How far one phase has come.
#[derive(Debug, Clone, Copy, PartialEq, Eq, Structural)]
pub enum PhaseStatus {
    NotStarted,
    InProgress,
    Completed,
    Failed,
}

/// The place of a phase in the order of phases.
pub open spec fn spec_phase_index(phase: BuildPhase) -> int {
    match phase {
        BuildPhase::Download => 0,
        BuildPhase::Extract => 1,
        BuildPhase::Prerequisites => 2,
        BuildPhase::Configure => 3,
        BuildPhase::Compile => 4,
        BuildPhase::Install => 5,
        BuildPhase::PostInstall => 6,
    }
}

/// The phase at a place in the order of phases.
pub open spec fn spec_phase_at(i: int) -> BuildPhase {
    if i == 0 {
        BuildPhase::Download
    } else if i == 1 {
        BuildPhase::Extract
    } else if i == 2 {
        BuildPhase::Prerequisites
    } else if i == 3 {
        BuildPhase::Configure
    } else if i == 4 {
        BuildPhase::Compile
    } else if i == 5 {
        BuildPhase::Install
    } else {
        BuildPhase::PostInstall
    }
}

/// What a phase is called when the user is told about it.
pub open spec fn spec_phase_display_name(phase: BuildPhase) -> Seq<char> {
    match phase {
        BuildPhase::Download => "Downloading source"@,
        BuildPhase::Extract => "Extracting archive"@,
        BuildPhase::Prerequisites => "Downloading prerequisites"@,
        BuildPhase::Configure => "Configuring build"@,
        BuildPhase::Compile => "Building GCC"@,
        BuildPhase::Install => "Installing GCC"@,
        BuildPhase::PostInstall => "Post-installation tasks"@,
    }
}

/// The name under which a phase stands in the state file.
pub open spec fn spec_phase_name(phase: BuildPhase) -> Seq<char> {
    match phase {
        BuildPhase::Download => "Download"@,
        BuildPhase::Extract => "Extract"@,
        BuildPhase::Prerequisites => "Prerequisites"@,
        BuildPhase::Configure => "Configure"@,
        BuildPhase::Compile => "Compile"@,
        BuildPhase::Install => "Install"@,
        BuildPhase::PostInstall => "PostInstall"@,
    }
}

impl BuildPhase {
    /// All phases, in the order in which they run.
    pub fn all_phases() -> (res: Vec<BuildPhase>)
        ensures
            res@.len() == PHASE_COUNT,
            forall|i: int| 0 <= i < PHASE_COUNT ==> res@[i] == spec_phase_at(i),
    {
        let mut v: Vec<BuildPhase> = Vec::new();
        v.push(BuildPhase::Download);
        v.push(BuildPhase::Extract);
        v.push(BuildPhase::Prerequisites);
        v.push(BuildPhase::Configure);
        v.push(BuildPhase::Compile);
        v.push(BuildPhase::Install);
        v.push(BuildPhase::PostInstall);
        v
    }

    /// What this phase is called when the user is told about it.
    pub fn display_name(&self) -> (res: &'static str)
        ensures
            res@ == spec_phase_display_name(*self),
    {
        match self {
            BuildPhase::Download => "Downloading source",
            BuildPhase::Extract => "Extracting archive",
            BuildPhase::Prerequisites => "Downloading prerequisites",
            BuildPhase::Configure => "Configuring build",
            BuildPhase::Compile => "Building GCC",
            BuildPhase::Install => "Installing GCC",
            BuildPhase::PostInstall => "Post-installation tasks",
        }
    }

    /// The name under which this phase stands in the state file.
    pub fn name(&self) -> (res: &'static str)
        ensures
            res@ == spec_phase_name(*self),
    {
        match self {
            BuildPhase::Download => "Download",
            BuildPhase::Extract => "Extract",
            BuildPhase::Prerequisites => "Prerequisites",
            BuildPhase::Configure => "Configure",
            BuildPhase::Compile => "Compile",
            BuildPhase::Install => "Install",
            BuildPhase::PostInstall => "PostInstall",
        }
    }

    /// The place of this phase in the order of phases.
    pub fn index(&self) -> (res: usize)
        ensures
            res == spec_phase_index(*self),
            res < PHASE_COUNT,
            spec_phase_at(res as int) == *self,
    {
        match self {
            BuildPhase::Download => 0,
            BuildPhase::Extract => 1,
            BuildPhase::Prerequisites => 2,
            BuildPhase::Configure => 3,
            BuildPhase::Compile => 4,
            BuildPhase::Install => 5,
            BuildPhase::PostInstall => 6,
        }
    }

    /// The phase at place `i`, if there is one.
    pub fn from_index(i: usize) -> (res: Option<BuildPhase>)
        ensures
            res is Some <==> i < PHASE_COUNT,
            res matches Some(p) ==> p == spec_phase_at(i as int) && spec_phase_index(p) == i,
    {
        match i {
            0 => Some(BuildPhase::Download),
            1 => Some(BuildPhase::Extract),
            2 => Some(BuildPhase::Prerequisites),
            3 => Some(BuildPhase::Configure),
            4 => Some(BuildPhase::Compile),
            5 => Some(BuildPhase::Install),
            6 => Some(BuildPhase::PostInstall),
            _ => None,
        }
    }
}

/// What is recorded of one phase.
#[derive(Debug)]
pub struct PhaseState {
    pub status: PhaseStatus,
    /// When the phase last began, in seconds since the epoch.
    pub started_at: Option<u64>,
    /// When the phase last ended, well or badly.
    pub completed_at: Option<u64>,
    pub error: Option<String>,
    pub artifacts: Vec<String>,
    pub checkpoints: StrMap<String>,
}

/// What is recorded of the build of one version, so that it can be resumed.
#[derive(Debug)]
pub struct BuildState {
    pub version: GccVersion,
    /// The state of each phase, in the order of phases.
    pub phases: Vec<PhaseState>,
    pub started_at: u64,
    pub last_updated: u64,
    pub build_dir: String,
    pub install_prefix: String,
    pub config_hash: String,
}

/// The statuses of a list of phase states.
pub open spec fn spec_statuses(phases: Seq<PhaseState>) -> Seq<PhaseStatus> {
    Seq::new(phases.len(), |i: int| phases[i].status)
}

/// Phases run strictly in order: a phase that has been started stands
/// behind completed phases only. So no phase is completed while an earlier
/// one is not, and at most one phase is in progress.
pub open spec fn spec_in_order(st: Seq<PhaseStatus>) -> bool {
    forall|i: int, j: int|
        0 <= i < j < st.len() && st[j] != PhaseStatus::NotStarted ==> st[i]
            == PhaseStatus::Completed
}

/// Whether the status of the phase at place `k` may change to `to`: a phase
/// begins when all before it are completed, nothing is in progress and it
/// has not been completed itself; it ends, well or badly, only while it is
/// in progress.
pub open spec fn spec_may_change(st: Seq<PhaseStatus>, k: int, to: PhaseStatus) -> bool {
    &&& 0 <= k < st.len()
    &&& match to {
        PhaseStatus::InProgress => {
            &&& st[k] == PhaseStatus::NotStarted || st[k] == PhaseStatus::Failed
            &&& forall|i: int| 0 <= i < k ==> st[i] == PhaseStatus::Completed
        },
        PhaseStatus::Completed => st[k] == PhaseStatus::InProgress,
        PhaseStatus::Failed => st[k] == PhaseStatus::InProgress,
        PhaseStatus::NotStarted => false,
    }
}

/// A change that is allowed keeps the phases in order.
pub proof fn lemma_change_keeps_order(st: Seq<PhaseStatus>, k: int, to: PhaseStatus)
    requires
        spec_in_order(st),
        spec_may_change(st, k, to),
    ensures
        spec_in_order(st.update(k, to)),
{
    let after = st.update(k, to);
    assert forall|i: int, j: int|
        0 <= i < j < after.len() && after[j] != PhaseStatus::NotStarted implies after[i]
        == PhaseStatus::Completed by {
        if j == k {
            if to == PhaseStatus::InProgress {
                assert(st[i] == PhaseStatus::Completed);
            } else {
                assert(st[j] != PhaseStatus::NotStarted);
            }
        } else if i == k {
            assert(st[j] != PhaseStatus::NotStarted);
            assert(st[i] == PhaseStatus::Completed);
        } else {
            assert(st[j] == after[j]);
        }
    }
}

/// Among phases in order, at most one is in progress.
pub proof fn lemma_at_most_one_in_progress(st: Seq<PhaseStatus>, i: int, j: int)
    requires
        spec_in_order(st),
        0 <= i < st.len(),
        0 <= j < st.len(),
        st[i] == PhaseStatus::InProgress,
        st[j] == PhaseStatus::InProgress,
    ensures
        i == j,
{
    if i < j {
        assert(st[i] == PhaseStatus::Completed);
    }
    if j < i {
        assert(st[j] == PhaseStatus::Completed);
    }
}

/// Among phases in order, none is completed while an earlier one is not.
pub proof fn lemma_completed_prefix(st: Seq<PhaseStatus>, i: int, j: int)
    requires
        spec_in_order(st),
        0 <= i < j < st.len(),
        st[j] == PhaseStatus::Completed,
    ensures
        st[i] == PhaseStatus::Completed,
{
}

/// The place of the first phase that is not completed; the number of
/// phases where all are.
pub open spec fn spec_first_open(st: Seq<PhaseStatus>) -> int
    decreases st.len(),
{
    if st.len() == 0 {
        0
    } else if spec_first_open(st.drop_last()) < st.len() - 1 {
        spec_first_open(st.drop_last())
    } else if st.last() == PhaseStatus::Completed {
        st.len() as int
    } else {
        st.len() - 1
    }
}

/// What `spec_first_open` gives is the least place of a phase that is not completed.
pub proof fn lemma_first_open(st: Seq<PhaseStatus>)
    ensures
        0 <= spec_first_open(st) <= st.len(),
        forall|i: int| 0 <= i < spec_first_open(st) ==> st[i] == PhaseStatus::Completed,
        spec_first_open(st) < st.len() ==> st[spec_first_open(st)] != PhaseStatus::Completed,
    decreases st.len(),
{
    if st.len() > 0 {
        lemma_first_open(st.drop_last());
        let f = spec_first_open(st.drop_last());
        assert forall|i: int| 0 <= i < spec_first_open(st) implies st[i]
            == PhaseStatus::Completed by {
            if i < st.len() - 1 {
                assert(st.drop_last()[i] == st[i]);
            }
        }
        if f < st.len() - 1 {
            assert(st.drop_last()[f] == st[f]);
        }
    }
}

impl PhaseState {
    /// The record of a phase that has not been started.
    pub fn new() -> (res: Self)
        ensures
            res.status == PhaseStatus::NotStarted,
            res.started_at is None,
            res.completed_at is None,
            res.error is None,
            res.artifacts@.len() == 0,
            res.checkpoints.wf(),
            res.checkpoints@ == Map::<Seq<char>, String>::empty(),
    {
        PhaseState {
            status: PhaseStatus::NotStarted,
            started_at: None,
            completed_at: None,
            error: None,
            artifacts: Vec::new(),
            checkpoints: StrMap::new(),
        }
    }
}

impl BuildState {
    /// There is one record for each phase, the phases are in order, and the
    /// checkpoints of each phase form a map.
    pub open spec fn wf(&self) -> bool {
        &&& self.phases@.len() == PHASE_COUNT
        &&& spec_in_order(spec_statuses(self.phases@))
        &&& forall|i: int| 0 <= i < self.phases@.len() ==> (#[trigger] self.phases@[i]).checkpoints.wf()
    }

    /// The statuses of the phases, in the order of phases.
    pub open spec fn statuses(&self) -> Seq<PhaseStatus> {
        spec_statuses(self.phases@)
    }

    /// Whether the record is in order, as one that was read from a file
    /// must be before it is used.
    pub fn is_well_formed(&self) -> (res: bool)
        ensures
            res == self.wf(),
    {
        if self.phases.len() != PHASE_COUNT {
            return false;
        }
        let ghost st = self.statuses();
        let mut all_done = true;
        let mut j: usize = 0;
        while j < PHASE_COUNT
            invariant
                j <= PHASE_COUNT,
                self.phases@.len() == PHASE_COUNT,
                st == spec_statuses(self.phases@),
                all_done <==> forall|i: int| 0 <= i < j ==> st[i] == PhaseStatus::Completed,
                forall|a: int, b: int|
                    0 <= a < b < j && st[b] != PhaseStatus::NotStarted ==> st[a]
                        == PhaseStatus::Completed,
                forall|i: int| 0 <= i < j ==> (#[trigger] self.phases@[i]).checkpoints.wf(),
            decreases PHASE_COUNT - j,
        {
            let status = self.phases[j].status;
            assert(status == st[j as int]);
            if status != PhaseStatus::NotStarted && !all_done {
                let ghost w = choose|w: int| 0 <= w < j && st[w] != PhaseStatus::Completed;
                assert(!spec_in_order(st));
                return false;
            }
            if !self.phases[j].checkpoints.has_unique_keys() {
                return false;
            }
            if status != PhaseStatus::Completed {
                all_done = false;
            }
            j += 1;
        }
        true
    }

    /// The status of `phase`.
    pub fn status_of(&self, phase: BuildPhase) -> (res: PhaseStatus)
        requires
            self.wf(),
        ensures
            res == self.statuses()[spec_phase_index(phase)],
    {
        self.phases[phase.index()].status
    }

    /// Moves `phase` to `status` at time `now`, if the order of phases
    /// allows it; else nothing changes and the refusal is returned. A phase
    /// that begins gets `now` as its start, one that ends gets it as its
    /// end, and `error` is recorded with the phase.
    pub fn update_phase(
        &mut self,
        phase: BuildPhase,
        status: PhaseStatus,
        error: Option<String>,
        now: u64,
    ) -> (res: Result<(), BuildError>)
        requires
            old(self).wf(),
        ensures
            final(self).wf(),
            res is Ok <==> spec_may_change(old(self).statuses(), spec_phase_index(phase), status),
            res is Err ==> *final(self) == *old(self),
            res is Ok ==> {
                let k = spec_phase_index(phase);
                &&& final(self).statuses() == old(self).statuses().update(k, status)
                &&& final(self).last_updated == now
                &&& final(self).phases@[k].error == error
                &&& final(self).phases@[k].started_at == (if status == PhaseStatus::InProgress {
                    Some(now)
                } else {
                    old(self).phases@[k].started_at
                })
                &&& final(self).phases@[k].completed_at == (if status
                    == PhaseStatus::InProgress {
                    old(self).phases@[k].completed_at
                } else {
                    Some(now)
                })
                &&& final(self).phases@[k].checkpoints == old(self).phases@[k].checkpoints
                &&& final(self).phases@[k].artifacts == old(self).phases@[k].artifacts
                &&& forall|i: int|
                    0 <= i < PHASE_COUNT && i != k ==> final(self).phases@[i] == old(self).phases@[i]
                &&& final(self).version == old(self).version
                &&& final(self).started_at == old(self).started_at
                &&& final(self).build_dir == old(self).build_dir
                &&& final(self).install_prefix == old(self).install_prefix
                &&& final(self).config_hash == old(self).config_hash
            },
    {
        let k = phase.index();
        let ghost st = self.statuses();
        let current = self.phases[k].status;
        assert(current == st[k as int]);
        let allowed: bool = match status {
            PhaseStatus::InProgress => {
                if current == PhaseStatus::NotStarted || current == PhaseStatus::Failed {
                    let mut all_done = true;
                    let mut i: usize = 0;
                    while i < k
                        invariant
                            i <= k < PHASE_COUNT,
                            self.phases@.len() == PHASE_COUNT,
                            st == spec_statuses(self.phases@),
                            all_done <==> forall|j: int|
                                0 <= j < i ==> st[j] == PhaseStatus::Completed,
                        decreases k - i,
                    {
                        if self.phases[i].status != PhaseStatus::Completed {
                            assert(st[i as int] != PhaseStatus::Completed);
                            all_done = false;
                        }
                        i += 1;
                    }
                    all_done
                } else {
                    false
                }
            },
            PhaseStatus::Completed => current == PhaseStatus::InProgress,
            PhaseStatus::Failed => current == PhaseStatus::InProgress,
            PhaseStatus::NotStarted => false,
        };
        assert(allowed == spec_may_change(st, k as int, status));
        if !allowed {
            return Err(
                BuildError::Configuration { message: "phase transition out of order".to_owned() },
            );
        }
        let ghost before = self.phases@;
        let mut slot = PhaseState::new();
        self.phases.push(slot);
        let mut taken = self.phases.swap_remove(k);
        assert(taken == before[k as int]);
        let started: Option<u64> = if status == PhaseStatus::InProgress {
            Some(now)
        } else {
            taken.started_at
        };
        let completed: Option<u64> = if status == PhaseStatus::InProgress {
            taken.completed_at
        } else {
            Some(now)
        };
        let fresh = PhaseState {
            status,
            started_at: started,
            completed_at: completed,
            error,
            artifacts: taken.artifacts,
            checkpoints: taken.checkpoints,
        };
        self.phases.set(k, fresh);
        self.last_updated = now;
        proof {
            assert(self.phases@ =~= before.update(k as int, fresh));
            assert(self.statuses() =~= st.update(k as int, status));
            lemma_change_keeps_order(st, k as int, status);
            assert forall|i: int| 0 <= i < self.phases@.len() implies (
            #[trigger] self.phases@[i]).checkpoints.wf() by {
                if i != k {
                    assert(self.phases@[i] == before[i]);
                } else {
                    assert(before[k as int].checkpoints.wf());
                }
            }
        }
        Ok(())
    }

    /// Marks every phase completed at time `now`: the installation was
    /// taken from the cache, so there is nothing left to run.
    pub fn complete_from_cache(&mut self, now: u64)
        requires
            old(self).wf(),
        ensures
            final(self).wf(),
            forall|i: int| 0 <= i < PHASE_COUNT ==> final(self).statuses()[i] == PhaseStatus::Completed,
            final(self).last_updated == now,
            final(self).version == old(self).version,
            final(self).config_hash == old(self).config_hash,
    {
        let mut fresh: Vec<PhaseState> = Vec::new();
        let mut i: usize = 0;
        while i < PHASE_COUNT
            invariant
                i <= PHASE_COUNT,
                fresh@.len() == i,
                forall|j: int|
                    0 <= j < i ==> (#[trigger] fresh@[j]).status == PhaseStatus::Completed
                        && fresh@[j].checkpoints.wf(),
            decreases PHASE_COUNT - i,
        {
            let mut p = PhaseState::new();
            p.status = PhaseStatus::Completed;
            p.completed_at = Some(now);
            fresh.push(p);
            i += 1;
        }
        self.phases = fresh;
        self.last_updated = now;
    }

    /// Records `value` under `key` among the checkpoints of `phase`.
    pub fn add_checkpoint(&mut self, phase: BuildPhase, key: String, value: String, now: u64)
        requires
            old(self).wf(),
        ensures
            final(self).wf(),
            final(self).statuses() == old(self).statuses(),
            final(self).last_updated == now,
            final(self).phases@[spec_phase_index(phase)].checkpoints@ == old(self).phases@[spec_phase_index(phase)].checkpoints@.insert(key@, value),
            forall|i: int|
                0 <= i < PHASE_COUNT && i != spec_phase_index(phase) ==> final(self).phases@[i]
                    == old(self).phases@[i],
    {
        let k = phase.index();
        let ghost before = self.phases@;
        let slot = PhaseState::new();
        self.phases.push(slot);
        let taken = self.phases.swap_remove(k);
        assert(taken == before[k as int]);
        let mut checkpoints = taken.checkpoints;
        checkpoints.insert(key, value);
        let fresh = PhaseState {
            status: taken.status,
            started_at: taken.started_at,
            completed_at: taken.completed_at,
            error: taken.error,
            artifacts: taken.artifacts,
            checkpoints,
        };
        self.phases.set(k, fresh);
        self.last_updated = now;
        proof {
            assert(self.phases@ =~= before.update(k as int, fresh));
            assert(self.statuses() =~= spec_statuses(before));
            assert forall|i: int| 0 <= i < self.phases@.len() implies (
            #[trigger] self.phases@[i]).checkpoints.wf() by {
                if i != k {
                    assert(self.phases@[i] == before[i]);
                }
            }
        }
    }

    /// The first phase that is not completed: where a resumed build picks
    /// up. Nothing where every phase is completed.
    pub fn get_resume_point(&self) -> (res: Option<BuildPhase>)
        requires
            self.wf(),
        ensures
            res is Some <==> spec_first_open(self.statuses()) < PHASE_COUNT,
            res matches Some(p) ==> spec_phase_index(p) == spec_first_open(self.statuses()),
    {
        let mut i: usize = 0;
        while i < PHASE_COUNT
            invariant
                i <= PHASE_COUNT,
                self.phases@.len() == PHASE_COUNT,
                forall|j: int| 0 <= j < i ==> self.statuses()[j] == PhaseStatus::Completed,
            decreases PHASE_COUNT - i,
        {
            if self.phases[i].status != PhaseStatus::Completed {
                assert(self.statuses()[i as int] != PhaseStatus::Completed);
                proof {
                    lemma_first_open(self.statuses());
                }
                return BuildPhase::from_index(i);
            }
            i += 1;
        }
        proof {
            lemma_first_open(self.statuses());
        }
        None
    }

    /// Whether some phase has failed.
    pub open spec fn spec_any_failed(&self) -> bool {
        exists|i: int| 0 <= i < self.phases@.len() && self.statuses()[i] == PhaseStatus::Failed
    }

    /// Whether the build can be taken up again: the configuration is the
    /// one it was started with, its build directory is still there, and it
    /// has failed somewhere or has not come to its end.
    pub fn can_resume(&self, config_hash: &str, build_dir_exists: bool) -> (res: bool)
        requires
            self.wf(),
        ensures
            res == (self.config_hash@ == config_hash@ && build_dir_exists && (self.spec_any_failed()
                || self.statuses()[PHASE_COUNT - 1] != PhaseStatus::Completed)),
    {
        if !str_eq(self.config_hash.as_str(), config_hash) {
            return false;
        }
        if !build_dir_exists {
            return false;
        }
        let mut i: usize = 0;
        while i < PHASE_COUNT
            invariant
                i <= PHASE_COUNT,
                self.phases@.len() == PHASE_COUNT,
                self.config_hash@ == config_hash@,
                build_dir_exists,
                forall|j: int| 0 <= j < i ==> self.statuses()[j] != PhaseStatus::Failed,
            decreases PHASE_COUNT - i,
        {
            if self.phases[i].status == PhaseStatus::Failed {
                assert(self.statuses()[i as int] == PhaseStatus::Failed);
                return true;
            }
            i += 1;
        }
        self.phases[PHASE_COUNT - 1].status != PhaseStatus::Completed
    }

    /// Whether every phase is completed.
    pub fn is_complete(&self) -> (res: bool)
        requires
            self.wf(),
        ensures
            res == (self.statuses()[PHASE_COUNT - 1] == PhaseStatus::Completed),
            res ==> forall|i: int| 0 <= i < PHASE_COUNT ==> self.statuses()[i] == PhaseStatus::Completed,
    {
        let done = self.phases[PHASE_COUNT - 1].status == PhaseStatus::Completed;
        proof {
            if done {
                assert forall|i: int| 0 <= i < PHASE_COUNT implies self.statuses()[i]
                    == PhaseStatus::Completed by {
                    if i < PHASE_COUNT - 1 {
                        assert(self.statuses()[PHASE_COUNT - 1] != PhaseStatus::NotStarted);
                    }
                }
            }
        }
        done
    }
}

/// Keeps the recorded states of builds under one directory.
#[derive(Debug)]
pub struct BuildStateManager {
    pub state_dir: String,
}

/// The name of the file that holds the state of a version.
pub open spec fn spec_state_file_name(full: Seq<char>) -> Seq<char> {
    "gcc-"@ + full + "-state.json"@
}

impl BuildStateManager {
    /// A manager that keeps its files under `state_dir`.
    pub fn new(state_dir: String) -> (res: Self)
        ensures
            res.state_dir@ == state_dir@,
    {
        BuildStateManager { state_dir }
    }

    /// The path of the file that holds the state of `version`.
    pub fn state_file(&self, version: &GccVersion) -> (res: String)
        ensures
            res@ == spec_path_join(self.state_dir@, spec_state_file_name(version.full@)),
    {
        let mut name = "gcc-".to_owned();
        name.append(version.full.as_str());
        name.append("-state.json");
        path_join(self.state_dir.as_str(), name.as_str())
    }

    /// Whether a file of this name holds the state of some version.
    pub fn is_state_file(name: &str) -> (res: bool)
        ensures
            res == spec_ends_with(name@, "-state.json"@),
    {
        str_ends_with(name, "-state.json")
    }

    /// The state of a build that has not begun: no phase is started.
    pub fn create_state(
        version: GccVersion,
        build_dir: String,
        install_prefix: String,
        config_hash: String,
        now: u64,
    ) -> (res: BuildState)
        ensures
            res.wf(),
            res.version == version,
            res.build_dir@ == build_dir@,
            res.install_prefix@ == install_prefix@,
            res.config_hash@ == config_hash@,
            res.started_at == now,
            res.last_updated == now,
            forall|i: int|
                0 <= i < PHASE_COUNT ==> {
                    &&& (#[trigger] res.phases@[i]).status == PhaseStatus::NotStarted
                    &&& res.phases@[i].started_at is None
                    &&& res.phases@[i].completed_at is None
                    &&& res.phases@[i].error is None
                    &&& res.phases@[i].checkpoints@ == Map::<Seq<char>, String>::empty()
                },
    {
        let mut phases: Vec<PhaseState> = Vec::new();
        let mut i: usize = 0;
        while i < PHASE_COUNT
            invariant
                i <= PHASE_COUNT,
                phases@.len() == i,
                forall|j: int|
                    0 <= j < i ==> {
                        &&& (#[trigger] phases@[j]).status == PhaseStatus::NotStarted
                        &&& phases@[j].started_at is None
                        &&& phases@[j].completed_at is None
                        &&& phases@[j].error is None
                        &&& phases@[j].checkpoints.wf()
                        &&& phases@[j].checkpoints@ == Map::<Seq<char>, String>::empty()
                    },
            decreases PHASE_COUNT - i,
        {
            phases.push(PhaseState::new());
            i += 1;
        }
        BuildState {
            version,
            phases,
            started_at: now,
            last_updated: now,
            build_dir,
            install_prefix,
            config_hash,
        }
    }
}

} // verus!
