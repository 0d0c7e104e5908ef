use vstd::prelude::*;
use vstd::string::StringExecFns;
use crate::config::BuildConfig;
use crate::decimal::{push_decimal, spec_decimal};
use crate::error::BuildError;
use crate::jobs::{optimal_jobs, spec_optimal_jobs};
use crate::options::{spec_level_of, OptimizationLevel};
use crate::version::GccVersion;

verus! {

/// Memory, in megabytes, that any build needs.
pub const BASE_RAM_MB: u64 = 3000;

/// Memory, in megabytes, that one make job is reckoned to need.
pub const RAM_PER_JOB_MB: u64 = 2000;

/// How long, in seconds, a build waits between two looks at the free memory.
pub const RAM_WAIT_STEP_SECS: u64 = 10;

/// How long, in seconds, a build waits for memory before it gives up.
pub const RAM_WAIT_LIMIT_SECS: u64 = 300;

/// How many load readings are kept.
pub const LOAD_HISTORY_LIMIT: usize = 60;

/// The phases of a build as the scheduler sees them, in their order.
#[derive(Debug, Clone, Copy, PartialEq, Eq, Structural, Hash)]
pub enum BuildPhase {
    Configure,
    Bootstrap,
    Compile,
    Link,
    Install,
    Test,
}

/// What a phase takes of the machine. Shares are in hundredths.
#[derive(Debug, Clone, Copy, PartialEq, Eq, Structural)]
pub struct PhaseProfile {
    pub cpu_intensity: u8,
    pub memory_multiplier: u8,
    pub io_intensity: u8,
    pub parallelism_efficiency: u8,
    pub typical_duration_pct: u8,
}

/// How boldly the machine is used.
#[derive(Debug, Clone, Copy, PartialEq, Eq, Structural)]
pub enum SchedulingStrategy {
    Conservative,
    Balanced,
    Aggressive,
}

/// The place of a phase in the order of phases.
pub open spec fn spec_phase_rank(phase: BuildPhase) -> int {
    match phase {
        BuildPhase::Configure => 0,
        BuildPhase::Bootstrap => 1,
        BuildPhase::Compile => 2,
        BuildPhase::Link => 3,
        BuildPhase::Install => 4,
        BuildPhase::Test => 5,
    }
}

/// What each phase takes of the machine, as measured.
pub open spec fn spec_phase_profile(phase: BuildPhase) -> PhaseProfile {
    match phase {
        BuildPhase::Configure => PhaseProfile {
            cpu_intensity: 20,
            memory_multiplier: 10,
            io_intensity: 80,
            parallelism_efficiency: 30,
            typical_duration_pct: 5,
        },
        BuildPhase::Bootstrap => PhaseProfile {
            cpu_intensity: 60,
            memory_multiplier: 40,
            io_intensity: 40,
            parallelism_efficiency: 70,
            typical_duration_pct: 15,
        },
        BuildPhase::Compile => PhaseProfile {
            cpu_intensity: 95,
            memory_multiplier: 100,
            io_intensity: 30,
            parallelism_efficiency: 90,
            typical_duration_pct: 60,
        },
        BuildPhase::Link => PhaseProfile {
            cpu_intensity: 40,
            memory_multiplier: 120,
            io_intensity: 70,
            parallelism_efficiency: 20,
            typical_duration_pct: 10,
        },
        BuildPhase::Install => PhaseProfile {
            cpu_intensity: 10,
            memory_multiplier: 10,
            io_intensity: 90,
            parallelism_efficiency: 40,
            typical_duration_pct: 5,
        },
        BuildPhase::Test => PhaseProfile {
            cpu_intensity: 80,
            memory_multiplier: 60,
            io_intensity: 50,
            parallelism_efficiency: 80,
            typical_duration_pct: 5,
        },
    }
}

/// The memory, in megabytes, that one build is reckoned to need: the base,
/// more for multilib, more the higher the optimization level, more for a
/// static build.
pub open spec fn spec_ram_per_build(multilib: bool, level: Option<OptimizationLevel>, is_static: bool) -> u64 {
    (BASE_RAM_MB + (if multilib {
        1000int
    } else {
        0int
    }) + (match level {
        Some(l) => l.spec_extra_ram_mb() as int,
        None => 0int,
    }) + (if is_static {
        500int
    } else {
        0int
    })) as u64
}

/// How many builds may run at once: as many as four fifths of the memory
/// hold, at most one for every two logical cores, and at least one.
pub open spec fn spec_max_concurrent(total_ram_mb: int, ram_per_build: int, cores: int) -> int {
    let by_ram = (total_ram_mb * 80 / 100) / ram_per_build;
    let by_cpu = cores / 2;
    let least = if by_ram < by_cpu {
        by_ram
    } else {
        by_cpu
    };
    if least < 1 {
        1
    } else {
        least
    }
}

/// The strategy for a machine.
pub open spec fn spec_strategy(total_ram_mb: int, cores: int) -> SchedulingStrategy {
    if total_ram_mb < 8000 || cores <= 4 {
        SchedulingStrategy::Conservative
    } else if total_ram_mb >= 32000 && cores >= 16 {
        SchedulingStrategy::Aggressive
    } else {
        SchedulingStrategy::Balanced
    }
}

/// The share of the processors, in hundredths, that a strategy aims to use.
pub open spec fn spec_target_utilization(strategy: SchedulingStrategy) -> int {
    match strategy {
        SchedulingStrategy::Conservative => 70,
        SchedulingStrategy::Balanced => 80,
        SchedulingStrategy::Aggressive => 95,
    }
}

/// How many builds may run at once after `oom_count` builds have run out
/// of memory: three quarters of the full number after the first, half after
/// the second, one after that; never fewer than one.
pub open spec fn spec_reduced_capacity(max_concurrent: int, oom_count: int) -> int {
    let c = if oom_count <= 0 {
        max_concurrent
    } else if oom_count == 1 {
        max_concurrent * 3 / 4
    } else if oom_count == 2 {
        max_concurrent / 2
    } else {
        1
    };
    if c < 1 {
        1
    } else {
        c
    }
}

impl BuildPhase {
    /// The place of this phase in the order of phases.
    pub fn rank(&self) -> (res: u8)
        ensures
            res == spec_phase_rank(*self),
    {
        match self {
            BuildPhase::Configure => 0,
            BuildPhase::Bootstrap => 1,
            BuildPhase::Compile => 2,
            BuildPhase::Link => 3,
            BuildPhase::Install => 4,
            BuildPhase::Test => 5,
        }
    }

    /// What this phase takes of the machine.
    pub fn profile(&self) -> (res: PhaseProfile)
        ensures
            res == spec_phase_profile(*self),
    {
        match self {
            BuildPhase::Configure => PhaseProfile {
                cpu_intensity: 20,
                memory_multiplier: 10,
                io_intensity: 80,
                parallelism_efficiency: 30,
                typical_duration_pct: 5,
            },
            BuildPhase::Bootstrap => PhaseProfile {
                cpu_intensity: 60,
                memory_multiplier: 40,
                io_intensity: 40,
                parallelism_efficiency: 70,
                typical_duration_pct: 15,
            },
            BuildPhase::Compile => PhaseProfile {
                cpu_intensity: 95,
                memory_multiplier: 100,
                io_intensity: 30,
                parallelism_efficiency: 90,
                typical_duration_pct: 60,
            },
            BuildPhase::Link => PhaseProfile {
                cpu_intensity: 40,
                memory_multiplier: 120,
                io_intensity: 70,
                parallelism_efficiency: 20,
                typical_duration_pct: 10,
            },
            BuildPhase::Install => PhaseProfile {
                cpu_intensity: 10,
                memory_multiplier: 10,
                io_intensity: 90,
                parallelism_efficiency: 40,
                typical_duration_pct: 5,
            },
            BuildPhase::Test => PhaseProfile {
                cpu_intensity: 80,
                memory_multiplier: 60,
                io_intensity: 50,
                parallelism_efficiency: 80,
                typical_duration_pct: 5,
            },
        }
    }
}

/// The memory, in megabytes, that one build under `config` is reckoned to need.
pub fn calculate_ram_per_build(config: &BuildConfig) -> (res: u64)
    ensures
        res == spec_ram_per_build(
            config.enable_multilib,
            spec_level_of(config.optimization@),
            config.static_build,
        ),
        BASE_RAM_MB <= res <= BASE_RAM_MB + 2500,
{
    let mut ram: u64 = BASE_RAM_MB;
    if config.enable_multilib {
        ram += 1000;
    }
    match config.optimization_level() {
        Some(l) => {
            ram += l.extra_ram_mb();
        },
        None => {},
    }
    if config.static_build {
        ram += 500;
    }
    ram
}

/// How many builds may run at once on a machine.
pub fn max_concurrent_for(total_ram_mb: u64, ram_per_build: u64, cores: usize) -> (res: usize)
    requires
        ram_per_build >= 1,
    ensures
        res == spec_max_concurrent(total_ram_mb as int, ram_per_build as int, cores as int),
        res >= 1,
{
    let by_ram: u128 = ((total_ram_mb as u128) * 80 / 100) / (ram_per_build as u128);
    let by_cpu: usize = cores / 2;
    let least: usize = if by_ram < by_cpu as u128 {
        by_ram as usize
    } else {
        by_cpu
    };
    if least < 1 {
        1
    } else {
        least
    }
}

/// The strategy for a machine.
pub fn determine_scheduling_strategy(total_ram_mb: u64, cores: usize) -> (res: SchedulingStrategy)
    ensures
        res == spec_strategy(total_ram_mb as int, cores as int),
{
    if total_ram_mb < 8000 || cores <= 4 {
        SchedulingStrategy::Conservative
    } else if total_ram_mb >= 32000 && cores >= 16 {
        SchedulingStrategy::Aggressive
    } else {
        SchedulingStrategy::Balanced
    }
}

/// The share of the processors, in hundredths, that a strategy aims to use.
pub fn target_utilization(strategy: SchedulingStrategy) -> (res: u32)
    ensures
        res == spec_target_utilization(strategy),
{
    match strategy {
        SchedulingStrategy::Conservative => 70,
        SchedulingStrategy::Balanced => 80,
        SchedulingStrategy::Aggressive => 95,
    }
}

/// What a build that waits for memory does after it has waited
/// `waited_secs`: it waits one step more, or gives up when the limit is passed.
pub fn ram_wait_step(waited_secs: u64) -> (res: Option<u64>)
    ensures
        res == if waited_secs > RAM_WAIT_LIMIT_SECS {
            None
        } else {
            Some(RAM_WAIT_STEP_SECS)
        },
{
    if waited_secs > RAM_WAIT_LIMIT_SECS {
        None
    } else {
        Some(RAM_WAIT_STEP_SECS)
    }
}

/// A build that holds a slot.
#[derive(Debug)]
pub struct ActiveBuild {
    pub version: GccVersion,
    /// When the slot was granted, in seconds since the epoch.
    pub start: u64,
    pub estimated_ram_mb: u64,
    pub phase: BuildPhase,
}

/// A build that has given its slot back.
#[derive(Debug)]
pub struct CompletedBuild {
    pub version: GccVersion,
    pub duration_secs: u64,
    pub peak_ram_mb: u64,
    pub success: bool,
}

/// The ticket of a build that holds a slot. It names the build and is
/// handed back to the scheduler when the build ends.
#[derive(Debug)]
pub struct BuildSlot {
    pub version: GccVersion,
    pub start: u64,
}

/// What a request for a slot comes to.
#[derive(Debug)]
pub enum AcquireOutcome {
    /// The slot is granted.
    Granted(BuildSlot),
    /// The version holds a slot already.
    AlreadyActive,
    /// Another build asked earlier and is served first.
    Queued,
    /// All slots are taken.
    NoPermit,
    /// Less memory is free than one build needs.
    LowMemory,
}

/// How long, in seconds, a build waits before it asks again for a slot
/// that another build is served before it, or that none is free of.
pub const SLOT_POLL_SECS: u64 = 1;

/// What a build does after it has asked for a slot.
#[derive(Debug)]
pub enum AcquireNext {
    /// It holds the slot and begins.
    Granted(BuildSlot),
    /// It asks again after `secs` seconds, having waited `waited_secs`
    /// seconds for memory by then.
    AskAgain { secs: u64, waited_secs: u64 },
    /// It gives up.
    Failed(BuildError),
}

/// What is said of a version that asks for a second slot.
pub open spec fn spec_already_active_text(full: Seq<char>) -> Seq<char> {
    "GCC "@ + full + " is being built already"@
}

/// What is said when memory was waited for in vain.
pub open spec fn spec_ram_timeout_text() -> Seq<char> {
    "Waited "@ + spec_decimal(RAM_WAIT_LIMIT_SECS as nat)
        + " seconds but insufficient RAM available"@
}

/// The time waited for memory once a pause has been added to it.
pub open spec fn spec_waited_after(waited_secs: u64, pause: u64) -> u64 {
    if waited_secs + pause > u64::MAX {
        u64::MAX
    } else {
        (waited_secs + pause) as u64
    }
}

/// What a build does after it has asked for a slot, having waited
/// `waited_secs` seconds for memory so far. A build that was granted the
/// slot begins. A version that holds a slot gets no second one: this
/// fails. A build that others are served before, or that finds no slot
/// free, asks again shortly. A build that finds too little memory free
/// waits one step and asks again, and fails once it has waited beyond the
/// limit.
pub fn after_acquire(outcome: AcquireOutcome, version: &GccVersion, waited_secs: u64) -> (res:
    AcquireNext)
    ensures
        match outcome {
            AcquireOutcome::Granted(slot) => res matches AcquireNext::Granted(s) && s == slot,
            AcquireOutcome::AlreadyActive => res matches AcquireNext::Failed(e) && e
                matches BuildError::ResourceExhausted { resource, message } && resource@
                == "build slots"@ && message@ == spec_already_active_text(version.full@),
            AcquireOutcome::Queued => res matches AcquireNext::AskAgain { secs, waited_secs: w }
                && secs == SLOT_POLL_SECS && w == waited_secs,
            AcquireOutcome::NoPermit => res matches AcquireNext::AskAgain { secs, waited_secs: w }
                && secs == SLOT_POLL_SECS && w == waited_secs,
            AcquireOutcome::LowMemory => if waited_secs > RAM_WAIT_LIMIT_SECS {
                res matches AcquireNext::Failed(e) && e matches BuildError::ResourceExhausted {
                    resource,
                    message,
                } && resource@ == "RAM"@ && message@ == spec_ram_timeout_text()
            } else {
                res matches AcquireNext::AskAgain { secs, waited_secs: w } && secs
                    == RAM_WAIT_STEP_SECS && w == spec_waited_after(waited_secs, RAM_WAIT_STEP_SECS)
            },
        },
{
    match outcome {
        AcquireOutcome::Granted(slot) => AcquireNext::Granted(slot),
        AcquireOutcome::AlreadyActive => {
            let mut message = "GCC ".to_owned();
            message.append(version.full.as_str());
            message.append(" is being built already");
            let e = BuildError::ResourceExhausted { resource: "build slots".to_owned(), message };
            assert(e matches BuildError::ResourceExhausted { resource, message: m } && resource@
                == "build slots"@ && m@ == spec_already_active_text(version.full@));
            AcquireNext::Failed(e)
        },
        AcquireOutcome::Queued => AcquireNext::AskAgain { secs: SLOT_POLL_SECS, waited_secs },
        AcquireOutcome::NoPermit => AcquireNext::AskAgain { secs: SLOT_POLL_SECS, waited_secs },
        AcquireOutcome::LowMemory => match ram_wait_step(waited_secs) {
            Some(pause) => {
                let waited: u64 = if waited_secs > u64::MAX - pause {
                    u64::MAX
                } else {
                    waited_secs + pause
                };
                AcquireNext::AskAgain { secs: pause, waited_secs: waited }
            },
            None => {
                let mut message = "Waited ".to_owned();
                push_decimal(&mut message, RAM_WAIT_LIMIT_SECS);
                message.append(" seconds but insufficient RAM available");
                let e = BuildError::ResourceExhausted { resource: "RAM".to_owned(), message };
                assert(e matches BuildError::ResourceExhausted { resource, message: m } && resource@
                    == "RAM"@ && m@ == spec_ram_timeout_text());
                AcquireNext::Failed(e)
            },
        },
    }
}

/// Figures on the builds that the scheduler has seen.
#[derive(Debug)]
pub struct SchedulerStatistics {
    pub total_builds: usize,
    pub completed_builds: usize,
    pub active_builds: usize,
    pub failed_builds: usize,
    /// Mean duration of the completed builds, in seconds.
    pub average_build_time: Option<u64>,
    pub peak_ram_usage: u64,
}

/// Admits builds to the machine: no more at a time than its memory and
/// processors carry, in the order in which they asked.
#[derive(Debug)]
pub struct BuildScheduler {
    pub max_concurrent: usize,
    /// How many builds may hold a slot now; lowered when builds run out of memory.
    pub capacity: usize,
    pub ram_per_build: u64,
    pub total_ram_mb: u64,
    pub available_ram_mb: u64,
    pub logical_cores: usize,
    pub active: Vec<ActiveBuild>,
    pub waiting: Vec<GccVersion>,
    pub completed: Vec<CompletedBuild>,
    pub strategy: SchedulingStrategy,
    /// The last load reading, in hundredths of the machine.
    pub current_load: u32,
    pub load_history: Vec<u32>,
}

/// The versions of a list of active builds.
pub open spec fn spec_active_ids(active: Seq<ActiveBuild>) -> Seq<(int, int, int)> {
    Seq::new(active.len(), |i: int| active[i].version.triple())
}

/// The versions of a list of versions.
pub open spec fn spec_ids(versions: Seq<GccVersion>) -> Seq<(int, int, int)> {
    Seq::new(versions.len(), |i: int| versions[i].triple())
}

/// No element occurs twice.
pub open spec fn spec_distinct(ids: Seq<(int, int, int)>) -> bool {
    forall|i: int, j: int| 0 <= i < ids.len() && 0 <= j < ids.len() && i != j ==> ids[i] != ids[j]
}

/// How many of the completed builds failed.
pub open spec fn spec_failed_count(completed: Seq<CompletedBuild>) -> nat
    decreases completed.len(),
{
    if completed.len() == 0 {
        0
    } else {
        spec_failed_count(completed.drop_last()) + (if completed.last().success {
            0nat
        } else {
            1nat
        })
    }
}

/// The durations of the completed builds, added up.
pub open spec fn spec_total_duration(completed: Seq<CompletedBuild>) -> nat
    decreases completed.len(),
{
    if completed.len() == 0 {
        0
    } else {
        spec_total_duration(completed.drop_last()) + completed.last().duration_secs as nat
    }
}

/// The largest peak of memory among the completed builds; zero where there is none.
pub open spec fn spec_peak_ram(completed: Seq<CompletedBuild>) -> nat
    decreases completed.len(),
{
    if completed.len() == 0 {
        0
    } else {
        let before = spec_peak_ram(completed.drop_last());
        if completed.last().peak_ram_mb as nat > before {
            completed.last().peak_ram_mb as nat
        } else {
            before
        }
    }
}

impl BuildScheduler {
    /// Between one build and the full number may hold a slot; no more
    /// builds hold one than the machine carries; no version holds two slots
    /// or waits twice; the load history is bounded.
    pub open spec fn wf(&self) -> bool {
        &&& 1 <= self.capacity <= self.max_concurrent
        &&& self.active@.len() <= self.max_concurrent
        &&& spec_distinct(spec_active_ids(self.active@))
        &&& spec_distinct(spec_ids(self.waiting@))
        &&& self.load_history@.len() <= LOAD_HISTORY_LIMIT
        &&& self.ram_per_build >= 1
    }

    /// The slots that are taken: one for each active build.
    pub open spec fn permits_outstanding(&self) -> nat {
        self.active@.len()
    }

    /// Slots are conserved: no more builds hold a slot than the machine
    /// carries, and no version holds two.
    pub proof fn lemma_slots_conserved(&self, i: int, j: int)
        requires
            self.wf(),
            0 <= i < j < self.active@.len(),
        ensures
            self.permits_outstanding() == self.active@.len(),
            self.permits_outstanding() <= self.max_concurrent,
            self.active@[i].version.triple() != self.active@[j].version.triple(),
    {
        let ids = spec_active_ids(self.active@);
        assert(ids[i] != ids[j]);
    }

    /// A scheduler for builds under `config` on a machine with the given
    /// memory and logical cores. No build is active and none waits.
    pub fn new(config: &BuildConfig, total_ram_mb: u64, logical_cores: usize) -> (res: Self)
        ensures
            res.wf(),
            res.ram_per_build == spec_ram_per_build(
                config.enable_multilib,
                spec_level_of(config.optimization@),
                config.static_build,
            ),
            res.max_concurrent == spec_max_concurrent(
                total_ram_mb as int,
                res.ram_per_build as int,
                logical_cores as int,
            ),
            res.capacity == res.max_concurrent,
            res.total_ram_mb == total_ram_mb,
            res.available_ram_mb == total_ram_mb,
            res.logical_cores == logical_cores,
            res.active@.len() == 0,
            res.waiting@.len() == 0,
            res.completed@.len() == 0,
            res.strategy == spec_strategy(total_ram_mb as int, logical_cores as int),
            res.current_load == 0,
            res.load_history@.len() == 0,
    {
        let ram_per_build = calculate_ram_per_build(config);
        let max_concurrent = max_concurrent_for(total_ram_mb, ram_per_build, logical_cores);
        BuildScheduler {
            max_concurrent,
            capacity: max_concurrent,
            ram_per_build,
            total_ram_mb,
            available_ram_mb: total_ram_mb,
            logical_cores,
            active: Vec::new(),
            waiting: Vec::new(),
            completed: Vec::new(),
            strategy: determine_scheduling_strategy(total_ram_mb, logical_cores),
            current_load: 0,
            load_history: Vec::new(),
        }
    }

    /// Whether the scheduler is well-formed.
    pub fn is_well_formed(&self) -> (res: bool)
        ensures
            res == self.wf(),
    {
        if !(1 <= self.capacity && self.capacity <= self.max_concurrent && self.active.len()
            <= self.max_concurrent && self.load_history.len() <= LOAD_HISTORY_LIMIT
            && self.ram_per_build >= 1) {
            return false;
        }
        let ghost active = spec_active_ids(self.active@);
        let ghost waiting = spec_ids(self.waiting@);
        let mut i: usize = 0;
        while i < self.active.len()
            invariant
                i <= self.active.len(),
                active == spec_active_ids(self.active@),
                forall|a: int, b: int| 0 <= b < a < i ==> active[a] != active[b],
            decreases self.active.len() - i,
        {
            let mut j: usize = 0;
            while j < i
                invariant
                    j <= i < self.active.len(),
                    active == spec_active_ids(self.active@),
                    forall|b: int| 0 <= b < j ==> active[i as int] != active[b],
                decreases i - j,
            {
                if self.active[i].version.same_release(&self.active[j].version) {
                    assert(active[i as int] == active[j as int]);
                    return false;
                }
                j += 1;
            }
            i += 1;
        }
        let mut k: usize = 0;
        while k < self.waiting.len()
            invariant
                k <= self.waiting.len(),
                waiting == spec_ids(self.waiting@),
                forall|a: int, b: int| 0 <= b < a < k ==> waiting[a] != waiting[b],
            decreases self.waiting.len() - k,
        {
            let mut j: usize = 0;
            while j < k
                invariant
                    j <= k < self.waiting.len(),
                    waiting == spec_ids(self.waiting@),
                    forall|b: int| 0 <= b < j ==> waiting[k as int] != waiting[b],
                decreases k - j,
            {
                if self.waiting[k].same_release(&self.waiting[j]) {
                    assert(waiting[k as int] == waiting[j as int]);
                    return false;
                }
                j += 1;
            }
            k += 1;
        }
        assert(spec_distinct(active)) by {
            assert forall|a: int, b: int|
                0 <= a < active.len() && 0 <= b < active.len() && a != b implies active[a]
                != active[b] by {
                if a < b {
                    assert(active[b] != active[a]);
                }
            }
        }
        assert(spec_distinct(waiting)) by {
            assert forall|a: int, b: int|
                0 <= a < waiting.len() && 0 <= b < waiting.len() && a != b implies waiting[a]
                != waiting[b] by {
                if a < b {
                    assert(waiting[b] != waiting[a]);
                }
            }
        }
        true
    }

    /// The place of `version` among the active builds, if it is among them.
    pub fn active_position(&self, version: &GccVersion) -> (res: Option<usize>)
        ensures
            res is Some <==> spec_active_ids(self.active@).contains(version.triple()),
            res matches Some(i) ==> i < self.active@.len() && self.active@[i as int].version.triple()
                == version.triple(),
    {
        let mut i: usize = 0;
        while i < self.active.len()
            invariant
                i <= self.active.len(),
                forall|j: int| 0 <= j < i ==> spec_active_ids(self.active@)[j] != version.triple(),
            decreases self.active.len() - i,
        {
            if self.active[i].version.same_release(version) {
                assert(spec_active_ids(self.active@)[i as int] == version.triple());
                return Some(i);
            }
            i += 1;
        }
        None
    }

    /// The place of `version` among the waiting builds, if it is among them.
    pub fn waiting_position(&self, version: &GccVersion) -> (res: Option<usize>)
        ensures
            res is Some <==> spec_ids(self.waiting@).contains(version.triple()),
            res matches Some(i) ==> i < self.waiting@.len() && self.waiting@[i as int].triple()
                == version.triple(),
    {
        let mut i: usize = 0;
        while i < self.waiting.len()
            invariant
                i <= self.waiting.len(),
                forall|j: int| 0 <= j < i ==> spec_ids(self.waiting@)[j] != version.triple(),
            decreases self.waiting.len() - i,
        {
            if self.waiting[i].same_release(version) {
                assert(spec_ids(self.waiting@)[i as int] == version.triple());
                return Some(i);
            }
            i += 1;
        }
        None
    }

    /// The queue as it stands once `id` has asked: `id` joins at the end
    /// unless it waits already.
    pub open spec fn spec_queue_with(&self, id: (int, int, int)) -> Seq<(int, int, int)> {
        if spec_ids(self.waiting@).contains(id) {
            spec_ids(self.waiting@)
        } else {
            spec_ids(self.waiting@).push(id)
        }
    }

    /// Asks for a slot for `version` at time `now`, with `free_ram_mb`
    /// megabytes of memory measured free. A version that holds a slot gets
    /// no second one. Otherwise the version joins the queue, unless it
    /// waits already, and the slot is granted if the version is first in
    /// the queue, a slot is free and the free memory suffices for one build.
    /// A granted build leaves the queue and becomes active in the phase
    /// Configure.
    pub fn acquire_build_slot(&mut self, version: &GccVersion, free_ram_mb: u64, now: u64) -> (res:
        AcquireOutcome)
        requires
            old(self).wf(),
        ensures
            final(self).wf(),
            final(self).max_concurrent == old(self).max_concurrent,
            final(self).capacity == old(self).capacity,
            final(self).ram_per_build == old(self).ram_per_build,
            final(self).completed == old(self).completed,
            final(self).active@.len() <= final(self).max_concurrent,
            spec_active_ids(old(self).active@).contains(version.triple()) ==> res
                is AlreadyActive && *final(self) == *old(self),
            !spec_active_ids(old(self).active@).contains(version.triple()) ==> {
                let q = old(self).spec_queue_with(version.triple());
                let granted = q[0] == version.triple() && old(self).active@.len() < old(self).capacity && free_ram_mb >= old(self).ram_per_build;
                &&& res is Granted <==> granted
                &&& res is Queued <==> q[0] != version.triple()
                &&& res is NoPermit <==> q[0] == version.triple() && old(self).active@.len()
                    >= old(self).capacity
                &&& res is LowMemory <==> q[0] == version.triple() && old(self).active@.len()
                    < old(self).capacity && free_ram_mb < old(self).ram_per_build
                &&& !granted ==> spec_ids(final(self).waiting@) == q && final(self).active == old(self).active && final(self).available_ram_mb == old(self).available_ram_mb
                &&& granted ==> {
                    &&& spec_ids(final(self).waiting@) == q.skip(1)
                    &&& spec_active_ids(final(self).active@) == spec_active_ids(
                        old(self).active@,
                    ).push(version.triple())
                    &&& final(self).active@.len() == old(self).active@.len() + 1
                    &&& final(self).active@.last().phase == BuildPhase::Configure
                    &&& final(self).active@.last().start == now
                    &&& final(self).active@.last().estimated_ram_mb == old(self).ram_per_build
                    &&& forall|i: int|
                        0 <= i < old(self).active@.len() ==> final(self).active@[i] == old(self).active@[i]
                    &&& final(self).available_ram_mb == (if old(self).available_ram_mb >= old(self).ram_per_build {
                        old(self).available_ram_mb - old(self).ram_per_build
                    } else {
                        0
                    })
                    &&& res matches AcquireOutcome::Granted(slot) && slot.version.triple()
                        == version.triple() && slot.start == now
                }
            },
    {
        let ghost id = version.triple();
        if self.active_position(version).is_some() {
            return AcquireOutcome::AlreadyActive;
        }
        let ghost q0 = spec_ids(self.waiting@);
        let ghost q = self.spec_queue_with(id);
        let place: usize = match self.waiting_position(version) {
            Some(p) => p,
            None => {
                let ghost before = self.waiting@;
                self.waiting.push(version.clone());
                proof {
                    assert(spec_ids(self.waiting@) =~= q0.push(id));
                    assert(spec_distinct(spec_ids(self.waiting@))) by {
                        assert forall|i: int, j: int|
                            0 <= i < self.waiting@.len() && 0 <= j < self.waiting@.len() && i
                                != j implies spec_ids(self.waiting@)[i] != spec_ids(
                            self.waiting@,
                        )[j] by {
                            if i < before.len() {
                                assert(spec_ids(self.waiting@)[i] == q0[i]);
                            }
                            if j < before.len() {
                                assert(spec_ids(self.waiting@)[j] == q0[j]);
                            }
                        }
                    }
                }
                self.waiting.len() - 1
            },
        };
        assert(spec_ids(self.waiting@) == q);
        assert(q[place as int] == id);
        if place != 0 {
            assert(q[0] != id);
            return AcquireOutcome::Queued;
        }
        if self.active.len() >= self.capacity {
            return AcquireOutcome::NoPermit;
        }
        if free_ram_mb < self.ram_per_build {
            return AcquireOutcome::LowMemory;
        }
        let ghost active0 = self.active@;
        let ghost waiting1 = self.waiting@;
        let head = self.waiting.remove(0);
        proof {
            assert(self.waiting@ == waiting1.remove(0));
            assert(spec_ids(self.waiting@) =~= q.skip(1)) by {
                assert forall|i: int| 0 <= i < self.waiting@.len() implies spec_ids(
                    self.waiting@,
                )[i] == q.skip(1)[i] by {
                    assert(self.waiting@[i] == waiting1[i + 1]);
                }
            }
            assert(spec_distinct(spec_ids(self.waiting@))) by {
                assert forall|i: int, j: int|
                    0 <= i < self.waiting@.len() && 0 <= j < self.waiting@.len() && i
                        != j implies spec_ids(self.waiting@)[i] != spec_ids(self.waiting@)[j] by {
                    assert(spec_ids(self.waiting@)[i] == q[i + 1]);
                    assert(spec_ids(self.waiting@)[j] == q[j + 1]);
                }
            }
        }
        self.active.push(
            ActiveBuild {
                version: version.clone(),
                start: now,
                estimated_ram_mb: self.ram_per_build,
                phase: BuildPhase::Configure,
            },
        );
        self.available_ram_mb = if self.available_ram_mb >= self.ram_per_build {
            self.available_ram_mb - self.ram_per_build
        } else {
            0
        };
        proof {
            assert(spec_active_ids(self.active@) =~= spec_active_ids(active0).push(id));
            assert(spec_distinct(spec_active_ids(self.active@))) by {
                assert forall|i: int, j: int|
                    0 <= i < self.active@.len() && 0 <= j < self.active@.len() && i
                        != j implies spec_active_ids(self.active@)[i] != spec_active_ids(
                    self.active@,
                )[j] by {
                    if i < active0.len() {
                        assert(spec_active_ids(self.active@)[i] == spec_active_ids(active0)[i]);
                    }
                    if j < active0.len() {
                        assert(spec_active_ids(self.active@)[j] == spec_active_ids(active0)[j]);
                    }
                }
            }
        }
        AcquireOutcome::Granted(BuildSlot { version: head, start: now })
    }

    /// Notes that the build of `version` enters `phase`. Phases only move
    /// forward: a phase that lies before the one the build is in is
    /// ignored, and so is a version that holds no slot.
    pub fn update_build_phase(&mut self, version: &GccVersion, phase: BuildPhase)
        requires
            old(self).wf(),
        ensures
            final(self).wf(),
            spec_active_ids(final(self).active@) == spec_active_ids(old(self).active@),
            final(self).active@.len() == old(self).active@.len(),
            final(self).max_concurrent == old(self).max_concurrent,
            final(self).capacity == old(self).capacity,
            final(self).waiting == old(self).waiting,
            final(self).completed == old(self).completed,
            final(self).available_ram_mb == old(self).available_ram_mb,
            forall|i: int|
                0 <= i < old(self).active@.len() ==> (#[trigger] final(self).active@[i]).phase == (
                if old(self).active@[i].version.triple() == version.triple() && spec_phase_rank(
                    old(self).active@[i].phase,
                ) <= spec_phase_rank(phase) {
                    phase
                } else {
                    old(self).active@[i].phase
                }),
    {
        let ghost active0 = self.active@;
        match self.active_position(version) {
            Some(i) => {
                if self.active[i].phase.rank() <= phase.rank() {
                    let entry = ActiveBuild {
                        version: self.active[i].version.clone(),
                        start: self.active[i].start,
                        estimated_ram_mb: self.active[i].estimated_ram_mb,
                        phase,
                    };
                    self.active.set(i, entry);
                    proof {
                        assert(spec_active_ids(self.active@) =~= spec_active_ids(active0));
                    }
                }
                proof {
                    assert forall|j: int| 0 <= j < active0.len() && j != i implies active0[j].version.triple()
                        != version.triple() by {
                        assert(spec_active_ids(active0)[j] != spec_active_ids(active0)[i as int]);
                    }
                }
            },
            None => {
                proof {
                    assert forall|j: int| 0 <= j < active0.len() implies active0[j].version.triple()
                        != version.triple() by {
                        assert(spec_active_ids(active0)[j] == active0[j].version.triple());
                    }
                }
            },
        }
    }

    /// The phase that the build of `version` is in: Configure where it holds no slot.
    pub open spec fn spec_phase_of(&self, id: (int, int, int)) -> BuildPhase {
        if spec_active_ids(self.active@).contains(id) {
            self.active@[spec_active_ids(self.active@).index_of(id)].phase
        } else {
            BuildPhase::Configure
        }
    }

    /// The base number of make jobs where the caller names none: one for
    /// each logical core, but no more than the free memory carries, and at
    /// least one.
    pub open spec fn spec_default_jobs(&self) -> int {
        let by_ram = self.available_ram_mb as int / RAM_PER_JOB_MB as int;
        let least = if by_ram < self.logical_cores as int {
            by_ram
        } else {
            self.logical_cores as int
        };
        if least < 1 {
            1
        } else if least > 65535 {
            65535
        } else {
            least
        }
    }

    /// The number of make jobs for the build of `version` in the phase it
    /// is in, given how many builds are active.
    pub fn calculate_optimal_jobs(&self, version: &GccVersion, base_jobs: Option<u16>) -> (res: usize)
        requires
            self.wf(),
        ensures
            res == spec_optimal_jobs(
                (match base_jobs {
                    Some(b) => b as int,
                    None => self.spec_default_jobs(),
                }) as nat,
                spec_phase_profile(self.spec_phase_of(version.triple())).parallelism_efficiency as nat,
                spec_phase_profile(self.spec_phase_of(version.triple())).cpu_intensity as nat,
                self.active@.len(),
                self.logical_cores as nat,
            ),
            res >= 1,
    {
        let phase = match self.active_position(version) {
            Some(i) => {
                proof {
                    let ids = spec_active_ids(self.active@);
                    let k = ids.index_of(version.triple());
                    assert(ids[i as int] == version.triple());
                    assert(0 <= k < ids.len() && ids[k] == version.triple());
                    if k != i {
                        assert(ids[k] != ids[i as int]);
                    }
                }
                self.active[i].phase
            },
            None => BuildPhase::Configure,
        };
        let base: u16 = match base_jobs {
            Some(b) => b,
            None => {
                let by_ram: u64 = self.available_ram_mb / RAM_PER_JOB_MB;
                let least: u64 = if by_ram < self.logical_cores as u64 {
                    by_ram
                } else {
                    self.logical_cores as u64
                };
                if least < 1 {
                    1
                } else if least > 65535 {
                    65535
                } else {
                    least as u16
                }
            },
        };
        let profile = phase.profile();
        optimal_jobs(
            base,
            profile.parallelism_efficiency,
            profile.cpu_intensity,
            self.active.len(),
            self.logical_cores,
        )
    }

    /// What `phase` takes of processor, memory and disk, in hundredths.
    pub fn get_phase_resource_estimate(&self, phase: BuildPhase) -> (res: (u8, u8, u8))
        ensures
            res == (
                spec_phase_profile(phase).cpu_intensity,
                spec_phase_profile(phase).memory_multiplier,
                spec_phase_profile(phase).io_intensity,
            ),
    {
        let p = phase.profile();
        (p.cpu_intensity, p.memory_multiplier, p.io_intensity)
    }

    /// Records a load reading, in hundredths of the machine. Only the
    /// newest readings are kept.
    pub fn update_system_load(&mut self, current_load: u32)
        requires
            old(self).wf(),
        ensures
            final(self).wf(),
            final(self).current_load == current_load,
            final(self).load_history@ == (if old(self).load_history@.len() >= LOAD_HISTORY_LIMIT {
                old(self).load_history@.skip(1).push(current_load)
            } else {
                old(self).load_history@.push(current_load)
            }),
            final(self).active == old(self).active,
            final(self).waiting == old(self).waiting,
            final(self).completed == old(self).completed,
            final(self).capacity == old(self).capacity,
            final(self).max_concurrent == old(self).max_concurrent,
    {
        self.current_load = current_load;
        if self.load_history.len() >= LOAD_HISTORY_LIMIT {
            let ghost before = self.load_history@;
            let _ = self.load_history.remove(0);
            assert(self.load_history@ =~= before.skip(1));
        }
        self.load_history.push(current_load);
    }

    /// Whether the machine is overloaded: the load lies more than a fifth
    /// above what the strategy aims at.
    pub fn is_system_overloaded(&self) -> (res: bool)
        ensures
            res == (self.current_load as int * 10 > spec_target_utilization(self.strategy) * 12),
    {
        (self.current_load as u64) * 10 > (target_utilization(self.strategy) as u64) * 12
    }

    /// Lowers the number of builds that may hold a slot after `oom_count`
    /// builds have run out of memory. Builds that hold a slot keep it.
    pub fn reduce_capacity(&mut self, oom_count: usize)
        requires
            old(self).wf(),
        ensures
            final(self).wf(),
            final(self).capacity == spec_reduced_capacity(
                old(self).max_concurrent as int,
                oom_count as int,
            ),
            final(self).max_concurrent == old(self).max_concurrent,
            final(self).active == old(self).active,
            final(self).waiting == old(self).waiting,
            final(self).completed == old(self).completed,
            final(self).available_ram_mb == old(self).available_ram_mb,
    {
        let m: usize = self.max_concurrent;
        let c: usize = if oom_count == 0 {
            m
        } else if oom_count == 1 {
            ((m as u128) * 3 / 4) as usize
        } else if oom_count == 2 {
            m / 2
        } else {
            1
        };
        self.capacity = if c < 1 {
            1
        } else {
            c
        };
    }

    /// Figures on the builds that the scheduler has seen.
    pub fn get_statistics(&self) -> (res: SchedulerStatistics)
        ensures
            res.total_builds == (if self.completed@.len() + self.active@.len() > usize::MAX {
                usize::MAX as int
            } else {
                (self.completed@.len() + self.active@.len()) as int
            }),
            res.completed_builds == self.completed@.len(),
            res.active_builds == self.active@.len(),
            res.failed_builds == spec_failed_count(self.completed@),
            res.average_build_time == (if self.completed@.len() == 0 {
                None
            } else {
                Some((spec_total_duration(self.completed@) / self.completed@.len()) as u64)
            }),
            res.peak_ram_usage == spec_peak_ram(self.completed@),
    {
        let n = self.completed.len();
        let mut failed: usize = 0;
        let mut total: u128 = 0;
        let mut peak: u64 = 0;
        let mut i: usize = 0;
        while i < n
            invariant
                i <= n,
                n == self.completed@.len(),
                failed == spec_failed_count(self.completed@.take(i as int)),
                failed <= i,
                total == spec_total_duration(self.completed@.take(i as int)),
                total <= i * 0xffff_ffff_ffff_ffff,
                peak == spec_peak_ram(self.completed@.take(i as int)),
            decreases n - i,
        {
            assert(self.completed@.take(i + 1).drop_last() == self.completed@.take(i as int));
            let c = &self.completed[i];
            if !c.success {
                failed += 1;
            }
            assert((i + 1) * 0xffff_ffff_ffff_ffff == i * 0xffff_ffff_ffff_ffff
                + 0xffff_ffff_ffff_ffff) by (nonlinear_arith);
            assert(i * 0xffff_ffff_ffff_ffff <= 0xffff_ffff_ffff_ffff * 0xffff_ffff_ffff_ffff)
                by (nonlinear_arith)
                requires
                    i <= 0xffff_ffff_ffff_ffff,
            ;
            total = total + c.duration_secs as u128;
            if c.peak_ram_mb > peak {
                peak = c.peak_ram_mb;
            }
            i += 1;
        }
        assert(self.completed@.take(n as int) == self.completed@);
        let average: Option<u64> = if n == 0 {
            None
        } else {
            let avg: u128 = total / (n as u128);
            assert(avg <= 0xffff_ffff_ffff_ffff) by (nonlinear_arith)
                requires
                    avg == total / (n as u128),
                    total <= n * 0xffff_ffff_ffff_ffff,
                    n >= 1,
            ;
            Some(avg as u64)
        };
        SchedulerStatistics {
            total_builds: if n > usize::MAX - self.active.len() {
                usize::MAX
            } else {
                n + self.active.len()
            },
            completed_builds: n,
            active_builds: self.active.len(),
            failed_builds: failed,
            average_build_time: average,
            peak_ram_usage: peak,
        }
    }
}

impl BuildSlot {
    /// Hands the slot back when the build has ended. The build leaves the
    /// active builds and joins the completed ones, with its duration, with
    /// the peak of memory it reports or else the estimate, and with its
    /// outcome; the memory reckoned for it counts as free again.
    pub fn complete(
        self,
        scheduler: &mut BuildScheduler,
        success: bool,
        peak_ram_mb: Option<u64>,
        now: u64,
    )
        requires
            old(scheduler).wf(),
        ensures
            final(scheduler).wf(),
            final(scheduler).max_concurrent == old(scheduler).max_concurrent,
            final(scheduler).capacity == old(scheduler).capacity,
            final(scheduler).waiting == old(scheduler).waiting,
            !spec_active_ids(final(scheduler).active@).contains(self.version.triple()),
            spec_active_ids(old(scheduler).active@).contains(self.version.triple()) ==> {
                let k = spec_active_ids(old(scheduler).active@).index_of(self.version.triple());
                final(scheduler).active@ == old(scheduler).active@.remove(k)
            },
            !spec_active_ids(old(scheduler).active@).contains(self.version.triple()) ==> final(scheduler).active == old(scheduler).active,
            final(scheduler).completed@.len() == old(scheduler).completed@.len() + 1,
            forall|i: int|
                0 <= i < old(scheduler).completed@.len() ==> final(scheduler).completed@[i] == old(scheduler).completed@[i],
            final(scheduler).completed@.last().version.triple() == self.version.triple(),
            final(scheduler).completed@.last().success == success,
            final(scheduler).completed@.last().duration_secs == (if now >= self.start {
                now - self.start
            } else {
                0
            }),
            final(scheduler).completed@.last().peak_ram_mb == (match peak_ram_mb {
                Some(p) => p,
                None => old(scheduler).ram_per_build,
            }),
            final(scheduler).available_ram_mb == (if old(scheduler).available_ram_mb + old(scheduler).ram_per_build > u64::MAX {
                u64::MAX
            } else {
                (old(scheduler).available_ram_mb + old(scheduler).ram_per_build) as u64
            }),
    {
        let duration: u64 = if now >= self.start {
            now - self.start
        } else {
            0
        };
        release(scheduler, &self.version);
        scheduler.completed.push(
            CompletedBuild {
                version: self.version,
                duration_secs: duration,
                peak_ram_mb: match peak_ram_mb {
                    Some(p) => p,
                    None => scheduler.ram_per_build,
                },
                success,
            },
        );
    }

    /// Gives the slot up without a result, as when the build is cancelled:
    /// the build leaves the active builds and its memory counts as free again.
    pub fn abandon(self, scheduler: &mut BuildScheduler)
        requires
            old(scheduler).wf(),
        ensures
            final(scheduler).wf(),
            final(scheduler).max_concurrent == old(scheduler).max_concurrent,
            final(scheduler).capacity == old(scheduler).capacity,
            final(scheduler).ram_per_build == old(scheduler).ram_per_build,
            final(scheduler).waiting == old(scheduler).waiting,
            final(scheduler).completed == old(scheduler).completed,
            !spec_active_ids(final(scheduler).active@).contains(self.version.triple()),
            spec_active_ids(old(scheduler).active@).contains(self.version.triple()) ==> {
                let k = spec_active_ids(old(scheduler).active@).index_of(self.version.triple());
                final(scheduler).active@ == old(scheduler).active@.remove(k)
            },
            !spec_active_ids(old(scheduler).active@).contains(self.version.triple()) ==> final(scheduler).active == old(scheduler).active,
            final(scheduler).available_ram_mb == (if old(scheduler).available_ram_mb + old(scheduler).ram_per_build > u64::MAX {
                u64::MAX
            } else {
                (old(scheduler).available_ram_mb + old(scheduler).ram_per_build) as u64
            }),
    {
        release(scheduler, &self.version);
    }
}

/// Takes the build of `version` out of the active builds, if it is among
/// them, and counts the memory of one build as free again.
pub fn release(scheduler: &mut BuildScheduler, version: &GccVersion)
    requires
        old(scheduler).wf(),
    ensures
        final(scheduler).wf(),
        final(scheduler).max_concurrent == old(scheduler).max_concurrent,
        final(scheduler).capacity == old(scheduler).capacity,
        final(scheduler).ram_per_build == old(scheduler).ram_per_build,
        final(scheduler).waiting == old(scheduler).waiting,
        final(scheduler).completed == old(scheduler).completed,
        !spec_active_ids(final(scheduler).active@).contains(version.triple()),
        spec_active_ids(old(scheduler).active@).contains(version.triple()) ==> {
            let k = spec_active_ids(old(scheduler).active@).index_of(version.triple());
            final(scheduler).active@ == old(scheduler).active@.remove(k)
        },
        !spec_active_ids(old(scheduler).active@).contains(version.triple()) ==> final(scheduler).active == old(scheduler).active,
        final(scheduler).available_ram_mb == (if old(scheduler).available_ram_mb + old(scheduler).ram_per_build > u64::MAX {
            u64::MAX
        } else {
            (old(scheduler).available_ram_mb + old(scheduler).ram_per_build) as u64
        }),
{
    let ghost active0 = scheduler.active@;
    let ghost ids0 = spec_active_ids(active0);
    let ghost id = version.triple();
    match scheduler.active_position(version) {
        Some(i) => {
            let _ = scheduler.active.remove(i);
            proof {
                let k = ids0.index_of(id);
                assert(ids0[i as int] == id);
                assert(0 <= k < ids0.len() && ids0[k] == id);
                if k != i {
                    assert(ids0[k] != ids0[i as int]);
                }
                let after = scheduler.active@;
                assert(after == active0.remove(i as int));
                assert forall|a: int| 0 <= a < after.len() implies spec_active_ids(after)[a] == (if a
                    < i {
                    ids0[a]
                } else {
                    ids0[a + 1]
                }) by {
                    if a < i {
                        assert(after[a] == active0[a]);
                    } else {
                        assert(after[a] == active0[a + 1]);
                    }
                }
                assert(spec_distinct(spec_active_ids(after)));
                assert(!spec_active_ids(after).contains(id)) by {
                    if spec_active_ids(after).contains(id) {
                        let a = choose|a: int|
                            0 <= a < spec_active_ids(after).len() && spec_active_ids(after)[a]
                                == id;
                        let a0 = if a < i {
                            a
                        } else {
                            a + 1
                        };
                        assert(ids0[a0] == id);
                        assert(ids0[a0] != ids0[i as int]);
                    }
                }
            }
        },
        None => {},
    }
    scheduler.available_ram_mb = if scheduler.available_ram_mb > u64::MAX
        - scheduler.ram_per_build {
        u64::MAX
    } else {
        scheduler.available_ram_mb + scheduler.ram_per_build
    };
}

} // verus!
