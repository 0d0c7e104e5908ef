use vstd::prelude::*;
use crate::decimal::{parse_u64, spec_parse_u64};
use crate::scan::{spec_words, split_whitespace};
use crate::text::views;

verus! {

/// How hard the memory of the machine is pressed.
#[derive(Debug, Clone, Copy, PartialEq, Eq, Structural)]
pub enum MemoryPressure {
    /// Less than the low mark is in use.
    Normal,
    Low,
    Medium,
    High,
    Critical,
}

/// A reading of the memory of the machine, in megabytes.
#[derive(Debug, Clone, Copy, PartialEq, Eq, Structural)]
pub struct MemoryInfo {
    pub total_mb: u64,
    pub available_mb: u64,
    pub used_mb: u64,
    pub cached_mb: u64,
    pub buffers_mb: u64,
    pub swap_total_mb: u64,
    pub swap_used_mb: u64,
    /// When the reading was taken, in seconds since the epoch.
    pub timestamp: u64,
}

/// How the memory is watched.
#[derive(Debug, Clone, Copy, PartialEq, Eq, Structural)]
pub struct MonitorConfig {
    pub polling_interval_secs: u64,
    /// The least time, in seconds, between two cleanups.
    pub gc_cooldown_secs: u64,
    /// How many readings of the pressure are kept.
    pub pressure_window_size: usize,
    pub adaptive_mode: bool,
    pub emergency_actions: bool,
}

/// The marks, in thousandths of the memory, at which the pressure rises.
#[derive(Debug, Clone, Copy, PartialEq, Eq, Structural)]
pub struct AdaptiveThresholds {
    pub low: u32,
    pub medium: u32,
    pub high: u32,
    pub critical: u32,
}

/// What is done about the pressure.
#[derive(Debug, Clone, Copy, PartialEq, Eq, Structural)]
pub enum PressureResponse {
    Nothing,
    /// Memory is freed, if the last cleanup is long enough ago.
    Cleanup,
    /// Memory is freed and the caches of the system are dropped.
    Emergency,
}

/// The lowest that the high mark is moved to.
pub const HIGH_MARK_FLOOR: u32 = 800;

/// The step by which the high mark is moved.
pub const HIGH_MARK_STEP: u32 = 10;

/// How many of the latest readings must agree for the marks to move.
pub const STABLE_READINGS: usize = 5;

/// The usual marks.
pub open spec fn spec_default_thresholds() -> AdaptiveThresholds {
    AdaptiveThresholds { low: 700, medium: 800, high: 900, critical: 950 }
}

/// The usual way of watching.
pub open spec fn spec_default_config() -> MonitorConfig {
    MonitorConfig {
        polling_interval_secs: 5,
        gc_cooldown_secs: 30,
        pressure_window_size: 12,
        adaptive_mode: true,
        emergency_actions: true,
    }
}

/// Whether at least `mark` thousandths of the memory are in use.
pub open spec fn spec_reaches(used_mb: u64, total_mb: u64, mark: u32) -> bool {
    (total_mb > 0 || used_mb > 0) && used_mb as int * 1000 >= mark as int * total_mb as int
}

/// The pressure at which a use of the memory stands.
pub open spec fn spec_pressure(used_mb: u64, total_mb: u64, t: AdaptiveThresholds) -> MemoryPressure {
    if spec_reaches(used_mb, total_mb, t.critical) {
        MemoryPressure::Critical
    } else if spec_reaches(used_mb, total_mb, t.high) {
        MemoryPressure::High
    } else if spec_reaches(used_mb, total_mb, t.medium) {
        MemoryPressure::Medium
    } else if spec_reaches(used_mb, total_mb, t.low) {
        MemoryPressure::Low
    } else {
        MemoryPressure::Normal
    }
}

/// Whether `required_mb` more can be taken: the use would stay below the
/// high mark, and more than that is available.
pub open spec fn spec_can_allocate(info: MemoryInfo, required_mb: u64, t: AdaptiveThresholds) -> bool {
    (info.used_mb as int + required_mb as int) * 1000 < t.high as int * info.total_mb as int
        && info.available_mb > required_mb
}

/// Whether a cleanup may be made at `now`: none was made yet, or the last
/// was made at least the cooldown ago.
pub open spec fn spec_cooldown_over(last: Option<u64>, cooldown_secs: u64, now: u64) -> bool {
    match last {
        Some(t) => (now as int) - (t as int) >= (cooldown_secs as int),
        None => true,
    }
}

/// What is done about a pressure.
pub open spec fn spec_response(pressure: MemoryPressure, emergency_actions: bool) -> PressureResponse {
    match pressure {
        MemoryPressure::Critical => if emergency_actions {
            PressureResponse::Emergency
        } else {
            PressureResponse::Nothing
        },
        MemoryPressure::High => PressureResponse::Cleanup,
        _ => PressureResponse::Nothing,
    }
}

/// The number of kilobytes that a line of `/proc/meminfo` gives: its second word.
pub open spec fn spec_kb_value(line: Seq<char>) -> Option<u64> {
    if spec_words(line).len() >= 2 {
        spec_parse_u64(spec_words(line)[1])
    } else {
        None
    }
}

/// Whether at least `mark` thousandths of the memory are in use.
pub fn reaches(used_mb: u64, total_mb: u64, mark: u32) -> (res: bool)
    ensures
        res == spec_reaches(used_mb, total_mb, mark),
{
    assert(mark * total_mb <= 0xffff_ffff * 0xffff_ffff_ffff_ffff) by (nonlinear_arith)
        requires
            mark <= 0xffff_ffff,
            total_mb <= 0xffff_ffff_ffff_ffff,
    ;
    (total_mb > 0 || used_mb > 0) && (used_mb as u128) * 1000 >= (mark as u128) * (total_mb as u128)
}

/// The pressure at which a use of the memory stands.
pub fn pressure_of(used_mb: u64, total_mb: u64, t: &AdaptiveThresholds) -> (res: MemoryPressure)
    ensures
        res == spec_pressure(used_mb, total_mb, *t),
{
    if reaches(used_mb, total_mb, t.critical) {
        MemoryPressure::Critical
    } else if reaches(used_mb, total_mb, t.high) {
        MemoryPressure::High
    } else if reaches(used_mb, total_mb, t.medium) {
        MemoryPressure::Medium
    } else if reaches(used_mb, total_mb, t.low) {
        MemoryPressure::Low
    } else {
        MemoryPressure::Normal
    }
}

/// The number of kilobytes that a line of `/proc/meminfo` gives.
pub fn extract_kb_value(line: &Vec<char>) -> (res: Option<u64>)
    ensures
        res == spec_kb_value(line@),
{
    let words = split_whitespace(line);
    assert(views(words@).len() == words@.len());
    if words.len() < 2 {
        return None;
    }
    assert(views(words@)[1] == words@[1]@);
    parse_u64(&words[1])
}

impl MonitorConfig {
    /// The usual way of watching.
    pub fn default_config() -> (res: Self)
        ensures
            res == spec_default_config(),
    {
        MonitorConfig {
            polling_interval_secs: 5,
            gc_cooldown_secs: 30,
            pressure_window_size: 12,
            adaptive_mode: true,
            emergency_actions: true,
        }
    }
}

impl MemoryInfo {
    /// A reading from the figures of the system, which are in kilobytes.
    pub fn from_kilobytes(
        total_kb: u64,
        avail_kb: u64,
        swap_total_kb: u64,
        swap_free_kb: u64,
        cached_kb: u64,
        buffers_kb: u64,
        now: u64,
    ) -> (res: Self)
        ensures
            res.total_mb == total_kb / 1024,
            res.available_mb == avail_kb / 1024,
            res.used_mb == (if total_kb >= avail_kb {
                (total_kb - avail_kb) / 1024
            } else {
                0
            }),
            res.cached_mb == cached_kb / 1024,
            res.buffers_mb == buffers_kb / 1024,
            res.swap_total_mb == swap_total_kb / 1024,
            res.swap_used_mb == (if swap_total_kb >= swap_free_kb {
                (swap_total_kb - swap_free_kb) / 1024
            } else {
                0
            }),
            res.timestamp == now,
    {
        MemoryInfo {
            total_mb: total_kb / 1024,
            available_mb: avail_kb / 1024,
            used_mb: if total_kb >= avail_kb {
                (total_kb - avail_kb) / 1024
            } else {
                0
            },
            cached_mb: cached_kb / 1024,
            buffers_mb: buffers_kb / 1024,
            swap_total_mb: swap_total_kb / 1024,
            swap_used_mb: if swap_total_kb >= swap_free_kb {
                (swap_total_kb - swap_free_kb) / 1024
            } else {
                0
            },
            timestamp: now,
        }
    }
}

/// Watches the memory of the machine and says what to do about its pressure.
#[derive(Debug)]
pub struct MemoryMonitor {
    pub config: MonitorConfig,
    pub current_memory: MemoryInfo,
    pub pressure_level: MemoryPressure,
    /// The latest readings of the pressure, the newest last.
    pub pressure_history: Vec<MemoryPressure>,
    pub monitoring_active: bool,
    /// When memory was last freed.
    pub last_gc_trigger: Option<u64>,
    pub thresholds: AdaptiveThresholds,
}

/// Whether the latest readings all show a high pressure.
pub open spec fn spec_stable_high(history: Seq<MemoryPressure>) -> bool {
    history.len() >= STABLE_READINGS && forall|i: int|
        history.len() - STABLE_READINGS <= i < history.len() ==> history[i] == MemoryPressure::High
}

/// The high mark after a reading: where the marks adapt, the window of
/// readings is full and the latest readings all show a high pressure, the
/// mark is moved down a step, but not below its floor.
pub open spec fn spec_adapted_high(
    high: u32,
    adaptive: bool,
    window: usize,
    history: Seq<MemoryPressure>,
) -> u32 {
    if adaptive && history.len() >= window && spec_stable_high(history) {
        if high >= HIGH_MARK_FLOOR + HIGH_MARK_STEP {
            (high - HIGH_MARK_STEP) as u32
        } else if high >= HIGH_MARK_FLOOR {
            HIGH_MARK_FLOOR
        } else {
            high
        }
    } else {
        high
    }
}

/// The readings that are kept once `p` is added: the newest, as many as the window holds.
pub open spec fn spec_history_after(history: Seq<MemoryPressure>, p: MemoryPressure, window: usize) -> Seq<
    MemoryPressure,
> {
    if history.len() + 1 > window && history.len() > 0 {
        history.push(p).skip(1)
    } else {
        history.push(p)
    }
}

impl MemoryMonitor {
    /// A monitor that has read nothing yet.
    pub fn new(config: MonitorConfig) -> (res: Self)
        ensures
            res.config == config,
            res.pressure_level == MemoryPressure::Normal,
            res.pressure_history@.len() == 0,
            !res.monitoring_active,
            res.last_gc_trigger is None,
            res.thresholds == spec_default_thresholds(),
    {
        MemoryMonitor {
            config,
            current_memory: MemoryInfo {
                total_mb: 0,
                available_mb: 0,
                used_mb: 0,
                cached_mb: 0,
                buffers_mb: 0,
                swap_total_mb: 0,
                swap_used_mb: 0,
                timestamp: 0,
            },
            pressure_level: MemoryPressure::Normal,
            pressure_history: Vec::new(),
            monitoring_active: false,
            last_gc_trigger: None,
            thresholds: AdaptiveThresholds { low: 700, medium: 800, high: 900, critical: 950 },
        }
    }

    /// The pressure that was found last.
    pub fn get_pressure_level(&self) -> (res: MemoryPressure)
        ensures
            res == self.pressure_level,
    {
        self.pressure_level
    }

    /// The reading that was taken last.
    pub fn get_memory_info(&self) -> (res: MemoryInfo)
        ensures
            res == self.current_memory,
    {
        self.current_memory
    }

    /// Begins to watch. Returns whether a watcher has to be started: none
    /// has where one runs already.
    pub fn start_monitoring(&mut self) -> (res: bool)
        ensures
            res == !old(self).monitoring_active,
            final(self).monitoring_active,
            final(self).config == old(self).config,
            final(self).pressure_level == old(self).pressure_level,
            final(self).thresholds == old(self).thresholds,
    {
        let start = !self.monitoring_active;
        self.monitoring_active = true;
        start
    }

    /// Ends the watching.
    pub fn stop_monitoring(&mut self)
        ensures
            !final(self).monitoring_active,
            final(self).config == old(self).config,
            final(self).pressure_level == old(self).pressure_level,
            final(self).thresholds == old(self).thresholds,
    {
        self.monitoring_active = false;
    }

    /// Whether `required_mb` more megabytes can be taken.
    pub fn can_allocate_memory(&self, required_mb: u64) -> (res: bool)
        ensures
            res == spec_can_allocate(self.current_memory, required_mb, self.thresholds),
    {
        let m = &self.current_memory;
        assert(self.thresholds.high * m.total_mb <= 0xffff_ffff * 0xffff_ffff_ffff_ffff)
            by (nonlinear_arith)
            requires
                self.thresholds.high <= 0xffff_ffff,
                m.total_mb <= 0xffff_ffff_ffff_ffff,
        ;
        ((m.used_mb as u128) + (required_mb as u128)) * 1000 < (self.thresholds.high as u128) * (
        m.total_mb as u128) && m.available_mb > required_mb
    }

    /// Takes in a reading: the pressure is found, noted among the latest
    /// readings, and the high mark adapts. Returns whether the pressure has
    /// changed, of which those who listen are told.
    pub fn evaluate_pressure(&mut self, reading: MemoryInfo) -> (res: bool)
        ensures
            final(self).config == old(self).config,
            final(self).current_memory == reading,
            final(self).pressure_level == spec_pressure(
                reading.used_mb,
                reading.total_mb,
                old(self).thresholds,
            ),
            res == (final(self).pressure_level != old(self).pressure_level),
            final(self).pressure_history@ == spec_history_after(
                old(self).pressure_history@,
                final(self).pressure_level,
                old(self).config.pressure_window_size,
            ),
            final(self).thresholds == (AdaptiveThresholds {
                high: spec_adapted_high(
                    old(self).thresholds.high,
                    old(self).config.adaptive_mode,
                    old(self).config.pressure_window_size,
                    final(self).pressure_history@,
                ),
                ..old(self).thresholds
            }),
            final(self).monitoring_active == old(self).monitoring_active,
            final(self).last_gc_trigger == old(self).last_gc_trigger,
    {
        let level = pressure_of(reading.used_mb, reading.total_mb, &self.thresholds);
        self.current_memory = reading;
        let ghost before = self.pressure_history@;
        self.pressure_history.push(level);
        if self.pressure_history.len() > self.config.pressure_window_size
            && self.pressure_history.len() > 1 {
            let _ = self.pressure_history.remove(0);
            assert(self.pressure_history@ =~= before.push(level).skip(1));
        }
        let n = self.pressure_history.len();
        let mut stable = n >= STABLE_READINGS;
        if stable {
            let mut i: usize = n - STABLE_READINGS;
            while i < n
                invariant
                    n == self.pressure_history@.len(),
                    n - STABLE_READINGS <= i <= n,
                    stable <==> forall|j: int|
                        n - STABLE_READINGS <= j < i ==> self.pressure_history@[j]
                            == MemoryPressure::High,
                decreases n - i,
            {
                if self.pressure_history[i] != MemoryPressure::High {
                    stable = false;
                }
                i += 1;
            }
        }
        let high = self.thresholds.high;
        let adapted: u32 = if self.config.adaptive_mode && n >= self.config.pressure_window_size
            && stable {
            if high >= HIGH_MARK_FLOOR + HIGH_MARK_STEP {
                high - HIGH_MARK_STEP
            } else if high >= HIGH_MARK_FLOOR {
                HIGH_MARK_FLOOR
            } else {
                high
            }
        } else {
            high
        };
        self.thresholds.high = adapted;
        let changed = level != self.pressure_level;
        self.pressure_level = level;
        changed
    }

    /// What is done about the pressure that was found last.
    pub fn handle_pressure_changes(&self) -> (res: PressureResponse)
        ensures
            res == spec_response(self.pressure_level, self.config.emergency_actions),
    {
        match self.pressure_level {
            MemoryPressure::Critical => {
                if self.config.emergency_actions {
                    PressureResponse::Emergency
                } else {
                    PressureResponse::Nothing
                }
            },
            MemoryPressure::High => PressureResponse::Cleanup,
            _ => PressureResponse::Nothing,
        }
    }

    /// Asks for memory to be freed at time `now`. One cooldown serves all
    /// builds: the request is granted, and the time noted, unless memory
    /// was freed less than the cooldown ago. Returns whether it is granted.
    pub fn request_emergency_cleanup(&mut self, now: u64) -> (res: bool)
        ensures
            res == spec_cooldown_over(
                old(self).last_gc_trigger,
                old(self).config.gc_cooldown_secs,
                now,
            ),
            final(self).last_gc_trigger == (if res {
                Some(now)
            } else {
                old(self).last_gc_trigger
            }),
            final(self).config == old(self).config,
            final(self).pressure_level == old(self).pressure_level,
            final(self).thresholds == old(self).thresholds,
            final(self).pressure_history == old(self).pressure_history,
    {
        let due = match self.last_gc_trigger {
            Some(t) => now >= t && now - t >= self.config.gc_cooldown_secs,
            None => true,
        };
        if due {
            self.last_gc_trigger = Some(now);
        }
        due
    }
}

} // verus!
