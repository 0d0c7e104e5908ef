use vstd::prelude::*;
use crate::error::{spec_error_kind, spec_error_message, BuildError, ErrorKind};
use crate::pattern::{lowercase, spec_lowercase};
use crate::scheduler::{spec_reduced_capacity, BuildScheduler};
use crate::text::{spec_contains, str_contains};

verus! {

/// The pause, in seconds, before a step that ran out of memory is tried again.
pub const OOM_DELAY_SECS: u64 = 60;

/// The pause, in seconds, that lets the machine recover once the
/// scheduler has been told of a build that ran out of memory.
pub const OOM_RECOVERY_SECS: u64 = 30;

/// The pause, in seconds, before a step that failed on the network is tried again.
pub const NETWORK_DELAY_SECS: u64 = 5;

/// How failed steps are tried again.
#[derive(Debug, Clone, Copy, PartialEq, Eq, Structural)]
pub struct RetryStrategy {
    /// How often a step is run at most.
    pub max_attempts: usize,
    /// The pause before the second run, in seconds.
    pub initial_delay_secs: u64,
    /// The factor by which the pause grows from run to run, in tenths.
    pub backoff_tenths: u32,
    /// The longest pause, in seconds.
    pub max_delay_secs: u64,
    pub reduce_parallelism_on_oom: bool,
}

/// Switches for retrying as a whole.
#[derive(Debug, Clone, Copy, PartialEq, Eq, Structural)]
pub struct RetryConfig {
    pub enable_auto_retry: bool,
    pub enable_oom_adjustment: bool,
    pub max_global_retries: usize,
}

/// How often builds ran out of memory.
#[derive(Debug, Clone, Copy, PartialEq, Eq, Structural)]
pub struct OomStatistics {
    pub oom_count: usize,
    pub reduction_applied: bool,
}

/// What is done after a step has failed.
#[derive(Debug, Clone, Copy, PartialEq, Eq, Structural)]
pub enum RetryDecision {
    /// The step has had its runs: the failure stands.
    GiveUp {
        /// Where the step ran out of memory, the count of such failures to
        /// hand to the scheduler.
        reduce_to: Option<usize>,
    },
    /// The step is run again.
    Retry {
        /// The pause before the next run, in seconds.
        delay_secs: u64,
        /// The pause that the schedule gives to the run after the next.
        next_delay_secs: u64,
        /// Where the step ran out of memory, the count of such failures to
        /// hand to the scheduler.
        reduce_to: Option<usize>,
        /// The extra pause in which the machine recovers, in seconds.
        recovery_secs: u64,
    },
}

/// The pauses of a schedule never pass its longest pause, provided the
/// first does not.
pub proof fn lemma_schedule_is_capped(strategy: RetryStrategy, n: nat)
    requires
        strategy.initial_delay_secs <= strategy.max_delay_secs,
    ensures
        spec_scheduled_delay(strategy, n) <= strategy.max_delay_secs,
    decreases n,
{
    if n > 1 {
        lemma_schedule_is_capped(strategy, (n - 1) as nat);
    }
}

/// Whether a text in lower case tells of a lack of memory.
pub open spec fn spec_is_oom_text(lowered: Seq<char>) -> bool {
    spec_contains(lowered, "out of memory"@) || spec_contains(lowered, "memory exhausted"@)
        || spec_contains(lowered, "cannot allocate memory"@) || spec_contains(lowered, "killed"@)
        || spec_contains(lowered, "signal 9"@) || spec_contains(
        lowered,
        "virtual memory exhausted"@,
    )
}

/// The pause that follows `delay` in the schedule: `delay` times the
/// factor, but no more than the longest pause.
pub open spec fn spec_next_delay(strategy: RetryStrategy, delay: u64) -> u64 {
    let grown = delay as int * strategy.backoff_tenths as int / 10;
    if grown > strategy.max_delay_secs {
        strategy.max_delay_secs
    } else {
        grown as u64
    }
}

/// The pause before the next run: a minute after a lack of memory, five
/// seconds after a failure of the network, else what the schedule gives.
pub open spec fn spec_retry_delay(is_oom: bool, is_network: bool, base: u64) -> u64 {
    if is_oom {
        OOM_DELAY_SECS
    } else if is_network {
        NETWORK_DELAY_SECS
    } else {
        base
    }
}

/// The pause before run number `n + 1` under a schedule, counting the
/// first run as number 1.
pub open spec fn spec_scheduled_delay(strategy: RetryStrategy, n: nat) -> u64
    decreases n,
{
    if n <= 1 {
        strategy.initial_delay_secs
    } else {
        spec_next_delay(strategy, spec_scheduled_delay(strategy, (n - 1) as nat))
    }
}

/// Whether a text in lower case tells of a lack of memory.
pub fn is_oom_text(lowered: &str) -> (res: bool)
    ensures
        res == spec_is_oom_text(lowered@),
{
    str_contains(lowered, "out of memory") || str_contains(lowered, "memory exhausted")
        || str_contains(lowered, "cannot allocate memory") || str_contains(lowered, "killed")
        || str_contains(lowered, "signal 9") || str_contains(lowered, "virtual memory exhausted")
}

/// Whether a report tells of a lack of memory: in lower case it holds
/// one of the known marks.
pub fn is_oom_report(report: &str) -> (res: bool)
    ensures
        res == spec_is_oom_text(spec_lowercase(report@)),
{
    let lowered = lowercase(report);
    is_oom_text(lowered.as_str())
}

/// The usual schedule: three runs, ten seconds at first, doubling, five
/// minutes at most.
pub open spec fn spec_default_strategy() -> RetryStrategy {
    RetryStrategy {
        max_attempts: 3,
        initial_delay_secs: 10,
        backoff_tenths: 20,
        max_delay_secs: 300,
        reduce_parallelism_on_oom: true,
    }
}

/// The schedule for downloads: five runs, two seconds at first.
pub open spec fn spec_download_strategy() -> RetryStrategy {
    RetryStrategy {
        max_attempts: 5,
        initial_delay_secs: 2,
        backoff_tenths: 20,
        max_delay_secs: 300,
        reduce_parallelism_on_oom: true,
    }
}

/// What is done after run number `attempt` of a step has failed, where
/// the count of failures for lack of memory, this one included, is `ooms`.
pub open spec fn spec_decision(
    strategy: RetryStrategy,
    ooms: usize,
    attempt: usize,
    is_oom: bool,
    is_network: bool,
    delay: u64,
) -> RetryDecision {
    let reduce_to = if is_oom && strategy.reduce_parallelism_on_oom {
        Some(ooms)
    } else {
        None
    };
    if attempt >= strategy.max_attempts {
        RetryDecision::GiveUp { reduce_to }
    } else {
        RetryDecision::Retry {
            delay_secs: spec_retry_delay(is_oom, is_network, delay),
            next_delay_secs: spec_next_delay(strategy, delay),
            reduce_to,
            recovery_secs: if is_oom && strategy.reduce_parallelism_on_oom {
                OOM_RECOVERY_SECS
            } else {
                0
            },
        }
    }
}

/// The count of failures for lack of memory after one more failure.
pub open spec fn spec_ooms_after(ooms: usize, is_oom: bool) -> usize {
    if is_oom && ooms < usize::MAX {
        (ooms + 1) as usize
    } else {
        ooms
    }
}

/// The count of failures for lack of memory that a decision hands to the
/// scheduler, if it hands one.
pub open spec fn spec_reduce_to(decision: RetryDecision) -> Option<usize> {
    match decision {
        RetryDecision::GiveUp { reduce_to } => reduce_to,
        RetryDecision::Retry { reduce_to, .. } => reduce_to,
    }
}

/// The whole pause before the next run under a decision: the delay and
/// the time in which the machine recovers. A step that is given up has none.
pub open spec fn spec_pause(decision: RetryDecision) -> Option<u64> {
    match decision {
        RetryDecision::GiveUp { .. } => None,
        RetryDecision::Retry { delay_secs, recovery_secs, .. } => Some(
            if delay_secs + recovery_secs > u64::MAX {
                u64::MAX
            } else {
                (delay_secs + recovery_secs) as u64
            },
        ),
    }
}

/// The count of failures for lack of memory that a decision hands to the scheduler.
pub fn reduce_to(decision: RetryDecision) -> (res: Option<usize>)
    ensures
        res == spec_reduce_to(decision),
{
    match decision {
        RetryDecision::GiveUp { reduce_to } => reduce_to,
        RetryDecision::Retry { reduce_to, .. } => reduce_to,
    }
}

/// The whole pause before the next run under a decision.
pub fn pause_before_retry(decision: RetryDecision) -> (res: Option<u64>)
    ensures
        res == spec_pause(decision),
{
    match decision {
        RetryDecision::GiveUp { .. } => None,
        RetryDecision::Retry { delay_secs, recovery_secs, .. } => {
            if delay_secs > u64::MAX - recovery_secs {
                Some(u64::MAX)
            } else {
                Some(delay_secs + recovery_secs)
            }
        },
    }
}

/// Carries a decision out on the scheduler: where the step ran out of
/// memory, fewer builds may hold a slot from now on, by the count of such
/// failures; otherwise the scheduler stays as it is.
pub fn apply_to_scheduler(decision: RetryDecision, scheduler: &mut BuildScheduler)
    requires
        old(scheduler).wf(),
    ensures
        final(scheduler).wf(),
        match spec_reduce_to(decision) {
            Some(ooms) => final(scheduler).capacity == spec_reduced_capacity(
                old(scheduler).max_concurrent as int,
                ooms as int,
            ) && final(scheduler).max_concurrent == old(scheduler).max_concurrent && final(scheduler).active == old(scheduler).active && final(scheduler).waiting == old(scheduler).waiting
                && final(scheduler).completed == old(scheduler).completed,
            None => *final(scheduler) == *old(scheduler),
        },
{
    match reduce_to(decision) {
        Some(ooms) => {
            scheduler.reduce_capacity(ooms);
        },
        None => {},
    }
}

impl RetryStrategy {
    /// The usual schedule.
    pub fn default_strategy() -> (res: Self)
        ensures
            res == spec_default_strategy(),
    {
        RetryStrategy {
            max_attempts: 3,
            initial_delay_secs: 10,
            backoff_tenths: 20,
            max_delay_secs: 300,
            reduce_parallelism_on_oom: true,
        }
    }

    /// The schedule for downloads.
    pub fn download_strategy() -> (res: Self)
        ensures
            res == spec_download_strategy(),
    {
        RetryStrategy {
            max_attempts: 5,
            initial_delay_secs: 2,
            backoff_tenths: 20,
            max_delay_secs: 300,
            reduce_parallelism_on_oom: true,
        }
    }

    /// The pause that follows `delay` in the schedule.
    pub fn next_delay(&self, delay: u64) -> (res: u64)
        ensures
            res == spec_next_delay(*self, delay),
            res <= self.max_delay_secs,
    {
        assert(delay * self.backoff_tenths <= 0xffff_ffff_ffff_ffff * 0xffff_ffff) by (nonlinear_arith)
            requires
                delay <= 0xffff_ffff_ffff_ffff,
                self.backoff_tenths <= 0xffff_ffff,
        ;
        let grown: u128 = (delay as u128) * (self.backoff_tenths as u128) / 10;
        if grown > self.max_delay_secs as u128 {
            self.max_delay_secs
        } else {
            grown as u64
        }
    }
}

impl RetryConfig {
    /// Retrying and the adjustment after a lack of memory are on; ten
    /// retries in all.
    pub fn default_config() -> (res: Self)
        ensures
            res == (RetryConfig {
                enable_auto_retry: true,
                enable_oom_adjustment: true,
                max_global_retries: 10,
            }),
    {
        RetryConfig { enable_auto_retry: true, enable_oom_adjustment: true, max_global_retries: 10 }
    }
}

/// Runs failed steps again and keeps count of the builds that ran out of memory.
#[derive(Debug)]
pub struct RetryExecutor {
    pub strategy: RetryStrategy,
    pub oom_count: usize,
}

impl RetryExecutor {
    /// An executor that follows `strategy` and has seen no lack of memory.
    pub fn new(strategy: RetryStrategy) -> (res: Self)
        ensures
            res.strategy == strategy,
            res.oom_count == 0,
    {
        RetryExecutor { strategy, oom_count: 0 }
    }

    /// Whether `error` tells of a lack of memory: its text, in lower case,
    /// holds one of the known marks.
    pub fn is_oom_error(&self, error: &BuildError) -> (res: bool)
        ensures
            res == spec_is_oom_text(spec_lowercase(spec_error_message(*error))),
    {
        let text = error.message();
        let lowered = lowercase(text.as_str());
        is_oom_text(lowered.as_str())
    }

    /// Whether `error` came from the network.
    pub fn is_network_error(&self, error: &BuildError) -> (res: bool)
        ensures
            res == (spec_error_kind(*error) == ErrorKind::Download),
    {
        error.is_network()
    }

    /// The pause before the next run.
    pub fn calculate_retry_delay(&self, error: &BuildError, base_delay: u64, is_oom: bool) -> (res:
        u64)
        ensures
            res == spec_retry_delay(
                is_oom,
                spec_error_kind(*error) == ErrorKind::Download,
                base_delay,
            ),
    {
        if is_oom {
            OOM_DELAY_SECS
        } else if self.is_network_error(error) {
            NETWORK_DELAY_SECS
        } else {
            base_delay
        }
    }

    /// Decides what follows when run number `attempt` of a step has
    /// failed, `delay` being the pause that the schedule gives now and
    /// `is_oom` telling whether the step ran out of memory. A lack of memory
    /// is counted, and the count goes to the scheduler where the strategy
    /// says so. The step is run again unless it has had its runs.
    pub fn decide(&mut self, attempt: usize, error: &BuildError, delay: u64, is_oom: bool) -> (res:
        RetryDecision)
        ensures
            final(self).strategy == old(self).strategy,
            final(self).oom_count == spec_ooms_after(old(self).oom_count, is_oom),
            res == spec_decision(
                old(self).strategy,
                final(self).oom_count,
                attempt,
                is_oom,
                spec_error_kind(*error) == ErrorKind::Download,
                delay,
            ),
    {
        if is_oom && self.oom_count < usize::MAX {
            self.oom_count = self.oom_count + 1;
        }
        let adjust = is_oom && self.strategy.reduce_parallelism_on_oom;
        let reduce_to: Option<usize> = if adjust {
            Some(self.oom_count)
        } else {
            None
        };
        if attempt >= self.strategy.max_attempts {
            RetryDecision::GiveUp { reduce_to }
        } else {
            RetryDecision::Retry {
                delay_secs: self.calculate_retry_delay(error, delay, is_oom),
                next_delay_secs: self.strategy.next_delay(delay),
                reduce_to,
                recovery_secs: if adjust {
                    OOM_RECOVERY_SECS
                } else {
                    0
                },
            }
        }
    }

    /// How often builds ran out of memory.
    pub fn get_oom_stats(&self) -> (res: OomStatistics)
        ensures
            res.oom_count == self.oom_count,
            res.reduction_applied == (self.oom_count > 0),
    {
        OomStatistics { oom_count: self.oom_count, reduction_applied: self.oom_count > 0 }
    }
}

/// Retries for the phases of a build.
#[derive(Debug)]
pub struct PhaseRetryExecutor {
    pub executor: RetryExecutor,
}

impl PhaseRetryExecutor {
    /// An executor for build phases, on the usual schedule.
    pub fn new() -> (res: Self)
        ensures
            res.executor.strategy == spec_default_strategy(),
            res.executor.oom_count == 0,
    {
        PhaseRetryExecutor { executor: RetryExecutor::new(RetryStrategy::default_strategy()) }
    }

    /// An executor for one download, on the schedule for downloads.
    pub fn retry_download(&self) -> (res: RetryExecutor)
        ensures
            res.strategy == spec_download_strategy(),
            res.oom_count == 0,
    {
        RetryExecutor::new(RetryStrategy::download_strategy())
    }

    /// Decides what follows when run number `attempt` of a build phase has failed.
    pub fn retry_build(&mut self, attempt: usize, error: &BuildError, delay: u64) -> (res:
        RetryDecision)
        ensures
            final(self).executor.strategy == old(self).executor.strategy,
            final(self).executor.oom_count == spec_ooms_after(
                old(self).executor.oom_count,
                spec_is_oom_text(spec_lowercase(spec_error_message(*error))),
            ),
            res == spec_decision(
                old(self).executor.strategy,
                final(self).executor.oom_count,
                attempt,
                spec_is_oom_text(spec_lowercase(spec_error_message(*error))),
                spec_error_kind(*error) == ErrorKind::Download,
                delay,
            ),
    {
        let is_oom = self.executor.is_oom_error(error);
        self.executor.decide(attempt, error, delay, is_oom)
    }
}

} // verus!
