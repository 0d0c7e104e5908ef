use vstd::prelude::*;
use crate::build_state::{spec_phase_at, spec_phase_index, BuildPhase, PHASE_COUNT};
use crate::error::{spec_error_kind, spec_error_message, BuildError, ErrorKind};
use crate::pipeline::{
    already_installed_outcome,
    build_outcome,
    cache_hit_outcome,
    cancelled_outcome,
    BuildOutcome,
    ALREADY_INSTALLED_REASON,
    CACHE_HIT_REASON,
    CANCELLED_REASON,
    DRY_RUN_REASON,
};

verus! {

/// How far the build of one version has come.
#[derive(Debug, Clone, Copy, PartialEq, Eq, Structural)]
pub enum Stage {
    /// Nothing has been done yet.
    Start,
    /// What is remembered of earlier checks is being forgotten.
    Clearing,
    /// The cache of installations is being asked.
    LookingUp,
    /// The installation that may stand at the prefix is being checked.
    Probing,
    /// The record of an earlier run is being read.
    Resuming,
    /// A slot is being waited for; the build takes up its phases with `from`.
    Waiting { from: BuildPhase },
    /// A phase is running.
    Running { phase: BuildPhase },
    /// The installation is being stored in the cache of installations.
    Storing,
    /// The build has ended.
    Finished,
}

/// What has happened to the build of one version.
#[derive(Debug, Clone, Copy, PartialEq, Eq, Structural)]
pub enum PipelineEvent {
    /// The build is asked for.
    Begin,
    /// What was remembered of earlier checks is forgotten.
    Cleared,
    /// The cache of installations has answered.
    LookedUp { hit: bool },
    /// The installation at the prefix has been checked.
    Probed { valid: bool },
    /// The record of an earlier run has been read; the build can be taken
    /// up at this phase, if at any.
    Resumed { from: Option<BuildPhase> },
    /// A slot has been granted.
    SlotGranted,
    /// No slot could be had.
    SlotRefused,
    /// The running phase has ended well.
    PhaseSucceeded,
    /// The running phase has failed for good.
    PhaseFailed,
    /// The installation has been stored, or could not be; the build goes
    /// on either way.
    Stored,
}

/// How the build of one version ends.
#[derive(Debug, Clone, Copy, PartialEq, Eq, Structural)]
pub enum Ending {
    /// The installation was found in the cache.
    CacheHit,
    /// The version is installed and its compilers pass their checks.
    AlreadyInstalled,
    /// Every phase has ended well.
    Success,
    /// In a dry run, what a build would do has been gone through.
    DryRun,
    /// A phase has failed, or no slot could be had.
    Failed,
    /// A shutdown was asked for before the next phase began.
    Cancelled,
}

/// What is done next for the build of one version.
#[derive(Debug, Clone, Copy, PartialEq, Eq, Structural)]
pub enum PipelineAction {
    /// Forget what is remembered of the checks of compilers and of the
    /// links that were made.
    ClearCaches,
    /// Ask the cache of installations.
    LookUp,
    /// Check the installation that may stand at the prefix.
    Probe,
    /// Read the record of an earlier run.
    Resume,
    /// Ask for a slot.
    Acquire,
    /// Tell the scheduler of the phase, record it as in progress, run it,
    /// and record how it ended.
    Run(BuildPhase),
    /// Store the installation in the cache of installations.
    Store,
    /// Give back the slot, if one is held, and report the ending.
    Finish(Ending),
}

/// What is done with the slot when a build ends.
#[derive(Debug, Clone, Copy, PartialEq, Eq, Structural)]
pub enum SlotRelease {
    /// The build completes, well or badly, and joins the completed builds.
    Complete { success: bool },
    /// The slot is given up without a result.
    Abandon,
}

/// The phase that follows `phase`, if one does.
pub open spec fn spec_next_phase(phase: BuildPhase) -> Option<BuildPhase> {
    if spec_phase_index(phase) + 1 < PHASE_COUNT {
        Some(spec_phase_at(spec_phase_index(phase) + 1))
    } else {
        None
    }
}

/// What follows when the phase `next` is the next to run, if one is: a
/// shutdown that was asked for ends the build before the phase begins; a
/// dry run ends once the download has been gone through; a build whose
/// phases have all run has succeeded.
pub open spec fn spec_proceed(next: Option<BuildPhase>, dry_run: bool, shutdown: bool) -> (
    Stage,
    Option<PipelineAction>,
) {
    match next {
        None => (
            Stage::Finished,
            Some(
                PipelineAction::Finish(
                    if dry_run {
                        Ending::DryRun
                    } else {
                        Ending::Success
                    },
                ),
            ),
        ),
        Some(phase) => if shutdown {
            (Stage::Finished, Some(PipelineAction::Finish(Ending::Cancelled)))
        } else if dry_run && phase != BuildPhase::Download {
            (Stage::Finished, Some(PipelineAction::Finish(Ending::DryRun)))
        } else {
            (Stage::Running { phase }, Some(PipelineAction::Run(phase)))
        },
    }
}

/// The stage that follows an event, and what is done next. The cache of
/// installations is asked first and a hit ends the build; then an
/// installation that stands at the prefix and passes its checks ends it;
/// a forced rebuild passes over both and forgets what is remembered of
/// earlier checks instead. Then the record of an earlier run
/// is read, a slot is asked for, and the phases run in their order from
/// the one at which the build is taken up. Once the install phase has
/// ended well, the installation is stored. The first phase that fails ends
/// the build. An event that does not belong to the stage changes nothing.
pub open spec fn spec_pipeline_transition(
    stage: Stage,
    event: PipelineEvent,
    force_rebuild: bool,
    dry_run: bool,
    shutdown: bool,
) -> (Stage, Option<PipelineAction>) {
    match (stage, event) {
        (Stage::Start, PipelineEvent::Begin) => if force_rebuild {
            (Stage::Clearing, Some(PipelineAction::ClearCaches))
        } else {
            (Stage::LookingUp, Some(PipelineAction::LookUp))
        },
        (Stage::Clearing, PipelineEvent::Cleared) => (
            Stage::Resuming,
            Some(PipelineAction::Resume),
        ),
        (Stage::LookingUp, PipelineEvent::LookedUp { hit }) => if hit {
            (Stage::Finished, Some(PipelineAction::Finish(Ending::CacheHit)))
        } else {
            (Stage::Probing, Some(PipelineAction::Probe))
        },
        (Stage::Probing, PipelineEvent::Probed { valid }) => if valid {
            (Stage::Finished, Some(PipelineAction::Finish(Ending::AlreadyInstalled)))
        } else {
            (Stage::Resuming, Some(PipelineAction::Resume))
        },
        (Stage::Resuming, PipelineEvent::Resumed { from }) => (
            Stage::Waiting {
                from: match from {
                    Some(phase) => phase,
                    None => BuildPhase::Download,
                },
            },
            Some(PipelineAction::Acquire),
        ),
        (Stage::Waiting { from }, PipelineEvent::SlotGranted) => spec_proceed(
            Some(from),
            dry_run,
            shutdown,
        ),
        (Stage::Waiting { from }, PipelineEvent::SlotRefused) => (
            Stage::Finished,
            Some(PipelineAction::Finish(Ending::Failed)),
        ),
        (Stage::Running { phase }, PipelineEvent::PhaseSucceeded) => if phase
            == BuildPhase::Install && !dry_run {
            (Stage::Storing, Some(PipelineAction::Store))
        } else {
            spec_proceed(spec_next_phase(phase), dry_run, shutdown)
        },
        (Stage::Running { phase }, PipelineEvent::PhaseFailed) => (
            Stage::Finished,
            Some(PipelineAction::Finish(Ending::Failed)),
        ),
        (Stage::Storing, PipelineEvent::Stored) => spec_proceed(
            spec_next_phase(BuildPhase::Install),
            dry_run,
            shutdown,
        ),
        _ => (stage, None),
    }
}

/// The phase that follows `phase`, if one does.
pub fn next_phase(phase: BuildPhase) -> (res: Option<BuildPhase>)
    ensures
        res == spec_next_phase(phase),
{
    BuildPhase::from_index(phase.index() + 1)
}

/// What follows when `next` is the next phase to run, if one is.
pub fn proceed(next: Option<BuildPhase>, dry_run: bool, shutdown: bool) -> (res: (
    Stage,
    Option<PipelineAction>,
))
    ensures
        res == spec_proceed(next, dry_run, shutdown),
{
    match next {
        None => {
            let ending = if dry_run {
                Ending::DryRun
            } else {
                Ending::Success
            };
            (Stage::Finished, Some(PipelineAction::Finish(ending)))
        },
        Some(phase) => {
            if shutdown {
                (Stage::Finished, Some(PipelineAction::Finish(Ending::Cancelled)))
            } else if dry_run && !crate::pipeline::runs_in_dry_run(phase) {
                (Stage::Finished, Some(PipelineAction::Finish(Ending::DryRun)))
            } else {
                (Stage::Running { phase }, Some(PipelineAction::Run(phase)))
            }
        },
    }
}

/// Takes the build of one version from one stage to the next: given what
/// has happened, says what is done next. `shutdown` tells whether a
/// shutdown has been asked for by now.
pub fn pipeline_step(
    stage: Stage,
    event: PipelineEvent,
    force_rebuild: bool,
    dry_run: bool,
    shutdown: bool,
) -> (res: (Stage, Option<PipelineAction>))
    ensures
        res == spec_pipeline_transition(stage, event, force_rebuild, dry_run, shutdown),
{
    match (stage, event) {
        (Stage::Start, PipelineEvent::Begin) => {
            if force_rebuild {
                (Stage::Clearing, Some(PipelineAction::ClearCaches))
            } else {
                (Stage::LookingUp, Some(PipelineAction::LookUp))
            }
        },
        (Stage::Clearing, PipelineEvent::Cleared) => (Stage::Resuming, Some(PipelineAction::Resume)),
        (Stage::LookingUp, PipelineEvent::LookedUp { hit }) => {
            if hit {
                (Stage::Finished, Some(PipelineAction::Finish(Ending::CacheHit)))
            } else {
                (Stage::Probing, Some(PipelineAction::Probe))
            }
        },
        (Stage::Probing, PipelineEvent::Probed { valid }) => {
            if valid {
                (Stage::Finished, Some(PipelineAction::Finish(Ending::AlreadyInstalled)))
            } else {
                (Stage::Resuming, Some(PipelineAction::Resume))
            }
        },
        (Stage::Resuming, PipelineEvent::Resumed { from }) => {
            let first = match from {
                Some(phase) => phase,
                None => BuildPhase::Download,
            };
            (Stage::Waiting { from: first }, Some(PipelineAction::Acquire))
        },
        (Stage::Waiting { from }, PipelineEvent::SlotGranted) => proceed(
            Some(from),
            dry_run,
            shutdown,
        ),
        (Stage::Waiting { from }, PipelineEvent::SlotRefused) => (
            Stage::Finished,
            Some(PipelineAction::Finish(Ending::Failed)),
        ),
        (Stage::Running { phase }, PipelineEvent::PhaseSucceeded) => {
            let installed = match phase {
                BuildPhase::Install => true,
                _ => false,
            };
            if installed && !dry_run {
                (Stage::Storing, Some(PipelineAction::Store))
            } else {
                proceed(next_phase(phase), dry_run, shutdown)
            }
        },
        (Stage::Running { phase }, PipelineEvent::PhaseFailed) => (
            Stage::Finished,
            Some(PipelineAction::Finish(Ending::Failed)),
        ),
        (Stage::Storing, PipelineEvent::Stored) => proceed(
            next_phase(BuildPhase::Install),
            dry_run,
            shutdown,
        ),
        _ => (stage, None),
    }
}

/// What is done with the slot when a build that holds one ends: a build
/// that was cut short gives it up; any other completes, well unless a phase
/// failed. A build that ends before it held a slot has none to give back.
pub open spec fn spec_slot_release(held: bool, ending: Ending) -> Option<SlotRelease> {
    if !held {
        None
    } else {
        match ending {
            Ending::Cancelled => Some(SlotRelease::Abandon),
            Ending::Failed => Some(SlotRelease::Complete { success: false }),
            _ => Some(SlotRelease::Complete { success: true }),
        }
    }
}

/// What is done with the slot when a build ends; `held` tells whether
/// the build holds one.
pub fn slot_release(held: bool, ending: Ending) -> (res: Option<SlotRelease>)
    ensures
        res == spec_slot_release(held, ending),
{
    if !held {
        None
    } else {
        match ending {
            Ending::Cancelled => Some(SlotRelease::Abandon),
            Ending::Failed => Some(SlotRelease::Complete { success: false }),
            _ => Some(SlotRelease::Complete { success: true }),
        }
    }
}

/// What becomes of the record of a build when the build ends.
#[derive(Debug, Clone, Copy, PartialEq, Eq, Structural)]
pub enum RecordFate {
    /// Every phase is recorded as completed, as after a full build.
    MarkedComplete,
    /// The record is removed: nothing is left to take up.
    Removed,
    /// The record stays as it is, so that the build can be taken up again.
    Kept,
}

/// What becomes of the record of a build when the build ends: after a
/// hit in the cache of installations it shows every phase as completed;
/// after a success it is removed; otherwise it stays.
pub fn record_fate(ending: Ending) -> (res: RecordFate)
    ensures
        res == (match ending {
            Ending::CacheHit => RecordFate::MarkedComplete,
            Ending::Success => RecordFate::Removed,
            _ => RecordFate::Kept,
        }),
{
    match ending {
        Ending::CacheHit => RecordFate::MarkedComplete,
        Ending::Success => RecordFate::Removed,
        _ => RecordFate::Kept,
    }
}

/// What a build that ended came to, as it is reported. A failed build is
/// reported with the kind and the text of the error that ended it, or as
/// an error of no known kind where none is at hand.
pub fn ending_outcome(ending: Ending, failure: Option<&BuildError>) -> (res: BuildOutcome)
    ensures
        match ending {
            Ending::CacheHit => res matches BuildOutcome::Skipped(r) && r@ == CACHE_HIT_REASON@,
            Ending::AlreadyInstalled => res matches BuildOutcome::Skipped(r) && r@
                == ALREADY_INSTALLED_REASON@,
            Ending::DryRun => res matches BuildOutcome::Skipped(r) && r@ == DRY_RUN_REASON@,
            Ending::Success => res is Success,
            Ending::Cancelled => res matches BuildOutcome::Failed(kind, text) && kind
                == ErrorKind::Cancelled && text@ == CANCELLED_REASON@,
            Ending::Failed => match failure {
                Some(e) => res matches BuildOutcome::Failed(kind, text) && kind == spec_error_kind(
                    *e,
                ) && text@ == spec_error_message(*e),
                None => res matches BuildOutcome::Failed(kind, text) && kind == ErrorKind::Other
                    && text@ == "failed"@,
            },
        },
{
    match ending {
        Ending::CacheHit => cache_hit_outcome(),
        Ending::AlreadyInstalled => already_installed_outcome(),
        Ending::DryRun => build_outcome(true, None),
        Ending::Success => build_outcome(false, None),
        Ending::Cancelled => cancelled_outcome(),
        Ending::Failed => match failure {
            Some(e) => build_outcome(false, Some(e)),
            None => {
                let r = BuildOutcome::Failed(ErrorKind::Other, "failed".to_owned());
                assert(r matches BuildOutcome::Failed(kind, text) && kind == ErrorKind::Other
                    && text@ == "failed"@);
                r
            },
        },
    }
}

/// A hit in the cache of installations ends the build at once, and a
/// build that has ended runs no phase: nothing follows whatever happens.
pub proof fn lemma_cache_hit_ends_the_build(event: PipelineEvent, dry_run: bool, shutdown: bool)
    ensures
        spec_pipeline_transition(
            Stage::LookingUp,
            PipelineEvent::LookedUp { hit: true },
            false,
            dry_run,
            shutdown,
        ) == (Stage::Finished, Some(PipelineAction::Finish(Ending::CacheHit))),
        spec_pipeline_transition(Stage::Finished, event, false, dry_run, shutdown) == (
            Stage::Finished,
            None::<PipelineAction>,
        ),
{
}

/// The phases run in their order: the phase that is run next after a
/// phase has ended well, be it at once or once the installation has been
/// stored, is the one that follows it.
pub proof fn lemma_phases_run_in_order(
    stage: Stage,
    event: PipelineEvent,
    force_rebuild: bool,
    dry_run: bool,
    shutdown: bool,
    next: BuildPhase,
)
    requires
        spec_pipeline_transition(stage, event, force_rebuild, dry_run, shutdown).1 == Some(
            PipelineAction::Run(next),
        ),
    ensures
        spec_pipeline_transition(stage, event, force_rebuild, dry_run, shutdown).0
            == (Stage::Running { phase: next }),
        stage matches Stage::Running { phase } ==> spec_phase_index(next) == spec_phase_index(phase)
            + 1,
        stage is Storing ==> next == BuildPhase::PostInstall,
        stage matches Stage::Waiting { from } ==> next == from,
        stage is Running || stage is Storing || stage is Waiting,
{
}

/// Once a shutdown has been asked for, no further phase begins; nor does
/// a dry run begin any phase but the download.
pub proof fn lemma_no_phase_begins_after_shutdown(
    stage: Stage,
    event: PipelineEvent,
    force_rebuild: bool,
    dry_run: bool,
    shutdown: bool,
)
    ensures
        shutdown ==> !(spec_pipeline_transition(stage, event, force_rebuild, dry_run, shutdown).1
            matches Some(PipelineAction::Run(_))),
        dry_run ==> !(spec_pipeline_transition(stage, event, force_rebuild, dry_run, shutdown).1
            matches Some(PipelineAction::Run(phase)) && phase != BuildPhase::Download),
{
}

/// A forced rebuild asks neither the cache of installations nor the
/// installation at the prefix: whatever the stage and the event, neither
/// is the next thing done.
pub proof fn lemma_forced_rebuild_passes_the_caches(
    stage: Stage,
    event: PipelineEvent,
    dry_run: bool,
    shutdown: bool,
)
    requires
        !(stage is LookingUp) && !(stage is Probing),
    ensures
        spec_pipeline_transition(stage, event, true, dry_run, shutdown).1 != Some(
            PipelineAction::LookUp,
        ),
        spec_pipeline_transition(stage, event, true, dry_run, shutdown).1 != Some(
            PipelineAction::Probe,
        ),
        !(spec_pipeline_transition(stage, event, true, dry_run, shutdown).0 is LookingUp),
        !(spec_pipeline_transition(stage, event, true, dry_run, shutdown).0 is Probing),
        spec_pipeline_transition(Stage::Start, PipelineEvent::Begin, true, dry_run, shutdown) == (
            Stage::Clearing,
            Some(PipelineAction::ClearCaches),
        ),
{
}

/// The installation is stored exactly when the install phase has ended
/// well outside a dry run.
pub proof fn lemma_store_follows_install(
    stage: Stage,
    event: PipelineEvent,
    force_rebuild: bool,
    dry_run: bool,
    shutdown: bool,
)
    ensures
        spec_pipeline_transition(stage, event, force_rebuild, dry_run, shutdown).1 == Some(
            PipelineAction::Store,
        ) <==> stage == (Stage::Running { phase: BuildPhase::Install }) && event
            == PipelineEvent::PhaseSucceeded && !dry_run,
{
}

} // verus!
