use vstd::prelude::*;
use vstd::string::StringExecFns;
use crate::build_state::{spec_phase_at, spec_phase_index, BuildPhase, PHASE_COUNT};
use crate::decimal::{push_decimal, push_signed, spec_decimal, spec_signed_decimal};
use crate::error::{
    kind_name,
    spec_error_kind,
    spec_error_message,
    spec_exit_code,
    spec_kind_name,
    BuildError,
    BuildStatus,
    ErrorKind,
};
use crate::post_install::PostInstallStep;
use crate::version::{path_join, spec_path_join, GccVersion};
use crate::scheduler::BuildPhase as LoadPhase;

verus! {

/// The reason given for a build that is passed over because its
/// installation lies in the cache.
pub const CACHE_HIT_REASON: &'static str = "cache_hit";

/// The reason recorded for a build that a shutdown cut short.
pub const CANCELLED_REASON: &'static str = "cancelled";

/// The reason given for a build that was passed over because the version
/// is installed and its compilers pass their checks.
pub const ALREADY_INSTALLED_REASON: &'static str = "already installed";

/// The reason given for a build that a dry run passed over.
pub const DRY_RUN_REASON: &'static str = "Dry run";

/// What the build of one version came to.
#[derive(Debug)]
pub enum BuildOutcome {
    Success,
    /// Passed over, for this reason.
    Skipped(String),
    /// Failed, with an error of this kind and this text.
    Failed(ErrorKind, String),
}

/// What is done after `make` has run.
#[derive(Debug, Clone, Copy, PartialEq, Eq, Structural)]
pub enum CompileStep {
    /// The compiler is built.
    Done,
    /// `make` is run once more, with one job.
    RetrySerial,
    /// The build ran out of memory: the retry executor takes over.
    OutOfMemory,
    /// The build has failed.
    Failed,
}

/// The phases that a build runs, in order: none where its installation
/// lies in the cache and no rebuild is forced; else all from the phase at
/// which it is taken up.
pub open spec fn spec_phases_to_run(cache_hit: bool, force_rebuild: bool, resume_from: int) -> Seq<
    BuildPhase,
> {
    if cache_hit && !force_rebuild {
        Seq::empty()
    } else {
        Seq::new((PHASE_COUNT - resume_from) as nat, |i: int| spec_phase_at(resume_from + i))
    }
}

/// What the scheduler is told when a build enters a phase, so that it
/// reckons with what the phase takes: nothing for the phases that put no
/// load on the machine.
pub open spec fn spec_load_phase(phase: BuildPhase) -> Option<LoadPhase> {
    match phase {
        BuildPhase::Configure => Some(LoadPhase::Configure),
        BuildPhase::Compile => Some(LoadPhase::Compile),
        BuildPhase::Install => Some(LoadPhase::Install),
        BuildPhase::PostInstall => Some(LoadPhase::Test),
        _ => None,
    }
}

/// What is done after `make` has run: a failure for lack of memory goes
/// to the retry executor; any other failure of a parallel run is answered
/// by one run with a single job; a failure of that run stands.
pub open spec fn spec_after_make(succeeded: bool, out_of_memory: bool, was_serial: bool) -> CompileStep {
    if succeeded {
        CompileStep::Done
    } else if out_of_memory {
        CompileStep::OutOfMemory
    } else if !was_serial {
        CompileStep::RetrySerial
    } else {
        CompileStep::Failed
    }
}

/// The exit code of a run: that of a failure of the machine or of the
/// lock where the run ended on one; else one where a build failed, and zero
/// where all were built or passed over.
pub open spec fn spec_run_exit_code(fatal: Option<ErrorKind>, failed_builds: nat) -> u8 {
    match fatal {
        Some(k) => spec_exit_code(k),
        None => if failed_builds > 0 {
            1
        } else {
            0
        },
    }
}

/// The phases that a build runs. `resume_from` is the phase at which a
/// resumed build is taken up; a new build begins at the first.
pub fn phases_to_run(cache_hit: bool, force_rebuild: bool, resume_from: Option<BuildPhase>) -> (res:
    Vec<BuildPhase>)
    ensures
        res@ == spec_phases_to_run(
            cache_hit,
            force_rebuild,
            match resume_from {
                Some(p) => spec_phase_index(p),
                None => 0,
            },
        ),
        cache_hit && !force_rebuild ==> res@.len() == 0,
{
    let mut out: Vec<BuildPhase> = Vec::new();
    if cache_hit && !force_rebuild {
        return out;
    }
    let start: usize = match resume_from {
        Some(p) => p.index(),
        None => 0,
    };
    let all = BuildPhase::all_phases();
    let mut i: usize = start;
    while i < PHASE_COUNT
        invariant
            start <= i <= PHASE_COUNT,
            all@.len() == PHASE_COUNT,
            forall|k: int| 0 <= k < PHASE_COUNT ==> all@[k] == spec_phase_at(k),
            out@.len() == i - start,
            forall|k: int| 0 <= k < out@.len() ==> out@[k] == spec_phase_at(start + k),
        decreases PHASE_COUNT - i,
    {
        out.push(all[i]);
        i += 1;
    }
    assert(out@ =~= spec_phases_to_run(cache_hit, force_rebuild, start as int));
    out
}

/// A build whose installation lies in the cache runs none of the phases
/// from the download to the installation, unless a rebuild is forced.
pub proof fn lemma_cache_hit_skips(resume_from: int, phase: BuildPhase)
    ensures
        !spec_phases_to_run(true, false, resume_from).contains(phase),
{
}

/// What the scheduler is told when a build enters a phase.
pub fn load_phase(phase: BuildPhase) -> (res: Option<LoadPhase>)
    ensures
        res == spec_load_phase(phase),
{
    match phase {
        BuildPhase::Configure => Some(LoadPhase::Configure),
        BuildPhase::Compile => Some(LoadPhase::Compile),
        BuildPhase::Install => Some(LoadPhase::Install),
        BuildPhase::PostInstall => Some(LoadPhase::Test),
        _ => None,
    }
}

/// What is done after `make` has run.
pub fn after_make(succeeded: bool, out_of_memory: bool, was_serial: bool) -> (res: CompileStep)
    ensures
        res == spec_after_make(succeeded, out_of_memory, was_serial),
{
    if succeeded {
        CompileStep::Done
    } else if out_of_memory {
        CompileStep::OutOfMemory
    } else if !was_serial {
        CompileStep::RetrySerial
    } else {
        CompileStep::Failed
    }
}

/// How `make` ended, in words: by which signal, or else with which status.
pub open spec fn spec_make_report(exit_code: Option<i32>, signal: Option<i32>) -> Seq<char> {
    match signal {
        Some(s) => "make was ended by signal "@ + spec_signed_decimal(s as int),
        None => match exit_code {
            Some(c) => "make left with status "@ + spec_signed_decimal(c as int),
            None => "make left without a status"@,
        },
    }
}

/// How `make` ended, in words.
pub fn make_report(exit_code: Option<i32>, signal: Option<i32>) -> (res: String)
    ensures
        res@ == spec_make_report(exit_code, signal),
{
    match signal {
        Some(s) => {
            let mut text = "make was ended by signal ".to_owned();
            push_signed(&mut text, s);
            text
        },
        None => match exit_code {
            Some(c) => {
                let mut text = "make left with status ".to_owned();
                push_signed(&mut text, c);
                text
            },
            None => "make left without a status".to_owned(),
        },
    }
}

/// What the compile phase comes to after `make` has run. A run that
/// succeeded ends the phase; a parallel run that failed for another reason
/// than a lack of memory is followed by a serial one; a lack of memory and
/// a failed serial run end the phase with the error that tells of them,
/// which carries `report`.
pub fn compile_result(
    version: &GccVersion,
    succeeded: bool,
    out_of_memory: bool,
    was_serial: bool,
    report: &str,
) -> (res: Result<CompileStep, BuildError>)
    ensures
        match spec_after_make(succeeded, out_of_memory, was_serial) {
            CompileStep::Done => res matches Ok(step) && step == CompileStep::Done,
            CompileStep::RetrySerial => res matches Ok(step) && step == CompileStep::RetrySerial,
            CompileStep::OutOfMemory => res matches Err(e) && e matches BuildError::OutOfMemory {
                version: v,
                message: m,
            } && v@ == version.full@ && m@ == report@,
            CompileStep::Failed => res matches Err(e) && e matches BuildError::Make {
                version: v,
                message: m,
            } && v@ == version.full@ && m@ == report@,
        },
{
    match after_make(succeeded, out_of_memory, was_serial) {
        CompileStep::Done => Ok(CompileStep::Done),
        CompileStep::RetrySerial => Ok(CompileStep::RetrySerial),
        CompileStep::OutOfMemory => {
            let e = BuildError::OutOfMemory {
                version: version.full.clone(),
                message: report.to_owned(),
            };
            assert(e matches BuildError::OutOfMemory { version: v, message: m } && v@
                == version.full@ && m@ == report@);
            Err(e)
        },
        CompileStep::Failed => {
            let e = BuildError::Make { version: version.full.clone(), message: report.to_owned() };
            assert(e matches BuildError::Make { version: v, message: m } && v@ == version.full@
                && m@ == report@);
            Err(e)
        },
    }
}

/// Where the log of a failed configuration is to be found, in words.
pub open spec fn spec_configure_hint(build_dir: Seq<char>) -> Seq<char> {
    "Configure failed. Check "@ + spec_path_join(build_dir, "config.log"@)
        + " for details (see output above)"@
}

/// What the configure phase comes to: the error that points to the log
/// of the configuration in `build_dir` where `configure` failed.
pub fn configure_result(version: &GccVersion, succeeded: bool, build_dir: &str) -> (res: Result<
    (),
    BuildError,
>)
    ensures
        res is Ok <==> succeeded,
        res matches Err(e) ==> e matches BuildError::Configure { version: v, message: m } && v@
            == version.full@ && m@ == spec_configure_hint(build_dir@),
{
    if succeeded {
        return Ok(());
    }
    let mut hint = "Configure failed. Check ".to_owned();
    let log = path_join(build_dir, "config.log");
    hint.append(log.as_str());
    hint.append(" for details (see output above)");
    let e = BuildError::Configure { version: version.full.clone(), message: hint };
    assert(e matches BuildError::Configure { version: v, message: m } && v@ == version.full@ && m@
        == spec_configure_hint(build_dir@));
    Err(e)
}

/// What the install phase comes to: the error that carries the complaint
/// of `make install-strip` where it failed.
pub fn install_result(version: &GccVersion, succeeded: bool, complaint: &str) -> (res: Result<
    (),
    BuildError,
>)
    ensures
        res is Ok <==> succeeded,
        res matches Err(e) ==> e matches BuildError::Install { version: v, message: m } && v@
            == version.full@ && m@ == complaint@,
{
    if succeeded {
        Ok(())
    } else {
        let e = BuildError::Install { version: version.full.clone(), message: complaint.to_owned() };
        assert(e matches BuildError::Install { version: v, message: m } && v@ == version.full@
            && m@ == complaint@);
        Err(e)
    }
}

/// What follows a step of the post-install phase.
#[derive(Debug, Clone, Copy, PartialEq, Eq, Structural)]
pub enum StepFollowUp {
    /// The next step is taken.
    Proceed,
    /// The step is made once more.
    Again,
    /// The phase has failed.
    Fail,
}

/// What follows a step of the post-install phase that succeeded or failed,
/// having failed `earlier_failures` times before: a failure is passed over
/// unless the installation cannot be used without the step; such a step is
/// made once more, and its second failure fails the phase.
pub open spec fn spec_after_step(step: PostInstallStep, succeeded: bool, earlier_failures: nat) -> StepFollowUp {
    if succeeded || !(step == PostInstallStep::Symlinks || step == PostInstallStep::Ldconfig) {
        StepFollowUp::Proceed
    } else if earlier_failures == 0 {
        StepFollowUp::Again
    } else {
        StepFollowUp::Fail
    }
}

/// What follows a step of the post-install phase.
pub fn after_post_install_step(step: PostInstallStep, succeeded: bool, earlier_failures: usize) -> (res:
    StepFollowUp)
    ensures
        res == spec_after_step(step, succeeded, earlier_failures as nat),
{
    if succeeded || !crate::post_install::step_is_critical(step) {
        StepFollowUp::Proceed
    } else if earlier_failures == 0 {
        StepFollowUp::Again
    } else {
        StepFollowUp::Fail
    }
}

/// The name of a step of the post-install phase.
pub open spec fn spec_step_name(step: PostInstallStep) -> Seq<char> {
    match step {
        PostInstallStep::LibtoolFinish => "libtool finish"@,
        PostInstallStep::Symlinks => "symlinks"@,
        PostInstallStep::TrimBinaries => "trim binaries"@,
        PostInstallStep::SaveStaticBinaries => "save static binaries"@,
        PostInstallStep::Ldconfig => "ldconfig"@,
    }
}

/// The name of a step of the post-install phase.
pub fn step_name(step: PostInstallStep) -> (res: &'static str)
    ensures
        res@ == spec_step_name(step),
{
    match step {
        PostInstallStep::LibtoolFinish => "libtool finish",
        PostInstallStep::Symlinks => "symlinks",
        PostInstallStep::TrimBinaries => "trim binaries",
        PostInstallStep::SaveStaticBinaries => "save static binaries",
        PostInstallStep::Ldconfig => "ldconfig",
    }
}

/// The error that tells of a step of the post-install phase that failed
/// for good: it names the step and carries what was reported of it.
pub fn post_install_error(step: PostInstallStep, complaint: &str) -> (res: BuildError)
    ensures
        res matches BuildError::PostInstall { task } && task@ == spec_step_name(step) + ": "@
            + complaint@,
{
    let mut task = step_name(step).to_owned();
    task.append(": ");
    task.append(complaint);
    let e = BuildError::PostInstall { task };
    assert(e matches BuildError::PostInstall { task: t } && t@ == spec_step_name(step) + ": "@
        + complaint@);
    e
}

/// The argument that tells `make` how many jobs to run.
pub fn make_jobs_argument(jobs: usize) -> (res: String)
    ensures
        res@ == "-j"@ + spec_decimal(jobs as nat),
{
    let mut arg = "-j".to_owned();
    push_decimal(&mut arg, jobs as u64);
    arg
}

/// Whether a build goes on to its next phase: it does not once a
/// shutdown has been asked for.
pub fn continues_after_phase(shutdown_requested: bool) -> (res: bool)
    ensures
        res == !shutdown_requested,
{
    !shutdown_requested
}

/// What a build that a shutdown cut short came to.
pub fn cancelled_outcome() -> (res: BuildOutcome)
    ensures
        res matches BuildOutcome::Failed(kind, text) && kind == ErrorKind::Cancelled && text@
            == CANCELLED_REASON@,
{
    let r = BuildOutcome::Failed(ErrorKind::Cancelled, CANCELLED_REASON.to_owned());
    assert(r matches BuildOutcome::Failed(kind, text) && kind == ErrorKind::Cancelled && text@
        == CANCELLED_REASON@);
    r
}

/// What a build that was passed over for a cached installation came to.
pub fn cache_hit_outcome() -> (res: BuildOutcome)
    ensures
        res matches BuildOutcome::Skipped(reason) && reason@ == CACHE_HIT_REASON@,
{
    let r = BuildOutcome::Skipped(CACHE_HIT_REASON.to_owned());
    assert(r matches BuildOutcome::Skipped(reason) && reason@ == CACHE_HIT_REASON@);
    r
}

/// What a build that was passed over for an installation that is there
/// and passes its checks came to.
pub fn already_installed_outcome() -> (res: BuildOutcome)
    ensures
        res matches BuildOutcome::Skipped(reason) && reason@ == ALREADY_INSTALLED_REASON@,
{
    let r = BuildOutcome::Skipped(ALREADY_INSTALLED_REASON.to_owned());
    assert(r matches BuildOutcome::Skipped(reason) && reason@ == ALREADY_INSTALLED_REASON@);
    r
}

/// Whether a phase is gone through in a dry run: the download alone is,
/// and it fetches nothing.
pub fn runs_in_dry_run(phase: BuildPhase) -> (res: bool)
    ensures
        res == (phase == BuildPhase::Download),
{
    match phase {
        BuildPhase::Download => true,
        _ => false,
    }
}

/// What a build that went through its phases came to: a failure with
/// the kind and the text of the error that ended it; else, in a dry run, a
/// build passed over as such; else a success.
pub fn build_outcome(dry_run: bool, failure: Option<&BuildError>) -> (res: BuildOutcome)
    ensures
        match failure {
            Some(e) => res matches BuildOutcome::Failed(kind, text) && kind == spec_error_kind(*e)
                && text@ == spec_error_message(*e),
            None => if dry_run {
                res matches BuildOutcome::Skipped(reason) && reason@ == DRY_RUN_REASON@
            } else {
                res is Success
            },
        },
{
    match failure {
        Some(e) => {
            let r = BuildOutcome::Failed(e.kind(), e.message());
            assert(r matches BuildOutcome::Failed(kind, text) && kind == spec_error_kind(*e)
                && text@ == spec_error_message(*e));
            r
        },
        None => {
            if dry_run {
                let r = BuildOutcome::Skipped(DRY_RUN_REASON.to_owned());
                assert(r matches BuildOutcome::Skipped(reason) && reason@ == DRY_RUN_REASON@);
                r
            } else {
                BuildOutcome::Success
            }
        },
    }
}

/// The status under which an outcome enters the report: a failure shows
/// the kind of its error before the text.
pub fn outcome_status(outcome: BuildOutcome) -> (res: BuildStatus)
    ensures
        match outcome {
            BuildOutcome::Success => res is Success,
            BuildOutcome::Skipped(reason) => res matches BuildStatus::Skipped(r) && r@ == reason@,
            BuildOutcome::Failed(kind, text) => res matches BuildStatus::Failed(m) && m@
                == spec_kind_name(kind) + ": "@ + text@,
        },
{
    match outcome {
        BuildOutcome::Success => BuildStatus::Success,
        BuildOutcome::Skipped(reason) => {
            let ghost shown = reason@;
            let r = BuildStatus::Skipped(reason);
            assert(r matches BuildStatus::Skipped(x) && x@ == shown);
            r
        },
        BuildOutcome::Failed(kind, text) => {
            let mut m = kind_name(kind).to_owned();
            m.append(": ");
            m.append(text.as_str());
            let r = BuildStatus::Failed(m);
            assert(r matches BuildStatus::Failed(x) && x@ == spec_kind_name(kind) + ": "@ + text@);
            r
        },
    }
}

/// The exit code of a run.
pub fn run_exit_code(fatal: Option<ErrorKind>, failed_builds: usize) -> (res: u8)
    ensures
        res == spec_run_exit_code(fatal, failed_builds as nat),
{
    match fatal {
        Some(k) => crate::error::exit_code(k),
        None => {
            if failed_builds > 0 {
                1
            } else {
                0
            }
        },
    }
}

/// The bounds of the groups in which `count` versions are built when at
/// most `parallelism` are built at once: group number `g` holds the
/// versions from `g * parallelism` up to, not including, the next bound.
pub fn group_bounds(count: usize, parallelism: usize) -> (res: Vec<(usize, usize)>)
    requires
        parallelism >= 1,
    ensures
        forall|g: int|
            0 <= g < res@.len() ==> (#[trigger] res@[g]).0 == g * parallelism && res@[g].1 == (
            if (g + 1) * parallelism < count {
                (g + 1) * parallelism
            } else {
                count as int
            }) && res@[g].0 < res@[g].1,
        count == 0 ==> res@.len() == 0,
        count > 0 ==> res@.len() > 0 && res@.last().1 == count,
{
    let mut out: Vec<(usize, usize)> = Vec::new();
    let mut start: usize = 0;
    assert(0 * parallelism == 0) by (nonlinear_arith);
    while start < count
        invariant
            parallelism >= 1,
            start <= count,
            start == out@.len() * parallelism || start == count,
            out@.len() > 0 ==> out@.last().1 == start,
            out@.len() == 0 ==> start == 0,
            forall|g: int|
                0 <= g < out@.len() ==> (#[trigger] out@[g]).0 == g * parallelism && out@[g].1 == (
                if (g + 1) * parallelism < count {
                    (g + 1) * parallelism
                } else {
                    count as int
                }) && out@[g].0 < out@[g].1,
        decreases count - start,
    {
        let ghost g = out@.len() as int;
        assert(start == g * parallelism) by {
            if out@.len() > 0 && start != g * parallelism {
                assert(start == count);
            }
        }
        let end: usize = if count - start > parallelism {
            start + parallelism
        } else {
            count
        };
        assert((g + 1) * parallelism == g * parallelism + parallelism) by (nonlinear_arith);
        out.push((start, end));
        start = end;
    }
    out
}

} // verus!
