use vstd::prelude::*;
use vstd::string::StringExecFns;
use crate::decimal::{push_decimal, spec_decimal};
use crate::error::BuildStatus;

verus! {

/// What became of the builds of one run.
#[derive(Debug)]
pub struct BuildSummary {
    /// The versions that were built.
    pub successful: Vec<String>,
    /// The versions that failed, each with its error.
    pub failed: Vec<(String, String)>,
    /// The versions that were passed over, each with the reason.
    pub skipped: Vec<(String, String)>,
    pub total_duration_secs: u64,
}

/// A number with at least two digits: a zero stands before a single digit.
pub open spec fn spec_two_digits(n: nat) -> Seq<char> {
    if n < 10 {
        seq!['0'] + spec_decimal(n)
    } else {
        spec_decimal(n)
    }
}

/// A duration as hours, minutes and seconds, each with two digits at least.
pub open spec fn spec_format_duration(secs: u64) -> Seq<char> {
    spec_two_digits((secs / 3600) as nat) + ":"@ + spec_two_digits(((secs % 3600) / 60) as nat)
        + ":"@ + spec_two_digits((secs % 60) as nat)
}

/// The line that notes a stage of a build in the log.
pub open spec fn spec_status_line(package: Seq<char>, version: Seq<char>, stage: Seq<char>) -> Seq<char> {
    "STATUS: Package: "@ + package + ", Version: "@ + version + ", Stage: "@ + stage
}

/// The share of the builds that succeeded, in tenths of a hundredth;
/// zero where there was no build.
pub open spec fn spec_success_rate(successful: nat, total: nat) -> nat {
    if total == 0 {
        0
    } else {
        successful * 1000 / total
    }
}

/// Appends `n` with two digits at least.
pub fn push_two_digits(out: &mut String, n: u64)
    ensures
        final(out)@ == old(out)@ + spec_two_digits(n as nat),
{
    if n < 10 {
        out.append("0");
        proof {
            reveal_strlit("0");
        }
        assert(out@ =~= old(out)@ + seq!['0']);
    }
    push_decimal(out, n);
    assert(out@ =~= old(out)@ + spec_two_digits(n as nat));
}

/// A duration as hours, minutes and seconds.
pub fn format_duration(secs: u64) -> (res: String)
    ensures
        res@ == spec_format_duration(secs),
{
    let mut out = String::new();
    push_two_digits(&mut out, secs / 3600);
    out.append(":");
    push_two_digits(&mut out, (secs % 3600) / 60);
    out.append(":");
    push_two_digits(&mut out, secs % 60);
    assert(out@ =~= spec_format_duration(secs));
    out
}

/// The line that notes a stage of a build in the log.
pub fn print_status(package: &str, version: &str, stage: &str) -> (res: String)
    ensures
        res@ == spec_status_line(package@, version@, stage@),
{
    let mut line = "STATUS: Package: ".to_owned();
    line.append(package);
    line.append(", Version: ");
    line.append(version);
    line.append(", Stage: ");
    line.append(stage);
    line
}

impl BuildSummary {
    /// A summary of no builds.
    pub fn new() -> (res: Self)
        ensures
            res.successful@.len() == 0,
            res.failed@.len() == 0,
            res.skipped@.len() == 0,
            res.total_duration_secs == 0,
    {
        BuildSummary {
            successful: Vec::new(),
            failed: Vec::new(),
            skipped: Vec::new(),
            total_duration_secs: 0,
        }
    }

    /// Notes that `version` was built.
    pub fn add_success(&mut self, version: String)
        ensures
            final(self).successful@ == old(self).successful@.push(version),
            final(self).failed == old(self).failed,
            final(self).skipped == old(self).skipped,
            final(self).total_duration_secs == old(self).total_duration_secs,
    {
        self.successful.push(version);
    }

    /// Notes that `version` failed with `error`.
    pub fn add_failure(&mut self, version: String, error: String)
        ensures
            final(self).failed@ == old(self).failed@.push((version, error)),
            final(self).successful == old(self).successful,
            final(self).skipped == old(self).skipped,
            final(self).total_duration_secs == old(self).total_duration_secs,
    {
        self.failed.push((version, error));
    }

    /// Notes that `version` was passed over for `reason`.
    pub fn add_skipped(&mut self, version: String, reason: String)
        ensures
            final(self).skipped@ == old(self).skipped@.push((version, reason)),
            final(self).successful == old(self).successful,
            final(self).failed == old(self).failed,
            final(self).total_duration_secs == old(self).total_duration_secs,
    {
        self.skipped.push((version, reason));
    }

    /// The number of builds noted.
    pub open spec fn spec_total_builds(&self) -> nat {
        self.successful@.len() + self.failed@.len() + self.skipped@.len()
    }

    /// The number of builds noted; the largest number where there are
    /// more than can be counted.
    pub fn total_builds(&self) -> (res: usize)
        ensures
            res == (if self.spec_total_builds() > usize::MAX {
                usize::MAX as int
            } else {
                self.spec_total_builds() as int
            }),
    {
        let total: u128 = (self.successful.len() as u128) + (self.failed.len() as u128) + (
        self.skipped.len() as u128);
        if total > usize::MAX as u128 {
            usize::MAX
        } else {
            total as usize
        }
    }

    /// The share of the builds that succeeded, in tenths of a hundredth.
    pub fn success_rate(&self) -> (res: u64)
        ensures
            res == spec_success_rate(self.successful@.len(), self.spec_total_builds()),
            res <= 1000,
    {
        let ok: u128 = self.successful.len() as u128;
        let total: u128 = ok + (self.failed.len() as u128) + (self.skipped.len() as u128);
        if total == 0 {
            0
        } else {
            assert(ok * 1000 / (total as int) <= 1000) by (nonlinear_arith)
                requires
                    ok <= total,
                    total > 0,
            ;
            (ok * 1000 / total) as u64
        }
    }

    /// Notes what became of one build: a success, a dry run as passed
    /// over, a failure with its message, a build passed over with its
    /// reason. A build that has not ended is not noted.
    pub fn record(&mut self, version: String, status: BuildStatus)
        ensures
            final(self).total_duration_secs == old(self).total_duration_secs,
            match status {
                BuildStatus::Success => final(self).successful@ == old(self).successful@.push(
                    version,
                ) && final(self).failed == old(self).failed && final(self).skipped == old(self).skipped,
                BuildStatus::DryRun => final(self).skipped@.len() == old(self).skipped@.len() + 1
                    && final(self).skipped@.last().0 == version && final(self).skipped@.last().1@
                    == "Dry run"@ && final(self).successful == old(self).successful && final(self).failed == old(self).failed,
                BuildStatus::Failed(msg) => final(self).failed@ == old(self).failed@.push(
                    (version, msg),
                ) && final(self).successful == old(self).successful && final(self).skipped == old(self).skipped,
                BuildStatus::Skipped(reason) => final(self).skipped@ == old(self).skipped@.push(
                    (version, reason),
                ) && final(self).successful == old(self).successful && final(self).failed == old(self).failed,
                _ => *final(self) == *old(self),
            },
    {
        match status {
            BuildStatus::Success => {
                self.add_success(version);
            },
            BuildStatus::DryRun => {
                self.add_skipped(version, "Dry run".to_owned());
            },
            BuildStatus::Failed(msg) => {
                self.add_failure(version, msg);
            },
            BuildStatus::Skipped(reason) => {
                self.add_skipped(version, reason);
            },
            _ => {},
        }
    }

    /// The exit code of the run: zero where no build failed, else one.
    pub fn exit_code(&self) -> (res: u8)
        ensures
            res == (if self.failed@.len() == 0 {
                0u8
            } else {
                1u8
            }),
    {
        if self.failed.len() == 0 {
            0
        } else {
            1
        }
    }

    /// The lines of the report: one for each build, the successes first,
    /// then the failures, then the builds passed over.
    pub fn print_summary(&self) -> (res: Vec<String>)
        requires
            self.spec_total_builds() <= usize::MAX,
        ensures
            res@.len() == self.spec_total_builds(),
            forall|i: int|
                0 <= i < self.successful@.len() ==> (#[trigger] res@[i])@ == "GCC "@
                    + self.successful@[i]@ + " - SUCCESS"@,
            forall|i: int|
                0 <= i < self.failed@.len() ==> (#[trigger] res@[self.successful@.len() + i])@
                    == "GCC "@ + self.failed@[i].0@ + " - FAILED: "@ + self.failed@[i].1@,
            forall|i: int|
                0 <= i < self.skipped@.len() ==> (#[trigger] res@[self.successful@.len()
                    + self.failed@.len() + i])@ == "GCC "@ + self.skipped@[i].0@ + " - SKIPPED: "@
                    + self.skipped@[i].1@,
    {
        let mut out: Vec<String> = Vec::new();
        let mut i: usize = 0;
        while i < self.successful.len()
            invariant
                i <= self.successful@.len(),
                out@.len() == i,
                forall|j: int|
                    0 <= j < i ==> (#[trigger] out@[j])@ == "GCC "@ + self.successful@[j]@
                        + " - SUCCESS"@,
            decreases self.successful@.len() - i,
        {
            let mut line = "GCC ".to_owned();
            line.append(self.successful[i].as_str());
            line.append(" - SUCCESS");
            out.push(line);
            i += 1;
        }
        let ghost a = self.successful@.len();
        let mut k: usize = 0;
        while k < self.failed.len()
            invariant
                k <= self.failed@.len(),
                a == self.successful@.len(),
                out@.len() == a + k,
                forall|j: int|
                    0 <= j < a ==> (#[trigger] out@[j])@ == "GCC "@ + self.successful@[j]@
                        + " - SUCCESS"@,
                forall|j: int|
                    0 <= j < k ==> (#[trigger] out@[a + j])@ == "GCC "@ + self.failed@[j].0@
                        + " - FAILED: "@ + self.failed@[j].1@,
            decreases self.failed@.len() - k,
        {
            let mut line = "GCC ".to_owned();
            line.append(self.failed[k].0.as_str());
            line.append(" - FAILED: ");
            line.append(self.failed[k].1.as_str());
            out.push(line);
            k += 1;
        }
        let ghost b = self.failed@.len();
        let mut m: usize = 0;
        while m < self.skipped.len()
            invariant
                m <= self.skipped@.len(),
                a == self.successful@.len(),
                b == self.failed@.len(),
                out@.len() == a + b + m,
                forall|j: int|
                    0 <= j < a ==> (#[trigger] out@[j])@ == "GCC "@ + self.successful@[j]@
                        + " - SUCCESS"@,
                forall|j: int|
                    0 <= j < b ==> (#[trigger] out@[a + j])@ == "GCC "@ + self.failed@[j].0@
                        + " - FAILED: "@ + self.failed@[j].1@,
                forall|j: int|
                    0 <= j < m ==> (#[trigger] out@[a + b + j])@ == "GCC "@ + self.skipped@[j].0@
                        + " - SKIPPED: "@ + self.skipped@[j].1@,
            decreases self.skipped@.len() - m,
        {
            let mut line = "GCC ".to_owned();
            line.append(self.skipped[m].0.as_str());
            line.append(" - SKIPPED: ");
            line.append(self.skipped[m].1.as_str());
            out.push(line);
            m += 1;
        }
        out
    }
}

/// The line that tells how to put an installed version on the path.
pub fn path_export_line(install_prefix: &str) -> (res: String)
    ensures
        res@ == "export PATH=\""@ + install_prefix@ + "/bin:$PATH\""@,
{
    let mut line = "export PATH=\"".to_owned();
    line.append(install_prefix);
    line.append("/bin:$PATH\"");
    line
}

} // verus!
