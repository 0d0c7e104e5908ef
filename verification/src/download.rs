use vstd::prelude::*;
use crate::decimal::{push_decimal, spec_decimal};
use crate::error::BuildError;
use crate::integrity::{
    spec_tarball_acceptable,
    tarball_acceptable,
    Verdict,
    MIN_DOWNLOAD_BYTES,
    VerificationKind,
};
use crate::text::{
    chars_of,
    ends_with,
    push_str,
    push_string,
    slice,
    spec_ends_with,
    str_ends_with,
    string_of,
    string_views,
};

verus! {

/// Why the download of a source archive is given up.
#[derive(Debug, Clone, Copy, PartialEq, Eq, Structural)]
pub enum DownloadFailure {
    /// What came is too small to be a source archive at all.
    TooSmall,
    /// Every attempt failed or brought a broken archive.
    Exhausted,
    /// The archive was fetched anew and again is not what was published.
    ChecksumMismatch,
}

/// What is done next for the source archive of a version.
#[derive(Debug, Clone, Copy, PartialEq, Eq, Structural)]
pub enum DownloadStep {
    /// Fetch the archive; this is attempt number `attempt`. What lies at
    /// the destination is deleted first where `delete_first` says so.
    Fetch { attempt: u32, delete_first: bool },
    /// Check the archive that attempt number `attempt` brought.
    Verify { attempt: u32 },
    /// The archive is at hand.
    Done,
    /// The download is given up; what lies at the destination is deleted.
    Failed(DownloadFailure),
}

/// What was seen of a file that lies where the archive is to go.
#[derive(Debug, Clone, Copy, PartialEq, Eq, Structural)]
pub struct ExistingFile {
    pub size: u64,
    /// `tar` can list it.
    pub listable: bool,
}

/// What is done first, given what lies at the destination: nothing where a
/// whole archive lies there, nor in a dry run; else the archive is fetched,
/// after what lies there has been deleted.
pub open spec fn spec_on_inspected(existing: Option<ExistingFile>, dry_run: bool) -> DownloadStep {
    match existing {
        Some(f) => if spec_tarball_acceptable(f.size, f.listable) || dry_run {
            DownloadStep::Done
        } else {
            DownloadStep::Fetch { attempt: 1, delete_first: true }
        },
        None => if dry_run {
            DownloadStep::Done
        } else {
            DownloadStep::Fetch { attempt: 1, delete_first: false }
        },
    }
}

/// What is done after attempt number `attempt`. A file that came but is
/// too small to be an archive ends the download. A whole archive is
/// checked. Otherwise the archive is fetched again, unless the attempts
/// are used up.
pub open spec fn spec_on_fetched(
    attempt: u32,
    fetched: bool,
    size: u64,
    listable: bool,
    max_attempts: u32,
) -> DownloadStep {
    if fetched && size < MIN_DOWNLOAD_BYTES {
        DownloadStep::Failed(DownloadFailure::TooSmall)
    } else if fetched && spec_tarball_acceptable(size, listable) {
        DownloadStep::Verify { attempt }
    } else if attempt < max_attempts {
        DownloadStep::Fetch { attempt: (attempt + 1) as u32, delete_first: true }
    } else {
        DownloadStep::Failed(DownloadFailure::Exhausted)
    }
}

/// What is done after the archive of attempt number `attempt` has been
/// checked, `mismatches` archives having been found wrong before. An
/// archive that is not found wrong is used. The first wrong archive is
/// deleted and fetched anew, if an attempt is left; a second one ends the
/// download.
pub open spec fn spec_on_verified(
    attempt: u32,
    mismatches: u32,
    verdict: Verdict,
    max_attempts: u32,
) -> DownloadStep {
    if verdict != Verdict::Mismatch {
        DownloadStep::Done
    } else if mismatches == 0 && attempt < max_attempts {
        DownloadStep::Fetch { attempt: (attempt + 1) as u32, delete_first: true }
    } else {
        DownloadStep::Failed(DownloadFailure::ChecksumMismatch)
    }
}

/// What is done first, given what lies at the destination.
pub fn on_inspected(existing: Option<ExistingFile>, dry_run: bool) -> (res: DownloadStep)
    ensures
        res == spec_on_inspected(existing, dry_run),
        !dry_run && res == DownloadStep::Done ==> existing is Some && spec_tarball_acceptable(
            existing->0.size,
            existing->0.listable,
        ),
{
    match existing {
        Some(f) => {
            if tarball_acceptable(f.size, f.listable) || dry_run {
                DownloadStep::Done
            } else {
                DownloadStep::Fetch { attempt: 1, delete_first: true }
            }
        },
        None => {
            if dry_run {
                DownloadStep::Done
            } else {
                DownloadStep::Fetch { attempt: 1, delete_first: false }
            }
        },
    }
}

/// What is done after attempt number `attempt`.
pub fn on_fetched(attempt: u32, fetched: bool, size: u64, listable: bool, max_attempts: u32) -> (res:
    DownloadStep)
    ensures
        res == spec_on_fetched(attempt, fetched, size, listable, max_attempts),
        res is Verify ==> size > crate::integrity::MIN_SOURCE_BYTES && listable,
{
    if fetched && size < MIN_DOWNLOAD_BYTES {
        DownloadStep::Failed(DownloadFailure::TooSmall)
    } else if fetched && tarball_acceptable(size, listable) {
        DownloadStep::Verify { attempt }
    } else if attempt < max_attempts {
        DownloadStep::Fetch { attempt: attempt + 1, delete_first: true }
    } else {
        DownloadStep::Failed(DownloadFailure::Exhausted)
    }
}

/// What is done after the archive of attempt number `attempt` has been checked.
pub fn on_verified(attempt: u32, mismatches: u32, verdict: Verdict, max_attempts: u32) -> (res:
    DownloadStep)
    ensures
        res == spec_on_verified(attempt, mismatches, verdict, max_attempts),
        res == DownloadStep::Done <==> verdict != Verdict::Mismatch,
{
    match verdict {
        Verdict::Mismatch => {
            if mismatches == 0 && attempt < max_attempts {
                DownloadStep::Fetch { attempt: attempt + 1, delete_first: true }
            } else {
                DownloadStep::Failed(DownloadFailure::ChecksumMismatch)
            }
        },
        _ => DownloadStep::Done,
    }
}

/// An archive goes on to be extracted only if it is larger than fifty
/// megabytes and `tar` can list it: it is checked only then, and outside
/// a dry run an archive that lay there already is used only then.
pub proof fn lemma_accepted_archives_are_whole(
    existing: Option<ExistingFile>,
    attempt: u32,
    fetched: bool,
    size: u64,
    listable: bool,
    max_attempts: u32,
)
    ensures
        spec_on_inspected(existing, false) == DownloadStep::Done ==> existing is Some
            && existing->0.size > crate::integrity::MIN_SOURCE_BYTES && existing->0.listable,
        spec_on_fetched(attempt, fetched, size, listable, max_attempts) is Verify ==> size
            > crate::integrity::MIN_SOURCE_BYTES && listable,
{
}

/// The error that tells of a download that was given up. An archive that
/// is not what was published is told of as a signature that does not hold
/// where archives of the version are checked by their signature.
pub fn failure_error(failure: DownloadFailure, url: &str, file: &str, kind: VerificationKind) -> (res:
    BuildError)
    ensures
        match failure {
            DownloadFailure::TooSmall => res matches BuildError::Download { url: u, message: m }
                && u@ == url@ && m@ == "Downloaded file too small"@,
            DownloadFailure::Exhausted => res matches BuildError::Download { url: u, message: m }
                && u@ == url@ && m@ == "Download failed: all attempts exhausted"@,
            DownloadFailure::ChecksumMismatch => if kind == VerificationKind::Gpg {
                res matches BuildError::GpgVerificationFailed { file: f } && f@ == file@
            } else {
                res matches BuildError::ChecksumMismatch { file: f, expected: e, actual: a } && f@
                    == file@ && e@ == "published checksum"@ && a@ == "checksum of the download"@
            },
        },
{
    match failure {
        DownloadFailure::TooSmall => {
            let r = BuildError::Download {
                url: url.to_owned(),
                message: "Downloaded file too small".to_owned(),
            };
            assert(r matches BuildError::Download { url: u, message: m } && u@ == url@ && m@
                == "Downloaded file too small"@);
            r
        },
        DownloadFailure::Exhausted => {
            let r = BuildError::Download {
                url: url.to_owned(),
                message: "Download failed: all attempts exhausted".to_owned(),
            };
            assert(r matches BuildError::Download { url: u, message: m } && u@ == url@ && m@
                == "Download failed: all attempts exhausted"@);
            r
        },
        DownloadFailure::ChecksumMismatch => {
            match kind {
                VerificationKind::Gpg => {
                    let r = BuildError::GpgVerificationFailed { file: file.to_owned() };
                    assert(r matches BuildError::GpgVerificationFailed { file: f } && f@ == file@);
                    r
                },
                _ => {
                    let r = BuildError::ChecksumMismatch {
                        file: file.to_owned(),
                        expected: "published checksum".to_owned(),
                        actual: "checksum of the download".to_owned(),
                    };
                    assert(r matches BuildError::ChecksumMismatch { file: f, expected: e, actual: a }
                        && f@ == file@ && e@ == "published checksum"@ && a@
                        == "checksum of the download"@);
                    r
                },
            }
        },
    }
}

/// What unpacking an archive came to: the error that tells of it where
/// `tar` failed, with what `tar` wrote as its complaint.
pub fn extraction_result(file: &str, succeeded: bool, complaint: &str) -> (res: Result<
    (),
    BuildError,
>)
    ensures
        res is Ok <==> succeeded,
        res matches Err(e) ==> e matches BuildError::Extraction { file: f, message: m } && f@
            == file@ && m@ == complaint@,
{
    if succeeded {
        Ok(())
    } else {
        let e = BuildError::Extraction { file: file.to_owned(), message: complaint.to_owned() };
        assert(e matches BuildError::Extraction { file: f, message: m } && f@ == file@ && m@
            == complaint@);
        Err(e)
    }
}

/// The kinds of archive that can be unpacked.
#[derive(Debug, Clone, Copy, PartialEq, Eq, Structural)]
pub enum ArchiveFormat {
    TarXz,
    TarGz,
    Tar,
    Unsupported,
}

/// What is done to unpack a source archive.
#[derive(Debug, Clone, Copy, PartialEq, Eq, Structural)]
pub enum ExtractAction {
    /// Remove the source tree that an earlier run left.
    RemoveTree,
    /// Unpack the archive into the workspace.
    Untar,
}

/// The kind of an archive, by the end of its name.
pub open spec fn spec_archive_format(path: Seq<char>) -> ArchiveFormat {
    if spec_ends_with(path, ".tar.xz"@) {
        ArchiveFormat::TarXz
    } else if spec_ends_with(path, ".tar.gz"@) {
        ArchiveFormat::TarGz
    } else if spec_ends_with(path, ".tar"@) {
        ArchiveFormat::Tar
    } else {
        ArchiveFormat::Unsupported
    }
}

/// `name` without the endings `suffix` that it has, however many.
pub open spec fn spec_trim_end(name: Seq<char>, suffix: Seq<char>) -> Seq<char>
    decreases name.len(),
{
    if suffix.len() > 0 && spec_ends_with(name, suffix) {
        spec_trim_end(name.take(name.len() - suffix.len()), suffix)
    } else {
        name
    }
}

/// The arguments with which `tar` unpacks an archive of the xz kind.
pub open spec fn spec_tar_arguments(
    archive: Seq<char>,
    destination: Seq<char>,
    strip_components: usize,
) -> Seq<Seq<char>> {
    let head = seq!["-Jxf"@, archive, "-C"@, destination];
    if strip_components > 0 {
        head + seq!["--strip-components"@, spec_decimal(strip_components as nat)]
    } else {
        head
    }
}

/// The steps of unpacking: a tree that an earlier run left is removed
/// first; then the archive is unpacked.
pub open spec fn spec_extract_plan(tree_exists: bool) -> Seq<ExtractAction> {
    if tree_exists {
        seq![ExtractAction::RemoveTree, ExtractAction::Untar]
    } else {
        seq![ExtractAction::Untar]
    }
}

/// What stands in the place of the source tree after a step, as the
/// bytes of each file by its path: removing the tree leaves nothing there;
/// unpacking puts the files of the archive there, over those that stand
/// there already.
pub open spec fn spec_tree_after_action(
    action: ExtractAction,
    tree: Option<Map<Seq<char>, Seq<u8>>>,
    archive: Map<Seq<char>, Seq<u8>>,
) -> Option<Map<Seq<char>, Seq<u8>>> {
    match action {
        ExtractAction::RemoveTree => None,
        ExtractAction::Untar => match tree {
            None => Some(archive),
            Some(old_files) => Some(old_files.union_prefer_right(archive)),
        },
    }
}

/// What stands in the place of the source tree after the steps of a plan.
pub open spec fn spec_tree_after_plan(
    plan: Seq<ExtractAction>,
    tree: Option<Map<Seq<char>, Seq<u8>>>,
    archive: Map<Seq<char>, Seq<u8>>,
) -> Option<Map<Seq<char>, Seq<u8>>>
    decreases plan.len(),
{
    if plan.len() == 0 {
        tree
    } else {
        spec_tree_after_action(
            plan.last(),
            spec_tree_after_plan(plan.drop_last(), tree, archive),
            archive,
        )
    }
}

/// Unpacking is idempotent: whatever stood in the place of the source
/// tree, after the steps of unpacking exactly the files of the archive stand
/// there, so that a second run leaves what the first left.
pub proof fn lemma_extract_idempotent(
    tree: Option<Map<Seq<char>, Seq<u8>>>,
    archive: Map<Seq<char>, Seq<u8>>,
)
    ensures
        spec_tree_after_plan(spec_extract_plan(tree is Some), tree, archive) == Some(archive),
        ({
            let once = spec_tree_after_plan(spec_extract_plan(tree is Some), tree, archive);
            spec_tree_after_plan(spec_extract_plan(once is Some), once, archive) == once
        }),
{
    lemma_plan_leaves_archive(tree, archive);
    lemma_plan_leaves_archive(Some(archive), archive);
}

/// After the steps of unpacking exactly the files of the archive stand in
/// the place of the source tree.
pub proof fn lemma_plan_leaves_archive(
    tree: Option<Map<Seq<char>, Seq<u8>>>,
    archive: Map<Seq<char>, Seq<u8>>,
)
    ensures
        spec_tree_after_plan(spec_extract_plan(tree is Some), tree, archive) == Some(archive),
{
    let plan = spec_extract_plan(tree is Some);
    if tree is Some {
        let first = plan.drop_last();
        assert(first =~= seq![ExtractAction::RemoveTree]);
        assert(first.drop_last() =~= Seq::<ExtractAction>::empty());
        assert(spec_tree_after_plan(first.drop_last(), tree, archive) == tree);
        assert(spec_tree_after_plan(first, tree, archive) == None::<Map<Seq<char>, Seq<u8>>>);
    } else {
        assert(plan.drop_last() =~= Seq::<ExtractAction>::empty());
        assert(spec_tree_after_plan(plan.drop_last(), tree, archive) == tree);
    }
}

/// The kind of an archive, by the end of its name.
pub fn archive_format(path: &str) -> (res: ArchiveFormat)
    ensures
        res == spec_archive_format(path@),
{
    if str_ends_with(path, ".tar.xz") {
        ArchiveFormat::TarXz
    } else if str_ends_with(path, ".tar.gz") {
        ArchiveFormat::TarGz
    } else if str_ends_with(path, ".tar") {
        ArchiveFormat::Tar
    } else {
        ArchiveFormat::Unsupported
    }
}

/// `name` without the endings `suffix` that it has.
pub fn trim_end(name: &str, suffix: &str) -> (res: String)
    ensures
        res@ == spec_trim_end(name@, suffix@),
{
    let n = chars_of(name);
    let s = chars_of(suffix);
    if s.len() == 0 {
        return string_of(&n);
    }
    let mut end: usize = n.len();
    assert(n@.take(end as int) == n@);
    loop
        invariant
            end <= n.len(),
            s.len() > 0,
            n@ == name@,
            s@ == suffix@,
            spec_trim_end(name@, suffix@) == spec_trim_end(n@.take(end as int), suffix@),
        decreases end,
    {
        let head = slice(&n, 0, end);
        assert(head@ == n@.take(end as int));
        if !ends_with(&head, &s) {
            return string_of(&head);
        }
        assert(head@.take(head@.len() - s@.len()) == n@.take(end - s.len()));
        end = end - s.len();
    }
}

/// The name of the directory that unpacking a source archive of this
/// name brings.
pub fn source_dir_name(tarball_name: &str) -> (res: String)
    ensures
        res@ == spec_trim_end(tarball_name@, ".tar.xz"@),
{
    trim_end(tarball_name, ".tar.xz")
}

/// The arguments with which `tar` unpacks an archive of the xz kind.
pub fn tar_arguments(archive: &str, destination: &str, strip_components: usize) -> (res: Vec<String>)
    ensures
        string_views(res@) == spec_tar_arguments(archive@, destination@, strip_components),
{
    let mut args: Vec<String> = Vec::new();
    assert(string_views(args@) =~= Seq::<Seq<char>>::empty());
    push_str(&mut args, "-Jxf");
    push_str(&mut args, archive);
    push_str(&mut args, "-C");
    push_str(&mut args, destination);
    if strip_components > 0 {
        push_str(&mut args, "--strip-components");
        let mut n = String::new();
        push_decimal(&mut n, strip_components as u64);
        assert(n@ =~= spec_decimal(strip_components as nat));
        push_string(&mut args, n);
    }
    assert(string_views(args@) =~= spec_tar_arguments(archive@, destination@, strip_components));
    args
}

/// The steps of unpacking.
pub fn extract_plan(tree_exists: bool) -> (res: Vec<ExtractAction>)
    ensures
        res@ == spec_extract_plan(tree_exists),
        res@.last() == ExtractAction::Untar,
{
    let mut plan: Vec<ExtractAction> = Vec::new();
    if tree_exists {
        plan.push(ExtractAction::RemoveTree);
    }
    plan.push(ExtractAction::Untar);
    plan
}

/// The components of the path of an archive member once the first
/// `strip_components` are dropped; nothing for a member that has no more
/// components than that, which is passed over.
pub fn stripped_components(components: &Vec<String>, strip_components: usize) -> (res: Option<
    Vec<String>,
>)
    ensures
        res is Some <==> components@.len() > strip_components,
        res matches Some(v) ==> string_views(v@) == string_views(components@).skip(
            strip_components as int,
        ),
{
    if components.len() <= strip_components {
        return None;
    }
    let mut out: Vec<String> = Vec::new();
    let mut i: usize = strip_components;
    while i < components.len()
        invariant
            strip_components <= i <= components.len(),
            out@.len() == i - strip_components,
            forall|j: int| 0 <= j < out@.len() ==> out@[j]@ == components@[j + strip_components]@,
        decreases components.len() - i,
    {
        out.push(components[i].clone());
        i += 1;
    }
    assert(string_views(out@) =~= string_views(components@).skip(strip_components as int));
    Some(out)
}

/// How far the download of a source archive has come.
#[derive(Debug, Clone, Copy, PartialEq, Eq, Structural)]
pub enum DownloadState {
    /// Nothing has been done yet.
    Start,
    /// Attempt number `attempt` is under way; `mismatches` archives were
    /// found wrong before.
    Fetching { attempt: u32, mismatches: u32 },
    /// The archive of attempt number `attempt` is being checked.
    Verifying { attempt: u32, mismatches: u32 },
    /// The download has ended, well or badly.
    Finished,
}

/// What has happened to a download.
#[derive(Debug, Clone, Copy, PartialEq, Eq, Structural)]
pub enum DownloadEvent {
    /// The destination was looked at.
    Inspected(Option<ExistingFile>),
    /// An attempt has ended.
    Fetched { ok: bool, size: u64, listable: bool },
    /// The archive has been checked.
    Checked(Verdict),
}

/// The state in which a download is after a step.
pub open spec fn spec_state_after(step: DownloadStep, mismatches: u32) -> DownloadState {
    match step {
        DownloadStep::Fetch { attempt, delete_first } => DownloadState::Fetching {
            attempt,
            mismatches,
        },
        DownloadStep::Verify { attempt } => DownloadState::Verifying { attempt, mismatches },
        DownloadStep::Done => DownloadState::Finished,
        DownloadStep::Failed(_) => DownloadState::Finished,
    }
}

/// What a download does when something has happened to it, and the state
/// in which it is then. Nothing is done, and nothing changes, for what
/// cannot happen in the state.
pub open spec fn spec_download_transition(
    state: DownloadState,
    event: DownloadEvent,
    max_attempts: u32,
    dry_run: bool,
) -> (DownloadState, Option<DownloadStep>) {
    match (state, event) {
        (DownloadState::Start, DownloadEvent::Inspected(existing)) => {
            let step = spec_on_inspected(existing, dry_run);
            (spec_state_after(step, 0), Some(step))
        },
        (
            DownloadState::Fetching { attempt, mismatches },
            DownloadEvent::Fetched { ok, size, listable },
        ) => {
            let step = spec_on_fetched(attempt, ok, size, listable, max_attempts);
            (spec_state_after(step, mismatches), Some(step))
        },
        (DownloadState::Verifying { attempt, mismatches }, DownloadEvent::Checked(verdict)) => {
            let step = spec_on_verified(attempt, mismatches, verdict, max_attempts);
            (
                spec_state_after(
                    step,
                    if verdict == Verdict::Mismatch && mismatches < u32::MAX {
                        (mismatches + 1) as u32
                    } else {
                        mismatches
                    },
                ),
                Some(step),
            )
        },
        _ => (state, None),
    }
}

/// What the download of the source archive of a version does when
/// something has happened to it, and the state in which it is then.
pub fn download_gcc_source(state: DownloadState, event: DownloadEvent, max_attempts: u32, dry_run: bool) -> (res:
    (DownloadState, Option<DownloadStep>))
    ensures
        res == spec_download_transition(state, event, max_attempts, dry_run),
{
    match (state, event) {
        (DownloadState::Start, DownloadEvent::Inspected(existing)) => {
            let step = on_inspected(existing, dry_run);
            (state_after(step, 0), Some(step))
        },
        (
            DownloadState::Fetching { attempt, mismatches },
            DownloadEvent::Fetched { ok, size, listable },
        ) => {
            let step = on_fetched(attempt, ok, size, listable, max_attempts);
            (state_after(step, mismatches), Some(step))
        },
        (DownloadState::Verifying { attempt, mismatches }, DownloadEvent::Checked(verdict)) => {
            let step = on_verified(attempt, mismatches, verdict, max_attempts);
            let wrong: u32 = if verdict == Verdict::Mismatch && mismatches < u32::MAX {
                mismatches + 1
            } else {
                mismatches
            };
            (state_after(step, wrong), Some(step))
        },
        _ => (state, None),
    }
}

/// The state in which a download is after a step.
pub fn state_after(step: DownloadStep, mismatches: u32) -> (res: DownloadState)
    ensures
        res == spec_state_after(step, mismatches),
{
    match step {
        DownloadStep::Fetch { attempt, delete_first } => DownloadState::Fetching {
            attempt,
            mismatches,
        },
        DownloadStep::Verify { attempt } => DownloadState::Verifying { attempt, mismatches },
        DownloadStep::Done => DownloadState::Finished,
        DownloadStep::Failed(_) => DownloadState::Finished,
    }
}

/// What unpacking the source archive `tarball_name` into `dest_dir`
/// takes: the directory that it brings, the steps, and the arguments for
/// `tar`. In a dry run there are no steps.
pub fn extract_tarball(tarball_path: &str, tarball_name: &str, dest_dir: &str, tree_exists: bool, dry_run: bool) -> (res:
    (String, Vec<ExtractAction>, Vec<String>))
    ensures
        res.0@ == crate::version::spec_path_join(dest_dir@, spec_trim_end(tarball_name@, ".tar.xz"@)),
        res.1@ == (if dry_run {
            Seq::<ExtractAction>::empty()
        } else {
            spec_extract_plan(tree_exists)
        }),
        string_views(res.2@) == spec_tar_arguments(tarball_path@, dest_dir@, 0),
{
    let name = source_dir_name(tarball_name);
    let dir = crate::version::path_join(dest_dir, name.as_str());
    let plan: Vec<ExtractAction> = if dry_run {
        Vec::new()
    } else {
        extract_plan(tree_exists)
    };
    (dir, plan, tar_arguments(tarball_path, dest_dir, 0))
}

} // verus!
