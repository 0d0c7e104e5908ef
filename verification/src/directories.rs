use vstd::prelude::*;
use vstd::string::StringExecFns;
use crate::error::BuildError;

verus! {

/// The units in which free space is told.
#[derive(Debug, Clone, Copy, PartialEq, Eq, Structural)]
pub enum SpaceUnit {
    Bytes,
    KB,
    MB,
    GB,
}

/// What was seen of a directory.
#[derive(Debug, Clone, Copy, PartialEq, Eq, Structural)]
pub struct DirObservation {
    pub exists: bool,
    pub is_dir: bool,
    /// A file can be written in it.
    pub writable: bool,
}

/// What is done about a directory.
#[derive(Debug, Clone, Copy, PartialEq, Eq, Structural)]
pub enum DirAction {
    /// It is left as it is.
    Nothing,
    /// It is created, with the directories above it.
    Create,
    /// It is created by the superuser.
    CreateWithSudo,
}

/// Works on directories, or only says what it would do.
#[derive(Debug, Clone, Copy, PartialEq, Eq, Structural)]
pub struct DirectoryOperations {
    pub dry_run: bool,
}

/// How many bytes a unit has.
pub open spec fn spec_unit_bytes(unit: SpaceUnit) -> int {
    match unit {
        SpaceUnit::Bytes => 1,
        SpaceUnit::KB => 1024,
        SpaceUnit::MB => 1048576,
        SpaceUnit::GB => 1073741824,
    }
}

/// The free space of a file system with `blocks` free blocks of
/// `block_size` bytes, in whole units; the largest number where it is more
/// than can be told.
pub open spec fn spec_available_space(blocks: u64, block_size: u64, unit: SpaceUnit) -> u64 {
    let n = (blocks as int * block_size as int) / spec_unit_bytes(unit);
    if n > u64::MAX {
        u64::MAX
    } else {
        n as u64
    }
}

/// What is done to have a directory: nothing in a dry run, nothing where
/// it exists already; else it is created, by the superuser where asked.
pub open spec fn spec_create_action(dry_run: bool, exists: bool, use_sudo: bool) -> DirAction {
    if dry_run || exists {
        DirAction::Nothing
    } else if use_sudo {
        DirAction::CreateWithSudo
    } else {
        DirAction::Create
    }
}

/// The complaint about a directory that must exist, if there is one.
pub open spec fn spec_ensure_complaint(
    description: Seq<char>,
    create_if_missing: bool,
    seen: DirObservation,
) -> Option<Seq<char>> {
    if seen.exists && !seen.is_dir {
        Some(description + " exists but is not a directory"@)
    } else if !seen.exists && !create_if_missing {
        Some(description + " does not exist"@)
    } else {
        None
    }
}

/// How many bytes a unit has.
pub fn unit_bytes(unit: SpaceUnit) -> (res: u64)
    ensures
        res == spec_unit_bytes(unit),
{
    match unit {
        SpaceUnit::Bytes => 1,
        SpaceUnit::KB => 1024,
        SpaceUnit::MB => 1048576,
        SpaceUnit::GB => 1073741824,
    }
}

impl DirectoryOperations {
    /// Operations that are carried out, or in a dry run only told.
    pub fn new(dry_run: bool) -> (res: Self)
        ensures
            res.dry_run == dry_run,
    {
        DirectoryOperations { dry_run }
    }

    /// What is done to have a directory.
    pub fn create_directory(&self, exists: bool, use_sudo: bool) -> (res: DirAction)
        ensures
            res == spec_create_action(self.dry_run, exists, use_sudo),
    {
        if self.dry_run || exists {
            DirAction::Nothing
        } else if use_sudo {
            DirAction::CreateWithSudo
        } else {
            DirAction::Create
        }
    }

    /// What is done to have each of several directories.
    pub fn create_directories(&self, exists: &Vec<bool>) -> (res: Vec<DirAction>)
        ensures
            res@.len() == exists@.len(),
            forall|i: int|
                0 <= i < exists@.len() ==> (#[trigger] res@[i]) == spec_create_action(
                    self.dry_run,
                    exists@[i],
                    false,
                ),
    {
        let mut out: Vec<DirAction> = Vec::new();
        let mut i: usize = 0;
        while i < exists.len()
            invariant
                i <= exists.len(),
                out@.len() == i,
                forall|j: int|
                    0 <= j < i ==> (#[trigger] out@[j]) == spec_create_action(
                        self.dry_run,
                        exists@[j],
                        false,
                    ),
            decreases exists.len() - i,
        {
            out.push(self.create_directory(exists[i], false));
            i += 1;
        }
        out
    }

    /// Makes sure that a directory can be written to: one that is missing
    /// is created; one that exists must be writable.
    pub fn check_directory_writable(&self, dir: &str, description: &str, seen: DirObservation) -> (res:
        Result<DirAction, BuildError>)
        ensures
            res is Err <==> seen.exists && !seen.writable,
            res matches Ok(a) ==> a == spec_create_action(self.dry_run, seen.exists, false),
            res matches Err(e) ==> e matches BuildError::DirectoryOperation {
                operation,
                path,
                reason,
            } && operation@ == "check_writable"@ && path@ == dir@ && reason@ == description@
                + " exists but is not writable"@,
    {
        if !seen.exists {
            Ok(self.create_directory(false, false))
        } else if !seen.writable {
            let mut reason = description.to_owned();
            reason.append(" exists but is not writable");
            let r: Result<DirAction, BuildError> = Err(
                BuildError::DirectoryOperation {
                    operation: "check_writable".to_owned(),
                    path: dir.to_owned(),
                    reason,
                },
            );
            assert(r matches Err(BuildError::DirectoryOperation { operation, path, reason: why })
                && operation@ == "check_writable"@ && path@ == dir@ && why@ == description@
                + " exists but is not writable"@);
            r
        } else {
            Ok(DirAction::Nothing)
        }
    }

    /// Makes sure that a directory exists: what exists must be a
    /// directory; what is missing is created where that is asked for.
    pub fn ensure_directory(
        &self,
        dir: &str,
        description: &str,
        create_if_missing: bool,
        seen: DirObservation,
    ) -> (res: Result<DirAction, BuildError>)
        ensures
            res is Ok <==> spec_ensure_complaint(description@, create_if_missing, seen) is None,
            res matches Ok(a) ==> a == spec_create_action(self.dry_run, seen.exists, false),
            res matches Err(e) ==> e matches BuildError::DirectoryOperation {
                operation,
                path,
                reason,
            } && operation@ == "ensure_directory"@ && path@ == dir@ && Some(reason@)
                == spec_ensure_complaint(description@, create_if_missing, seen),
    {
        if seen.exists {
            if !seen.is_dir {
                let mut reason = description.to_owned();
                reason.append(" exists but is not a directory");
                let r: Result<DirAction, BuildError> = Err(
                    BuildError::DirectoryOperation {
                        operation: "ensure_directory".to_owned(),
                        path: dir.to_owned(),
                        reason,
                    },
                );
                assert(r matches Err(
                    BuildError::DirectoryOperation { operation, path, reason: why },
                ) && operation@ == "ensure_directory"@ && path@ == dir@ && why@ == description@
                    + " exists but is not a directory"@);
                return r;
            }
            return Ok(DirAction::Nothing);
        }
        if create_if_missing {
            Ok(self.create_directory(false, false))
        } else {
            let mut reason = description.to_owned();
            reason.append(" does not exist");
            let r: Result<DirAction, BuildError> = Err(
                BuildError::DirectoryOperation {
                    operation: "ensure_directory".to_owned(),
                    path: dir.to_owned(),
                    reason,
                },
            );
            assert(r matches Err(BuildError::DirectoryOperation { operation, path, reason: why })
                && operation@ == "ensure_directory"@ && path@ == dir@ && why@ == description@
                + " does not exist"@);
            r
        }
    }

    /// Whether a directory is removed: it is where it exists, outside a dry run.
    pub fn remove_directory(&self, exists: bool) -> (res: bool)
        ensures
            res == (!self.dry_run && exists),
    {
        !self.dry_run && exists
    }

    /// The free space of a file system with `blocks` free blocks of
    /// `block_size` bytes, in whole units.
    pub fn get_available_space(&self, blocks: u64, block_size: u64, unit: SpaceUnit) -> (res: u64)
        ensures
            res == spec_available_space(blocks, block_size, unit),
    {
        assert(blocks * block_size <= 0xffff_ffff_ffff_ffff * 0xffff_ffff_ffff_ffff)
            by (nonlinear_arith)
            requires
                blocks <= 0xffff_ffff_ffff_ffff,
                block_size <= 0xffff_ffff_ffff_ffff,
        ;
        let bytes: u128 = (blocks as u128) * (block_size as u128);
        let n: u128 = bytes / (unit_bytes(unit) as u128);
        if n > u64::MAX as u128 {
            u64::MAX
        } else {
            n as u64
        }
    }

    /// The size of a directory whose files have these sizes; the largest
    /// number where it is more than can be told.
    pub fn get_directory_size(&self, file_sizes: &Vec<u64>) -> (res: u64)
        ensures
            res == (if spec_sum(file_sizes@) > u64::MAX {
                u64::MAX as int
            } else {
                spec_sum(file_sizes@) as int
            }),
    {
        let mut total: u128 = 0;
        let mut i: usize = 0;
        while i < file_sizes.len()
            invariant
                i <= file_sizes.len(),
                total == spec_sum(file_sizes@.take(i as int)),
                total <= i * 0xffff_ffff_ffff_ffff,
            decreases file_sizes.len() - i,
        {
            assert(file_sizes@.take(i + 1).drop_last() == file_sizes@.take(i as int));
            assert((i + 1) * 0xffff_ffff_ffff_ffff == i * 0xffff_ffff_ffff_ffff
                + 0xffff_ffff_ffff_ffff) by (nonlinear_arith);
            assert(i * 0xffff_ffff_ffff_ffff <= 0xffff_ffff_ffff_ffff * 0xffff_ffff_ffff_ffff)
                by (nonlinear_arith)
                requires
                    i <= 0xffff_ffff_ffff_ffff,
            ;
            total = total + file_sizes[i] as u128;
            i += 1;
        }
        assert(file_sizes@.take(file_sizes.len() as int) == file_sizes@);
        if total > u64::MAX as u128 {
            u64::MAX
        } else {
            total as u64
        }
    }
}

/// The numbers of a list, added up.
pub open spec fn spec_sum(sizes: Seq<u64>) -> nat
    decreases sizes.len(),
{
    if sizes.len() == 0 {
        0
    } else {
        spec_sum(sizes.drop_last()) + sizes.last() as nat
    }
}

/// What is done to have each of the directories of a build.
pub fn create_build_directories(exists: &Vec<bool>, dry_run: bool) -> (res: Vec<DirAction>)
    ensures
        res@.len() == exists@.len(),
        forall|i: int|
            0 <= i < exists@.len() ==> (#[trigger] res@[i]) == spec_create_action(
                dry_run,
                exists@[i],
                false,
            ),
{
    let dir_ops = DirectoryOperations::new(dry_run);
    dir_ops.create_directories(exists)
}

} // verus!
