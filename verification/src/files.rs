use vstd::prelude::*;
use crate::error::BuildError;
use crate::integrity::{checksums_match, spec_checksums_match};
use crate::download::{archive_format, spec_archive_format, ArchiveFormat};
use crate::text::str_eq;

verus! {

/// The units in which the size of a file is told.
#[derive(Debug, Clone, Copy, PartialEq, Eq, Structural)]
pub enum SizeUnit {
    Bytes,
    KB,
    MB,
    GB,
}

/// What is asked of a file.
#[derive(Debug)]
pub enum FileValidationType {
    Exists,
    Readable,
    Writable,
    Executable,
    Tarball,
    /// The file has this checksum.
    Checksum(String),
}

/// What was seen of a file.
#[derive(Debug)]
pub struct FileObservation {
    pub exists: bool,
    /// Its permissions forbid writing.
    pub readonly: bool,
    /// It could be opened for writing.
    pub writable: bool,
    /// Its permission bits.
    pub mode: u32,
    /// It could be read as an archive.
    pub tarball_ok: bool,
    /// Its SHA-512 checksum in hexadecimal.
    pub checksum: String,
}

/// What was seen at the place of a symbolic link that is to be made.
#[derive(Debug)]
pub enum LinkPlace {
    /// Nothing is there.
    Free,
    /// A symbolic link that points here.
    Link(String),
    /// Something that is no symbolic link.
    Other,
}

/// What is done to make a symbolic link.
#[derive(Debug, Clone, Copy, PartialEq, Eq, Structural)]
pub enum LinkAction {
    /// Nothing: it is a dry run, or the right link is there.
    Nothing,
    /// The link is made.
    Create,
    /// What is there is removed, and the link is made.
    Replace,
}

/// Works on files, or only says what it would do.
#[derive(Debug, Clone, Copy, PartialEq, Eq, Structural)]
pub struct FileOperations {
    pub dry_run: bool,
}

/// How many bytes a unit has.
pub open spec fn spec_size_unit_bytes(unit: SizeUnit) -> int {
    match unit {
        SizeUnit::Bytes => 1,
        SizeUnit::KB => 1024,
        SizeUnit::MB => 1048576,
        SizeUnit::GB => 1073741824,
    }
}

/// Whether some execute bit is set among permission bits.
pub open spec fn spec_is_executable_mode(mode: u32) -> bool {
    mode & 0o111 != 0
}

/// What a file that exists is found to be.
pub open spec fn spec_validate(validation: FileValidationType, seen: FileObservation) -> bool {
    match validation {
        FileValidationType::Exists => true,
        FileValidationType::Readable => !seen.readonly,
        FileValidationType::Writable => seen.writable,
        FileValidationType::Executable => spec_is_executable_mode(seen.mode),
        FileValidationType::Tarball => seen.tarball_ok,
        FileValidationType::Checksum(expected) => spec_checksums_match(seen.checksum@, expected@),
    }
}

/// What is done to make a link to `target`: nothing in a dry run. A link
/// that is there and points to `target` is left, unless the link is forced;
/// a link that points elsewhere is replaced; something that is no link is
/// replaced only where the link is forced, and is an error otherwise.
pub open spec fn spec_link_action(
    dry_run: bool,
    target: Seq<char>,
    place: LinkPlace,
    force: bool,
) -> Option<LinkAction> {
    if dry_run {
        Some(LinkAction::Nothing)
    } else {
        match place {
            LinkPlace::Free => Some(LinkAction::Create),
            LinkPlace::Link(current) => if force {
                Some(LinkAction::Replace)
            } else if current@ == target {
                Some(LinkAction::Nothing)
            } else {
                Some(LinkAction::Create)
            },
            LinkPlace::Other => if force {
                Some(LinkAction::Replace)
            } else {
                None
            },
        }
    }
}

/// Whether some execute bit is set among permission bits.
pub fn is_executable_mode(mode: u32) -> (res: bool)
    ensures
        res == spec_is_executable_mode(mode),
{
    mode & 0o111 != 0
}

impl FileOperations {
    /// Operations that are carried out, or in a dry run only told.
    pub fn new(dry_run: bool) -> (res: Self)
        ensures
            res.dry_run == dry_run,
    {
        FileOperations { dry_run }
    }

    /// Whether a file is what is asked of it. A file that does not exist
    /// is an error, unless existence is all that is asked.
    pub fn validate_file(&self, file_path: &str, validation: &FileValidationType, seen: &FileObservation) -> (res:
        Result<bool, BuildError>)
        ensures
            res is Err <==> !seen.exists && !(*validation is Exists),
            res matches Ok(b) ==> b == (seen.exists && spec_validate(*validation, *seen)),
            res matches Err(e) ==> e matches BuildError::FileOperation { operation, path, reason }
                && operation@ == "validate"@ && path@ == file_path@ && reason@
                == "File does not exist"@,
    {
        if !seen.exists {
            return match validation {
                FileValidationType::Exists => Ok(false),
                _ => {
                    let r: Result<bool, BuildError> = Err(
                        BuildError::FileOperation {
                            operation: "validate".to_owned(),
                            path: file_path.to_owned(),
                            reason: "File does not exist".to_owned(),
                        },
                    );
                    assert(r matches Err(BuildError::FileOperation { operation, path, reason })
                        && operation@ == "validate"@ && path@ == file_path@ && reason@
                        == "File does not exist"@);
                    r
                },
            };
        }
        match validation {
            FileValidationType::Exists => Ok(true),
            FileValidationType::Readable => Ok(!seen.readonly),
            FileValidationType::Writable => Ok(seen.writable),
            FileValidationType::Executable => Ok(is_executable_mode(seen.mode)),
            FileValidationType::Tarball => Ok(seen.tarball_ok),
            FileValidationType::Checksum(expected) => Ok(
                self.validate_checksum(seen.checksum.as_str(), expected.as_str()),
            ),
        }
    }

    /// Whether a checksum is the expected one, but for the case of its letters.
    pub fn validate_checksum(&self, actual: &str, expected: &str) -> (res: bool)
        ensures
            res == spec_checksums_match(actual@, expected@),
    {
        checksums_match(actual, expected)
    }

    /// The size of a file in whole units; zero for a file that does not exist.
    pub fn get_file_size(&self, size_bytes: Option<u64>, unit: SizeUnit) -> (res: u64)
        ensures
            res == match size_bytes {
                Some(n) => n as int / spec_size_unit_bytes(unit),
                None => 0,
            },
    {
        match size_bytes {
            None => 0,
            Some(n) => match unit {
                SizeUnit::Bytes => n,
                SizeUnit::KB => n / 1024,
                SizeUnit::MB => n / 1048576,
                SizeUnit::GB => n / 1073741824,
            },
        }
    }

    /// What is done to make a link at `link_path` that points to `target`.
    pub fn create_symlink(&self, target: &str, link_path: &str, place: &LinkPlace, force: bool) -> (res:
        Result<LinkAction, BuildError>)
        ensures
            res is Ok <==> spec_link_action(self.dry_run, target@, *place, force) is Some,
            res matches Ok(a) ==> Some(a) == spec_link_action(self.dry_run, target@, *place, force),
            res matches Err(e) ==> e matches BuildError::FileOperation { operation, path, reason }
                && operation@ == "create_symlink"@ && path@ == link_path@ && reason@
                == "Non-symlink file exists"@,
    {
        if self.dry_run {
            return Ok(LinkAction::Nothing);
        }
        match place {
            LinkPlace::Free => Ok(LinkAction::Create),
            LinkPlace::Link(current) => {
                if force {
                    Ok(LinkAction::Replace)
                } else if str_eq(current.as_str(), target) {
                    Ok(LinkAction::Nothing)
                } else {
                    Ok(LinkAction::Create)
                }
            },
            LinkPlace::Other => {
                if force {
                    Ok(LinkAction::Replace)
                } else {
                    let r: Result<LinkAction, BuildError> = Err(
                        BuildError::FileOperation {
                            operation: "create_symlink".to_owned(),
                            path: link_path.to_owned(),
                            reason: "Non-symlink file exists".to_owned(),
                        },
                    );
                    assert(r matches Err(BuildError::FileOperation { operation, path, reason })
                        && operation@ == "create_symlink"@ && path@ == link_path@ && reason@
                        == "Non-symlink file exists"@);
                    r
                }
            },
        }
    }

    /// Whether a path is removed: it is where it exists, outside a dry run.
    pub fn remove_path(&self, exists: bool) -> (res: bool)
        ensures
            res == (!self.dry_run && exists),
    {
        !self.dry_run && exists
    }
}

/// How an archive is unpacked.
#[derive(Debug, Clone, Copy, PartialEq, Eq, Structural)]
pub enum ExtractMethod {
    /// Nothing is unpacked: it is a dry run.
    Nothing,
    /// The program `tar` unpacks the archive.
    SystemTar,
    /// The archive is gunzipped and unpacked in the process.
    GzipInProcess,
    /// The archive is unpacked in the process.
    TarInProcess,
}

/// How an archive is unpacked: in a dry run not at all; an archive of
/// the xz kind by the program `tar`; the others in the process. An archive
/// of another kind cannot be unpacked.
pub open spec fn spec_extract_method(dry_run: bool, format: ArchiveFormat) -> Option<ExtractMethod> {
    if dry_run {
        Some(ExtractMethod::Nothing)
    } else {
        match format {
            ArchiveFormat::TarXz => Some(ExtractMethod::SystemTar),
            ArchiveFormat::TarGz => Some(ExtractMethod::GzipInProcess),
            ArchiveFormat::Tar => Some(ExtractMethod::TarInProcess),
            ArchiveFormat::Unsupported => None,
        }
    }
}

impl FileOperations {
    /// How the archive at `archive_path` is unpacked.
    pub fn extract_archive(&self, archive_path: &str) -> (res: Result<ExtractMethod, BuildError>)
        ensures
            res is Ok <==> spec_extract_method(self.dry_run, spec_archive_format(archive_path@))
                is Some,
            res matches Ok(m) ==> Some(m) == spec_extract_method(
                self.dry_run,
                spec_archive_format(archive_path@),
            ),
            res matches Err(e) ==> e matches BuildError::FileOperation { operation, path, reason }
                && operation@ == "extract"@ && path@ == archive_path@ && reason@
                == "Unsupported archive format"@,
    {
        if self.dry_run {
            return Ok(ExtractMethod::Nothing);
        }
        match archive_format(archive_path) {
            ArchiveFormat::TarXz => Ok(ExtractMethod::SystemTar),
            ArchiveFormat::TarGz => Ok(ExtractMethod::GzipInProcess),
            ArchiveFormat::Tar => Ok(ExtractMethod::TarInProcess),
            ArchiveFormat::Unsupported => {
                let r: Result<ExtractMethod, BuildError> = Err(
                    BuildError::FileOperation {
                        operation: "extract".to_owned(),
                        path: archive_path.to_owned(),
                        reason: "Unsupported archive format".to_owned(),
                    },
                );
                assert(r matches Err(BuildError::FileOperation { operation, path, reason })
                    && operation@ == "extract"@ && path@ == archive_path@ && reason@
                    == "Unsupported archive format"@);
                r
            },
        }
    }

    /// The SHA-512 checksum of the bytes of a file, in lower-case hexadecimal.
    pub fn calculate_checksum(&self, data: &[u8]) -> (res: String)
        ensures
            res@ == crate::digest::spec_hex_lower(crate::digest::spec_sha512(data@)),
            res@.len() == 128,
    {
        crate::digest::sha512_hex(data)
    }

    /// Whether a file is written: it is not in a dry run.
    pub fn write_file(&self) -> (res: bool)
        ensures
            res == !self.dry_run,
    {
        !self.dry_run
    }
}

/// Holds a downloaded file against the checksum that is expected of it.
/// Nothing is checked in a dry run.
pub fn verify_checksum(file_path: &str, actual_checksum: &str, expected_checksum: &str, dry_run: bool) -> (res:
    Result<(), BuildError>)
    ensures
        res is Ok <==> dry_run || spec_checksums_match(actual_checksum@, expected_checksum@),
        res matches Err(e) ==> e matches BuildError::ChecksumMismatch { file, expected, actual }
            && file@ == file_path@ && expected@ == expected_checksum@ && actual@
            == actual_checksum@,
{
    if dry_run {
        return Ok(());
    }
    if !checksums_match(actual_checksum, expected_checksum) {
        let r: Result<(), BuildError> = Err(
            BuildError::ChecksumMismatch {
                file: file_path.to_owned(),
                expected: expected_checksum.to_owned(),
                actual: actual_checksum.to_owned(),
            },
        );
        assert(r matches Err(BuildError::ChecksumMismatch { file, expected, actual }) && file@
            == file_path@ && expected@ == expected_checksum@ && actual@ == actual_checksum@);
        return r;
    }
    Ok(())
}

} // verus!
