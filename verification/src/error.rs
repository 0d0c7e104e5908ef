use vstd::prelude::*;
use vstd::string::StringExecFns;
use crate::decimal::{push_decimal, spec_decimal};

verus! {

/// What can go wrong while building a compiler.
#[derive(Debug)]
pub enum BuildError {
    Download { url: String, message: String },
    ChecksumMismatch { file: String, expected: String, actual: String },
    GpgVerificationFailed { file: String },
    Extraction { file: String, message: String },
    Configure { version: String, message: String },
    Make { version: String, message: String },
    OutOfMemory { version: String, message: String },
    Install { version: String, message: String },
    InsufficientResources { message: String },
    ResourceExhausted { resource: String, message: String },
    MissingDependency { package: String },
    DependencyInstall { message: String },
    VersionLookup { major_version: u32, message: String },
    InvalidVersionSpec { spec: String },
    NoVersionsSelected,
    LockFailed,
    CommandFailed { command: String },
    Configuration { message: String },
    FileOperation { operation: String, path: String, reason: String },
    DirectoryOperation { operation: String, path: String, reason: String },
    NetworkTimeout { message: String },
    Io { message: String },
    PermissionDenied { path: String },
    RunningAsRoot,
    PostInstall { task: String },
    Cancelled,
}

/// The kinds into which failures fall when they are handled and reported.
#[derive(Debug, Clone, Copy, PartialEq, Eq, Structural)]
pub enum ErrorKind {
    SystemRequirements,
    Download,
    ChecksumMismatch,
    Extraction,
    Configure,
    BuildFailed,
    OutOfMemory,
    Install,
    PostInstall,
    VersionLookup,
    LockHeld,
    Cancelled,
    Usage,
    Other,
}

/// How far a build of one version has come.
#[derive(Debug)]
pub enum BuildStatus {
    Pending,
    Downloading,
    Extracting,
    Configuring,
    Building,
    Installing,
    PostInstall,
    Success,
    Failed(String),
    DryRun,
    Skipped(String),
}

/// The text that describes `e` to the user.
pub open spec fn spec_error_message(e: BuildError) -> Seq<char> {
    match e {
        BuildError::Download { url, message } => "Failed to download "@ + url@ + ": "@ + message@,
        BuildError::ChecksumMismatch { file, expected, actual } => "Checksum verification failed for "@
            + file@ + ": expected "@ + expected@ + ", got "@ + actual@,
        BuildError::GpgVerificationFailed { file } => "GPG signature verification failed for "@
            + file@,
        BuildError::Extraction { file, message } => "Failed to extract archive "@ + file@ + ": "@
            + message@,
        BuildError::Configure { version, message } => "Configure failed for GCC "@ + version@
            + ": "@ + message@,
        BuildError::Make { version, message } => "Build (make) failed for GCC "@ + version@
            + ": "@ + message@,
        BuildError::OutOfMemory { version, message } => "Out of memory while building GCC "@
            + version@ + ": "@ + message@,
        BuildError::Install { version, message } => "Installation failed for GCC "@ + version@
            + ": "@ + message@,
        BuildError::InsufficientResources { message } => "Insufficient system resources: "@
            + message@,
        BuildError::ResourceExhausted { resource, message } => "Resource exhausted ("@ + resource@
            + "): "@ + message@,
        BuildError::MissingDependency { package } => "Missing dependency: "@ + package@,
        BuildError::DependencyInstall { message } => "Failed to install dependencies: "@
            + message@,
        BuildError::VersionLookup { major_version, message } => "Version lookup failed for GCC "@
            + spec_decimal(major_version as nat) + ": "@ + message@,
        BuildError::InvalidVersionSpec { spec } => "Invalid version specification: "@ + spec@,
        BuildError::NoVersionsSelected => "No GCC versions selected"@,
        BuildError::LockFailed => "Lock acquisition failed: another instance is running"@,
        BuildError::CommandFailed { command } => "Command execution failed: "@ + command@,
        BuildError::Configuration { message } => "Configuration error: "@ + message@,
        BuildError::FileOperation { operation, path, reason } => "File operation "@ + operation@
            + " failed for "@ + path@ + ": "@ + reason@,
        BuildError::DirectoryOperation { operation, path, reason } => "Directory operation "@
            + operation@ + " failed for "@ + path@ + ": "@ + reason@,
        BuildError::NetworkTimeout { message } => "Network timeout: "@ + message@,
        BuildError::Io { message } => "IO error: "@ + message@,
        BuildError::PermissionDenied { path } => "Permission denied: "@ + path@,
        BuildError::RunningAsRoot => "Script must not be run as root"@,
        BuildError::PostInstall { task } => "Post-install task failed: "@ + task@,
        BuildError::Cancelled => "cancelled"@,
    }
}

/// The kind under which `e` is handled.
pub open spec fn spec_error_kind(e: BuildError) -> ErrorKind {
    match e {
        BuildError::Download { .. } => ErrorKind::Download,
        BuildError::NetworkTimeout { .. } => ErrorKind::Download,
        BuildError::ChecksumMismatch { .. } => ErrorKind::ChecksumMismatch,
        BuildError::GpgVerificationFailed { .. } => ErrorKind::ChecksumMismatch,
        BuildError::Extraction { .. } => ErrorKind::Extraction,
        BuildError::Configure { .. } => ErrorKind::Configure,
        BuildError::Make { .. } => ErrorKind::BuildFailed,
        BuildError::OutOfMemory { .. } => ErrorKind::OutOfMemory,
        BuildError::Install { .. } => ErrorKind::Install,
        BuildError::InsufficientResources { .. } => ErrorKind::SystemRequirements,
        BuildError::ResourceExhausted { .. } => ErrorKind::SystemRequirements,
        BuildError::MissingDependency { .. } => ErrorKind::SystemRequirements,
        BuildError::DependencyInstall { .. } => ErrorKind::SystemRequirements,
        BuildError::VersionLookup { .. } => ErrorKind::VersionLookup,
        BuildError::InvalidVersionSpec { .. } => ErrorKind::Usage,
        BuildError::NoVersionsSelected => ErrorKind::Usage,
        BuildError::LockFailed => ErrorKind::LockHeld,
        BuildError::PostInstall { .. } => ErrorKind::PostInstall,
        BuildError::Cancelled => ErrorKind::Cancelled,
        _ => ErrorKind::Other,
    }
}

/// The exit code with which a run that ends on an error of kind `k` leaves.
pub open spec fn spec_exit_code(k: ErrorKind) -> u8 {
    match k {
        ErrorKind::SystemRequirements => 2,
        ErrorKind::LockHeld => 3,
        _ => 1,
    }
}

impl BuildError {
    /// The text that describes this error to the user.
    pub fn message(&self) -> (res: String)
        ensures
            res@ == spec_error_message(*self),
    {
        match self {
            BuildError::Download { url, message } => {
                let mut s = "Failed to download ".to_owned();
                s.append(url.as_str());
                s.append(": ");
                s.append(message.as_str());
                s
            },
            BuildError::ChecksumMismatch { file, expected, actual } => {
                let mut s = "Checksum verification failed for ".to_owned();
                s.append(file.as_str());
                s.append(": expected ");
                s.append(expected.as_str());
                s.append(", got ");
                s.append(actual.as_str());
                s
            },
            BuildError::GpgVerificationFailed { file } => {
                let mut s = "GPG signature verification failed for ".to_owned();
                s.append(file.as_str());
                s
            },
            BuildError::Extraction { file, message } => {
                let mut s = "Failed to extract archive ".to_owned();
                s.append(file.as_str());
                s.append(": ");
                s.append(message.as_str());
                s
            },
            BuildError::Configure { version, message } => {
                let mut s = "Configure failed for GCC ".to_owned();
                s.append(version.as_str());
                s.append(": ");
                s.append(message.as_str());
                s
            },
            BuildError::Make { version, message } => {
                let mut s = "Build (make) failed for GCC ".to_owned();
                s.append(version.as_str());
                s.append(": ");
                s.append(message.as_str());
                s
            },
            BuildError::OutOfMemory { version, message } => {
                let mut s = "Out of memory while building GCC ".to_owned();
                s.append(version.as_str());
                s.append(": ");
                s.append(message.as_str());
                s
            },
            BuildError::Install { version, message } => {
                let mut s = "Installation failed for GCC ".to_owned();
                s.append(version.as_str());
                s.append(": ");
                s.append(message.as_str());
                s
            },
            BuildError::InsufficientResources { message } => {
                let mut s = "Insufficient system resources: ".to_owned();
                s.append(message.as_str());
                s
            },
            BuildError::ResourceExhausted { resource, message } => {
                let mut s = "Resource exhausted (".to_owned();
                s.append(resource.as_str());
                s.append("): ");
                s.append(message.as_str());
                s
            },
            BuildError::MissingDependency { package } => {
                let mut s = "Missing dependency: ".to_owned();
                s.append(package.as_str());
                s
            },
            BuildError::DependencyInstall { message } => {
                let mut s = "Failed to install dependencies: ".to_owned();
                s.append(message.as_str());
                s
            },
            BuildError::VersionLookup { major_version, message } => {
                let mut s = "Version lookup failed for GCC ".to_owned();
                push_decimal(&mut s, *major_version as u64);
                s.append(": ");
                s.append(message.as_str());
                s
            },
            BuildError::InvalidVersionSpec { spec } => {
                let mut s = "Invalid version specification: ".to_owned();
                s.append(spec.as_str());
                s
            },
            BuildError::NoVersionsSelected => "No GCC versions selected".to_owned(),
            BuildError::LockFailed => "Lock acquisition failed: another instance is running".to_owned(),
            BuildError::CommandFailed { command } => {
                let mut s = "Command execution failed: ".to_owned();
                s.append(command.as_str());
                s
            },
            BuildError::Configuration { message } => {
                let mut s = "Configuration error: ".to_owned();
                s.append(message.as_str());
                s
            },
            BuildError::FileOperation { operation, path, reason } => {
                let mut s = "File operation ".to_owned();
                s.append(operation.as_str());
                s.append(" failed for ");
                s.append(path.as_str());
                s.append(": ");
                s.append(reason.as_str());
                s
            },
            BuildError::DirectoryOperation { operation, path, reason } => {
                let mut s = "Directory operation ".to_owned();
                s.append(operation.as_str());
                s.append(" failed for ");
                s.append(path.as_str());
                s.append(": ");
                s.append(reason.as_str());
                s
            },
            BuildError::NetworkTimeout { message } => {
                let mut s = "Network timeout: ".to_owned();
                s.append(message.as_str());
                s
            },
            BuildError::Io { message } => {
                let mut s = "IO error: ".to_owned();
                s.append(message.as_str());
                s
            },
            BuildError::PermissionDenied { path } => {
                let mut s = "Permission denied: ".to_owned();
                s.append(path.as_str());
                s
            },
            BuildError::RunningAsRoot => "Script must not be run as root".to_owned(),
            BuildError::PostInstall { task } => {
                let mut s = "Post-install task failed: ".to_owned();
                s.append(task.as_str());
                s
            },
            BuildError::Cancelled => "cancelled".to_owned(),
        }
    }

    /// The kind under which this error is handled.
    pub fn kind(&self) -> (res: ErrorKind)
        ensures
            res == spec_error_kind(*self),
    {
        match self {
            BuildError::Download { .. } => ErrorKind::Download,
            BuildError::NetworkTimeout { .. } => ErrorKind::Download,
            BuildError::ChecksumMismatch { .. } => ErrorKind::ChecksumMismatch,
            BuildError::GpgVerificationFailed { .. } => ErrorKind::ChecksumMismatch,
            BuildError::Extraction { .. } => ErrorKind::Extraction,
            BuildError::Configure { .. } => ErrorKind::Configure,
            BuildError::Make { .. } => ErrorKind::BuildFailed,
            BuildError::OutOfMemory { .. } => ErrorKind::OutOfMemory,
            BuildError::Install { .. } => ErrorKind::Install,
            BuildError::InsufficientResources { .. } => ErrorKind::SystemRequirements,
            BuildError::ResourceExhausted { .. } => ErrorKind::SystemRequirements,
            BuildError::MissingDependency { .. } => ErrorKind::SystemRequirements,
            BuildError::DependencyInstall { .. } => ErrorKind::SystemRequirements,
            BuildError::VersionLookup { .. } => ErrorKind::VersionLookup,
            BuildError::InvalidVersionSpec { .. } => ErrorKind::Usage,
            BuildError::NoVersionsSelected => ErrorKind::Usage,
            BuildError::LockFailed => ErrorKind::LockHeld,
            BuildError::PostInstall { .. } => ErrorKind::PostInstall,
            BuildError::Cancelled => ErrorKind::Cancelled,
            _ => ErrorKind::Other,
        }
    }

    /// Whether this error came from the network, so that a retry may follow soon.
    pub fn is_network(&self) -> (res: bool)
        ensures
            res == (spec_error_kind(*self) == ErrorKind::Download),
    {
        self.kind() == ErrorKind::Download
    }
}

/// The name of a kind of error, as the report shows it.
pub open spec fn spec_kind_name(k: ErrorKind) -> Seq<char> {
    match k {
        ErrorKind::SystemRequirements => "SystemRequirements"@,
        ErrorKind::Download => "Download"@,
        ErrorKind::ChecksumMismatch => "ChecksumMismatch"@,
        ErrorKind::Extraction => "Extraction"@,
        ErrorKind::Configure => "Configure"@,
        ErrorKind::BuildFailed => "BuildFailed"@,
        ErrorKind::OutOfMemory => "OutOfMemory"@,
        ErrorKind::Install => "Install"@,
        ErrorKind::PostInstall => "PostInstall"@,
        ErrorKind::VersionLookup => "VersionLookup"@,
        ErrorKind::LockHeld => "LockHeld"@,
        ErrorKind::Cancelled => "Cancelled"@,
        ErrorKind::Usage => "Usage"@,
        ErrorKind::Other => "Other"@,
    }
}

/// The name of a kind of error, as the report shows it.
pub fn kind_name(k: ErrorKind) -> (res: &'static str)
    ensures
        res@ == spec_kind_name(k),
{
    match k {
        ErrorKind::SystemRequirements => "SystemRequirements",
        ErrorKind::Download => "Download",
        ErrorKind::ChecksumMismatch => "ChecksumMismatch",
        ErrorKind::Extraction => "Extraction",
        ErrorKind::Configure => "Configure",
        ErrorKind::BuildFailed => "BuildFailed",
        ErrorKind::OutOfMemory => "OutOfMemory",
        ErrorKind::Install => "Install",
        ErrorKind::PostInstall => "PostInstall",
        ErrorKind::VersionLookup => "VersionLookup",
        ErrorKind::LockHeld => "LockHeld",
        ErrorKind::Cancelled => "Cancelled",
        ErrorKind::Usage => "Usage",
        ErrorKind::Other => "Other",
    }
}

/// The exit code with which a run that ends on an error of kind `k` leaves.
pub fn exit_code(k: ErrorKind) -> (res: u8)
    ensures
        res == spec_exit_code(k),
{
    match k {
        ErrorKind::SystemRequirements => 2,
        ErrorKind::LockHeld => 3,
        _ => 1,
    }
}

/// The text that shows `st` in the log and in the summary.
pub open spec fn spec_status_text(st: BuildStatus) -> Seq<char> {
    match st {
        BuildStatus::Pending => "PENDING"@,
        BuildStatus::Downloading => "DOWNLOADING"@,
        BuildStatus::Extracting => "EXTRACTING"@,
        BuildStatus::Configuring => "CONFIGURING"@,
        BuildStatus::Building => "BUILDING"@,
        BuildStatus::Installing => "INSTALLING"@,
        BuildStatus::PostInstall => "POST_INSTALL"@,
        BuildStatus::Success => "SUCCESS"@,
        BuildStatus::Failed(msg) => "FAILED: "@ + msg@,
        BuildStatus::DryRun => "DRY_RUN"@,
        BuildStatus::Skipped(reason) => "SKIPPED: "@ + reason@,
    }
}

impl BuildStatus {
    /// The text that shows this status in the log and in the summary.
    pub fn text(&self) -> (res: String)
        ensures
            res@ == spec_status_text(*self),
    {
        match self {
            BuildStatus::Pending => "PENDING".to_owned(),
            BuildStatus::Downloading => "DOWNLOADING".to_owned(),
            BuildStatus::Extracting => "EXTRACTING".to_owned(),
            BuildStatus::Configuring => "CONFIGURING".to_owned(),
            BuildStatus::Building => "BUILDING".to_owned(),
            BuildStatus::Installing => "INSTALLING".to_owned(),
            BuildStatus::PostInstall => "POST_INSTALL".to_owned(),
            BuildStatus::Success => "SUCCESS".to_owned(),
            BuildStatus::Failed(msg) => {
                let mut s = "FAILED: ".to_owned();
                s.append(msg.as_str());
                s
            },
            BuildStatus::DryRun => "DRY_RUN".to_owned(),
            BuildStatus::Skipped(reason) => {
                let mut s = "SKIPPED: ".to_owned();
                s.append(reason.as_str());
                s
            },
        }
    }

    /// Whether the build has ended, well or badly.
    pub fn is_final(&self) -> (res: bool)
        ensures
            res == (*self is Success || *self is Failed || *self is DryRun || *self is Skipped),
    {
        match self {
            BuildStatus::Success => true,
            BuildStatus::Failed(_) => true,
            BuildStatus::DryRun => true,
            BuildStatus::Skipped(_) => true,
            _ => false,
        }
    }
}

} // verus!
