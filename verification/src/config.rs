use vstd::prelude::*;
use vstd::string::StringExecFns;
use crate::cli::Args;
use crate::options::{OptimizationLevel, VerifyLevel};
use crate::text::{spec_contains, str_contains};
use crate::version::{path_join, spec_path_join};

verus! {

/// Version of the build tool.
pub const SCRIPT_VERSION: &'static str = "2.6";

/// Least memory, in megabytes, with which a build is attempted.
pub const MIN_RAM_MB: u64 = 2000;

/// Disk space, in gigabytes, that the build of one version is expected to take.
pub const DISK_SPACE_PER_VERSION_GB: u64 = 25;

/// Disk space, in gigabytes, kept free beyond what the builds take.
pub const DISK_SPACE_MARGIN_GB: u64 = 5;

/// How long, in seconds, a resolved version stays valid: one day.
pub const VERSION_CACHE_TTL_SECS: u64 = 86400;

/// How often a download is attempted.
pub const MAX_DOWNLOAD_ATTEMPTS: u32 = 3;

/// Which of the usual library directories exist on this machine.
#[derive(Debug, Clone, Copy, PartialEq, Eq, Structural)]
pub struct LibraryDirs {
    /// `/usr/lib/<target triple>` exists.
    pub arch_lib: bool,
    /// `/usr/lib64` exists.
    pub lib64: bool,
    /// `/usr/lib` exists.
    pub lib: bool,
}

/// The settings of one run, taken from the command line and from the machine.
#[derive(Debug)]
pub struct BuildConfig {
    pub dry_run: bool,
    pub enable_multilib: bool,
    pub static_build: bool,
    pub generic: bool,
    pub keep_build_dir: bool,
    pub optimization: String,
    pub prefix: Option<String>,
    pub save_binaries: bool,
    pub parallel: usize,
    pub target_arch: String,
    pub build_dir: String,
    pub workspace: String,
    pub force_rebuild: bool,
    pub skip_checksum: bool,
    pub verify_level: VerifyLevel,
    pub parallel_jobs: u16,
    pub max_retries: u32,
}

/// The flags handed to the C and C++ compilers.
pub open spec fn spec_cflags(optimization: Seq<char>, generic: bool) -> Seq<char> {
    let base = "-O"@ + optimization + " -pipe -fstack-protector-strong"@;
    if generic {
        base
    } else {
        base + " -march=native"@
    }
}

/// The flags handed to the linker.
pub open spec fn spec_ldflags(
    static_build: bool,
    target_arch: Seq<char>,
    dirs: LibraryDirs,
) -> Seq<char> {
    let head = if static_build {
        "-static "@ + "-Wl,-z,relro -Wl,-z,now"@
    } else {
        "-Wl,-z,relro -Wl,-z,now"@
    };
    if dirs.arch_lib {
        head + " -L/usr/lib/"@ + target_arch
    } else if dirs.lib64 && spec_contains(target_arch, "64"@) {
        head + " -L/usr/lib64"@
    } else if dirs.lib {
        head + " -L/usr/lib"@
    } else {
        head
    }
}

impl BuildConfig {
    /// Saving the static binaries needs a static build, and a prefix, where
    /// one is given, is absolute.
    pub open spec fn wf(&self) -> bool {
        &&& (self.save_binaries ==> self.static_build)
        &&& (self.prefix matches Some(p) ==> crate::cli::spec_is_absolute(p@))
    }

    /// The settings that the arguments ask for, on a machine with the given
    /// target triple, building under `build_dir`.
    pub fn from_args(args: &Args, build_dir: String, target_arch: String) -> (res: BuildConfig)
        ensures
            res.dry_run == args.dry_run,
            res.enable_multilib == args.enable_multilib,
            res.static_build == args.static_build,
            res.generic == args.generic,
            res.keep_build_dir == args.keep_build_dir,
            res.optimization@ == args.optimization@,
            res.prefix is Some <==> args.prefix is Some,
            res.prefix matches Some(p) ==> p@ == args.prefix->0@,
            res.save_binaries == args.save,
            res.parallel == args.parallel,
            res.target_arch@ == target_arch@,
            res.build_dir@ == build_dir@,
            res.workspace@ == spec_path_join(build_dir@, "workspace"@),
            !res.force_rebuild,
            !res.skip_checksum,
            res.verify_level == VerifyLevel::Fast,
            res.parallel_jobs == 1,
            res.max_retries == MAX_DOWNLOAD_ATTEMPTS,
            args.spec_valid() ==> res.wf(),
    {
        let workspace = path_join(build_dir.as_str(), "workspace");
        let prefix: Option<String> = match &args.prefix {
            Some(p) => Some(p.clone()),
            None => None,
        };
        BuildConfig {
            dry_run: args.dry_run,
            enable_multilib: args.enable_multilib,
            static_build: args.static_build,
            generic: args.generic,
            keep_build_dir: args.keep_build_dir,
            optimization: args.optimization.clone(),
            prefix,
            save_binaries: args.save,
            parallel: args.parallel,
            target_arch,
            build_dir,
            workspace,
            force_rebuild: false,
            skip_checksum: false,
            verify_level: VerifyLevel::Fast,
            parallel_jobs: 1,
            max_retries: MAX_DOWNLOAD_ATTEMPTS,
        }
    }

    /// The optimization flag of the bootstrap compiler.
    pub fn optimization_flag(&self) -> (res: String)
        ensures
            res@ == "-O"@ + self.optimization@,
    {
        let mut s = "-O".to_owned();
        s.append(self.optimization.as_str());
        s
    }

    /// The optimization level that the settings name, if they name one.
    pub fn optimization_level(&self) -> (res: Option<OptimizationLevel>)
        ensures
            res == crate::options::spec_level_of(self.optimization@),
    {
        OptimizationLevel::from_word(self.optimization.as_str())
    }

    /// The flags for the C compiler.
    pub fn cflags(&self) -> (res: String)
        ensures
            res@ == spec_cflags(self.optimization@, self.generic),
    {
        let mut flags = self.optimization_flag();
        flags.append(" -pipe -fstack-protector-strong");
        if !self.generic {
            flags.append(" -march=native");
        }
        flags
    }

    /// The flags for the C++ compiler: those for the C compiler.
    pub fn cxxflags(&self) -> (res: String)
        ensures
            res@ == spec_cflags(self.optimization@, self.generic),
    {
        self.cflags()
    }

    /// The flags for the preprocessor.
    pub fn cppflags(&self) -> (res: String)
        ensures
            res@ == "-D_FORTIFY_SOURCE=2"@,
    {
        "-D_FORTIFY_SOURCE=2".to_owned()
    }

    /// The flags for the linker, given which library directories exist.
    pub fn ldflags(&self, dirs: LibraryDirs) -> (res: String)
        ensures
            res@ == spec_ldflags(self.static_build, self.target_arch@, dirs),
    {
        let mut flags = String::new();
        if self.static_build {
            flags.append("-static ");
        }
        flags.append("-Wl,-z,relro -Wl,-z,now");
        assert(flags@ == if self.static_build {
            "-static "@ + "-Wl,-z,relro -Wl,-z,now"@
        } else {
            "-Wl,-z,relro -Wl,-z,now"@
        });
        if dirs.arch_lib {
            flags.append(" -L/usr/lib/");
            flags.append(self.target_arch.as_str());
        } else if dirs.lib64 && str_contains(self.target_arch.as_str(), "64") {
            flags.append(" -L/usr/lib64");
        } else if dirs.lib {
            flags.append(" -L/usr/lib");
        }
        flags
    }

    /// The directory into which `version` is installed under these
    /// settings: a directory named after the version, under the prefix that
    /// the user gave or else under the default base.
    pub open spec fn spec_install_prefix(&self, version: &crate::version::GccVersion) -> Seq<char> {
        match self.prefix {
            Some(p) => spec_path_join(p@, "gcc-"@ + version.full@),
            None => crate::version::DEFAULT_PREFIX_BASE@ + "/gcc-"@ + version.full@,
        }
    }

    /// The directory into which `version` is installed under these settings.
    pub fn get_install_prefix(&self, version: &crate::version::GccVersion) -> (res: String)
        ensures
            res@ == self.spec_install_prefix(version),
    {
        match &self.prefix {
            Some(p) => version.install_prefix(Some(p)),
            None => version.install_prefix(None),
        }
    }
}

/// The disk space, in gigabytes, that building `count` versions requires.
pub open spec fn spec_required_disk_gb(count: nat) -> nat {
    count * DISK_SPACE_PER_VERSION_GB as nat + DISK_SPACE_MARGIN_GB as nat
}

} // verus!
