use vstd::prelude::*;
use crate::cli::{is_absolute, spec_is_absolute};

verus! {

/// How hard the bootstrap compiler optimizes.
#[derive(Debug, Clone, Copy, PartialEq, Eq, Structural)]
pub enum OptimizationLevel {
    O0,
    O1,
    O2,
    O3,
    Fast,
    Debug,
    Size,
}

/// A named bundle of settings.
#[derive(Debug, Clone, Copy, PartialEq, Eq, Structural)]
pub enum BuildPreset {
    /// Newest release, no multilib, `-O2`.
    Minimal,
    /// Newest release, multilib, `-Og`, verbose.
    Development,
    /// Newest release, static, `-O3`, generic tuning.
    Production,
    /// Quick to compile: `-O1`, not static, no multilib.
    Ci,
    /// Multilib, generic tuning, the newest three lines.
    Cross,
}

/// How thoroughly an installation is checked.
#[derive(Debug, Clone, Copy, PartialEq, Eq, Structural)]
pub enum VerifyLevel {
    Quick,
    Fast,
    Full,
}

/// The compiler flag for an optimization level.
pub open spec fn spec_level_flag(level: OptimizationLevel) -> Seq<char> {
    match level {
        OptimizationLevel::O0 => "-O0"@,
        OptimizationLevel::O1 => "-O1"@,
        OptimizationLevel::O2 => "-O2"@,
        OptimizationLevel::O3 => "-O3"@,
        OptimizationLevel::Fast => "-Ofast"@,
        OptimizationLevel::Debug => "-Og"@,
        OptimizationLevel::Size => "-Os"@,
    }
}

/// The level that a command-line word names.
pub open spec fn spec_level_of(word: Seq<char>) -> Option<OptimizationLevel> {
    if word == "0"@ {
        Some(OptimizationLevel::O0)
    } else if word == "1"@ {
        Some(OptimizationLevel::O1)
    } else if word == "2"@ {
        Some(OptimizationLevel::O2)
    } else if word == "3"@ {
        Some(OptimizationLevel::O3)
    } else if word == "fast"@ {
        Some(OptimizationLevel::Fast)
    } else if word == "g"@ {
        Some(OptimizationLevel::Debug)
    } else if word == "s"@ {
        Some(OptimizationLevel::Size)
    } else {
        None
    }
}

impl OptimizationLevel {
    /// The compiler flag for this level.
    pub fn as_str(&self) -> (res: &'static str)
        ensures
            res@ == spec_level_flag(*self),
    {
        match self {
            OptimizationLevel::O0 => "-O0",
            OptimizationLevel::O1 => "-O1",
            OptimizationLevel::O2 => "-O2",
            OptimizationLevel::O3 => "-O3",
            OptimizationLevel::Fast => "-Ofast",
            OptimizationLevel::Debug => "-Og",
            OptimizationLevel::Size => "-Os",
        }
    }

    /// The level that a command-line word names: one of 0, 1, 2, 3, fast, g, s.
    pub fn from_word(word: &str) -> (res: Option<OptimizationLevel>)
        ensures
            res == spec_level_of(word@),
            res is Some <==> crate::cli::spec_valid_optimization(word@),
    {
        if crate::text::str_eq(word, "0") {
            Some(OptimizationLevel::O0)
        } else if crate::text::str_eq(word, "1") {
            Some(OptimizationLevel::O1)
        } else if crate::text::str_eq(word, "2") {
            Some(OptimizationLevel::O2)
        } else if crate::text::str_eq(word, "3") {
            Some(OptimizationLevel::O3)
        } else if crate::text::str_eq(word, "fast") {
            Some(OptimizationLevel::Fast)
        } else if crate::text::str_eq(word, "g") {
            Some(OptimizationLevel::Debug)
        } else if crate::text::str_eq(word, "s") {
            Some(OptimizationLevel::Size)
        } else {
            None
        }
    }

    /// The megabytes of memory that a build at this level needs beyond the base.
    pub open spec fn spec_extra_ram_mb(&self) -> u64 {
        match self {
            OptimizationLevel::O0 => 0,
            OptimizationLevel::O1 => 200,
            OptimizationLevel::O2 => 500,
            OptimizationLevel::O3 => 800,
            OptimizationLevel::Fast => 1000,
            OptimizationLevel::Debug => 300,
            OptimizationLevel::Size => 200,
        }
    }

    /// The megabytes of memory that a build at this level needs beyond the base.
    pub fn extra_ram_mb(&self) -> (res: u64)
        ensures
            res == self.spec_extra_ram_mb(),
    {
        match self {
            OptimizationLevel::O0 => 0,
            OptimizationLevel::O1 => 200,
            OptimizationLevel::O2 => 500,
            OptimizationLevel::O3 => 800,
            OptimizationLevel::Fast => 1000,
            OptimizationLevel::Debug => 300,
            OptimizationLevel::Size => 200,
        }
    }
}

/// The full set of options of one run.
#[derive(Debug)]
pub struct Args {
    pub debug: bool,
    pub dry_run: bool,
    pub enable_multilib: bool,
    pub static_build: bool,
    pub generic: bool,
    pub keep_build_dir: bool,
    pub log_file: Option<String>,
    pub optimization: OptimizationLevel,
    pub prefix: Option<String>,
    pub save_binaries: bool,
    pub verbose: bool,
    pub versions: Option<String>,
    pub latest: bool,
    pub all_supported: bool,
    pub preset: Option<BuildPreset>,
    pub jobs: Option<usize>,
    pub build_dir: Option<String>,
    pub max_retries: usize,
    pub download_timeout: u64,
    pub skip_checksum: bool,
    pub force_rebuild: bool,
}

/// What `Args::validate` owes: success for valid options, else the first
/// complaint in the order saving without a static build, relative prefix,
/// relative build directory, no jobs.
pub open spec fn spec_validate_message(a: Args) -> Option<Seq<char>> {
    if a.save_binaries && !a.static_build {
        Some("The --save-binaries option can only be used with --static-build"@)
    } else if a.prefix is Some && !spec_is_absolute(a.prefix->0@) {
        Some("Prefix must be an absolute path"@)
    } else if a.build_dir is Some && !spec_is_absolute(a.build_dir->0@) {
        Some("Build directory must be an absolute path"@)
    } else if a.jobs == Some(0usize) {
        Some("Number of jobs must be greater than 0"@)
    } else {
        None
    }
}

/// The version specification that the options stand for.
pub open spec fn spec_versions_string(a: Args) -> Seq<char> {
    match a.preset {
        Some(BuildPreset::Cross) => "13-15"@,
        Some(_) => "latest"@,
        None => if a.latest {
            "latest"@
        } else if a.all_supported {
            "10-15"@
        } else {
            match a.versions {
                Some(v) => v@,
                None => Seq::<char>::empty(),
            }
        },
    }
}

/// The options after the chosen preset has fixed what it fixes: the
/// multilib switch, the optimization level, the static switch, the tuning
/// and, for one preset, verbosity. Without a preset nothing changes.
pub open spec fn spec_with_preset(a: Args) -> Args {
    match a.preset {
        Some(BuildPreset::Minimal) => Args {
            enable_multilib: false,
            optimization: OptimizationLevel::O2,
            static_build: false,
            ..a
        },
        Some(BuildPreset::Development) => Args {
            enable_multilib: true,
            optimization: OptimizationLevel::Debug,
            static_build: false,
            verbose: true,
            ..a
        },
        Some(BuildPreset::Production) => Args {
            static_build: true,
            optimization: OptimizationLevel::O3,
            generic: true,
            enable_multilib: false,
            ..a
        },
        Some(BuildPreset::Ci) => Args {
            optimization: OptimizationLevel::O1,
            static_build: false,
            enable_multilib: false,
            ..a
        },
        Some(BuildPreset::Cross) => Args {
            enable_multilib: true,
            generic: true,
            optimization: OptimizationLevel::O2,
            ..a
        },
        None => a,
    }
}

impl Args {
    /// Checks the options.
    pub fn validate(&self) -> (res: Result<(), String>)
        ensures
            res is Ok <==> spec_validate_message(*self) is None,
            res matches Err(m) ==> Some(m@) == spec_validate_message(*self),
    {
        if self.save_binaries && !self.static_build {
            return Err(
                "The --save-binaries option can only be used with --static-build".to_owned(),
            );
        }
        match &self.prefix {
            Some(p) => {
                if !is_absolute(p.as_str()) {
                    return Err("Prefix must be an absolute path".to_owned());
                }
            },
            None => {},
        }
        match &self.build_dir {
            Some(d) => {
                if !is_absolute(d.as_str()) {
                    return Err("Build directory must be an absolute path".to_owned());
                }
            },
            None => {},
        }
        match self.jobs {
            Some(j) => {
                if j == 0 {
                    return Err("Number of jobs must be greater than 0".to_owned());
                }
            },
            None => {},
        }
        Ok(())
    }

    /// The version specification that the options stand for.
    pub fn get_versions_string(&self) -> (res: String)
        ensures
            res@ == spec_versions_string(*self),
    {
        match self.preset {
            Some(BuildPreset::Cross) => "13-15".to_owned(),
            Some(_) => "latest".to_owned(),
            None => {
                if self.latest {
                    "latest".to_owned()
                } else if self.all_supported {
                    "10-15".to_owned()
                } else {
                    match &self.versions {
                        Some(v) => v.clone(),
                        None => String::new(),
                    }
                }
            },
        }
    }

    /// Sets the options that the chosen preset fixes; the others stay.
    pub fn apply_preset(&mut self)
        ensures
            *final(self) == spec_with_preset(*old(self)),
    {
        let preset = self.preset;
        let multilib: bool = match preset {
            Some(BuildPreset::Development) => true,
            Some(BuildPreset::Cross) => true,
            Some(_) => false,
            None => self.enable_multilib,
        };
        let level: OptimizationLevel = match preset {
            Some(BuildPreset::Minimal) => OptimizationLevel::O2,
            Some(BuildPreset::Development) => OptimizationLevel::Debug,
            Some(BuildPreset::Production) => OptimizationLevel::O3,
            Some(BuildPreset::Ci) => OptimizationLevel::O1,
            Some(BuildPreset::Cross) => OptimizationLevel::O2,
            None => self.optimization,
        };
        let is_static: bool = match preset {
            Some(BuildPreset::Production) => true,
            Some(BuildPreset::Cross) => self.static_build,
            Some(_) => false,
            None => self.static_build,
        };
        let generic: bool = match preset {
            Some(BuildPreset::Production) => true,
            Some(BuildPreset::Cross) => true,
            _ => self.generic,
        };
        let verbose: bool = match preset {
            Some(BuildPreset::Development) => true,
            _ => self.verbose,
        };
        self.enable_multilib = multilib;
        self.optimization = level;
        self.static_build = is_static;
        self.generic = generic;
        self.verbose = verbose;
    }
}

} // verus!
