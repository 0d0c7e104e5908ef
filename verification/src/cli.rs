use vstd::prelude::*;
use crate::text::str_eq;

verus! {

/// The command-line arguments of the build tool.
#[derive(Debug)]
pub struct Args {
    /// Versions to build, such as `12,13,14`, `11-14` or `13`.
    pub versions: Option<String>,
    pub debug: bool,
    pub dry_run: bool,
    pub enable_multilib: bool,
    pub static_build: bool,
    pub generic: bool,
    pub keep_build_dir: bool,
    pub log_file: Option<String>,
    /// Optimization level: one of 0, 1, 2, 3, fast, g, s.
    pub optimization: String,
    /// Installation prefix; where none is given, a directory per version
    /// under the default base.
    pub prefix: Option<String>,
    /// Save the static binaries; needs `static_build`.
    pub save: bool,
    pub verbose: bool,
    /// How many versions are built at the same time.
    pub parallel: usize,
}

/// Why a set of arguments is refused.
#[derive(Debug)]
pub enum ArgsError {
    InvalidOptimization { level: String },
    SaveWithoutStatic,
    RelativePrefix { prefix: String },
    ZeroParallel,
}

/// Whether `level` is one of the optimization levels that are accepted.
pub open spec fn spec_valid_optimization(level: Seq<char>) -> bool {
    level == "0"@ || level == "1"@ || level == "2"@ || level == "3"@ || level == "fast"@ || level
        == "g"@ || level == "s"@
}

/// Whether `path` is absolute: it begins with a slash.
pub open spec fn spec_is_absolute(path: Seq<char>) -> bool {
    path.len() > 0 && path[0] == '/'
}

/// Whether `level` is one of the optimization levels that are accepted.
pub fn valid_optimization(level: &str) -> (res: bool)
    ensures
        res == spec_valid_optimization(level@),
{
    str_eq(level, "0") || str_eq(level, "1") || str_eq(level, "2") || str_eq(level, "3") || str_eq(
        level,
        "fast",
    ) || str_eq(level, "g") || str_eq(level, "s")
}

/// Whether `path` is absolute.
pub fn is_absolute(path: &str) -> (res: bool)
    ensures
        res == spec_is_absolute(path@),
{
    let p = crate::text::chars_of(path);
    p.len() > 0 && p[0] == '/'
}

impl Args {
    /// Whether the arguments are accepted.
    pub open spec fn spec_valid(&self) -> bool {
        &&& spec_valid_optimization(self.optimization@)
        &&& (self.save ==> self.static_build)
        &&& (self.prefix matches Some(p) ==> spec_is_absolute(p@))
        &&& self.parallel >= 1
    }

    /// What `validate` owes: success exactly for valid arguments, else the
    /// first complaint in the order optimization level, saving without a
    /// static build, relative prefix, no parallelism.
    pub open spec fn spec_validate(&self, res: Result<(), ArgsError>) -> bool {
        if !spec_valid_optimization(self.optimization@) {
            res matches Err(ArgsError::InvalidOptimization { level }) && level@
                == self.optimization@
        } else if self.save && !self.static_build {
            res matches Err(ArgsError::SaveWithoutStatic)
        } else if self.prefix is Some && !spec_is_absolute(self.prefix->0@) {
            res matches Err(ArgsError::RelativePrefix { prefix }) && prefix@ == self.prefix->0@
        } else if self.parallel == 0 {
            res matches Err(ArgsError::ZeroParallel)
        } else {
            res is Ok
        }
    }

    /// Checks the arguments.
    pub fn validate(&self) -> (res: Result<(), ArgsError>)
        ensures
            self.spec_validate(res),
            res is Ok <==> self.spec_valid(),
    {
        if !valid_optimization(self.optimization.as_str()) {
            let r: Result<(), ArgsError> = Err(
                ArgsError::InvalidOptimization { level: self.optimization.clone() },
            );
            assert(r matches Err(ArgsError::InvalidOptimization { level }) && level@
                == self.optimization@);
            return r;
        }
        if self.save && !self.static_build {
            return Err(ArgsError::SaveWithoutStatic);
        }
        match &self.prefix {
            Some(p) => {
                if !is_absolute(p.as_str()) {
                    let r: Result<(), ArgsError> = Err(
                        ArgsError::RelativePrefix { prefix: p.clone() },
                    );
                    assert(r matches Err(ArgsError::RelativePrefix { prefix }) && prefix@ == p@);
                    return r;
                }
            },
            None => {},
        }
        if self.parallel == 0 {
            return Err(ArgsError::ZeroParallel);
        }
        Ok(())
    }
}

/// The text that tells the user why the arguments are refused.
pub open spec fn spec_args_error_message(e: ArgsError) -> Seq<char> {
    match e {
        ArgsError::InvalidOptimization { level } => "Invalid optimization level: "@ + level@
            + ". Valid values are: 0, 1, 2, 3, fast, g, s"@,
        ArgsError::SaveWithoutStatic => "The --save option can only be used with --static"@,
        ArgsError::RelativePrefix { prefix } =>
            "Prefix must be an absolute path starting with '/'. Value: "@ + prefix@,
        ArgsError::ZeroParallel => "--parallel must be at least 1"@,
    }
}

impl ArgsError {
    /// The text that tells the user why the arguments are refused.
    pub fn message(&self) -> (res: String)
        ensures
            res@ == spec_args_error_message(*self),
    {
        match self {
            ArgsError::InvalidOptimization { level } => {
                let mut s = "Invalid optimization level: ".to_owned();
                vstd::string::StringExecFns::append(&mut s, level.as_str());
                vstd::string::StringExecFns::append(
                    &mut s,
                    ". Valid values are: 0, 1, 2, 3, fast, g, s",
                );
                s
            },
            ArgsError::SaveWithoutStatic => "The --save option can only be used with --static".to_owned(),
            ArgsError::RelativePrefix { prefix } => {
                let mut s = "Prefix must be an absolute path starting with '/'. Value: ".to_owned();
                vstd::string::StringExecFns::append(&mut s, prefix.as_str());
                s
            },
            ArgsError::ZeroParallel => "--parallel must be at least 1".to_owned(),
        }
    }
}

} // verus!
