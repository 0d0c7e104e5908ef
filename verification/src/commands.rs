use vstd::prelude::*;
use vstd::string::StringExecFns;
use crate::error::BuildError;
use crate::integrity::MIN_DOWNLOAD_BYTES;
use crate::text::{
    join,
    push_str,
    push_string,
    spec_contains,
    spec_join,
    str_contains,
    str_eq,
    string_views,
};

verus! {

/// Runs programs, or in a dry run only says what it would run.
#[derive(Debug)]
pub struct CommandExecutor {
    pub dry_run: bool,
    pub verbose: bool,
    /// Variables that are set for the programs.
    pub env_vars: Vec<(String, String)>,
    /// The directory in which the programs run.
    pub working_dir: Option<String>,
}

/// A program and its arguments.
#[derive(Debug)]
pub struct Invocation {
    pub program: String,
    pub args: Vec<String>,
}

/// A command as it is shown: the program and its arguments with blanks between.
pub open spec fn spec_command_line(program: Seq<char>, args: Seq<Seq<char>>) -> Seq<char> {
    program + " "@ + spec_join(args, " "@)
}

/// What is run to run `program` as `user`: the program itself for the
/// user who runs the build, `sudo` for the superuser, and `sudo -u` for
/// anyone else.
pub open spec fn spec_run_as(user: Seq<char>, program: Seq<char>, args: Seq<Seq<char>>) -> (
    Seq<char>,
    Seq<Seq<char>>,
) {
    if user == "sudo"@ || user == "root"@ {
        ("sudo"@, seq![program] + args)
    } else if user == "user"@ || user.len() == 0 {
        (program, args)
    } else {
        ("sudo"@, seq!["-u"@, user, program] + args)
    }
}

/// Whether some argument holds `needle`.
pub open spec fn spec_any_contains(args: Seq<Seq<char>>, needle: Seq<char>) -> bool {
    exists|i: int| 0 <= i < args.len() && spec_contains(#[trigger] args[i], needle)
}

/// Whether a command that reads its output is run even in a dry run: the
/// lookup of the releases is, for it changes nothing and the plan needs it.
pub open spec fn spec_reads_releases(program: Seq<char>, args: Seq<Seq<char>>) -> bool {
    program == "bash"@ && spec_any_contains(args, "curl -fsSL https://ftp.gnu.org/gnu/gcc/"@)
}

/// The arguments with which `wget` fetches `url` into `output_path`.
pub open spec fn spec_wget_arguments(url: Seq<char>, output_path: Seq<char>) -> Seq<Seq<char>> {
    seq![
        "--progress=bar:force:noscroll"@,
        "--timeout=60"@,
        "--continue"@,
        "--output-document"@,
        output_path,
        url,
    ]
}

/// A command as it is shown.
pub fn command_line(program: &str, args: &Vec<String>) -> (res: String)
    ensures
        res@ == spec_command_line(program@, string_views(args@)),
{
    let mut line = program.to_owned();
    line.append(" ");
    let joined = join(args, " ");
    line.append(joined.as_str());
    line
}

impl CommandExecutor {
    /// An executor without variables and without a working directory.
    pub fn new(dry_run: bool, verbose: bool) -> (res: Self)
        ensures
            res.dry_run == dry_run,
            res.verbose == verbose,
            res.env_vars@.len() == 0,
            res.working_dir is None,
    {
        CommandExecutor { dry_run, verbose, env_vars: Vec::new(), working_dir: None }
    }

    /// The executor with these variables in place of those it had.
    pub fn with_env_vars(self, env_vars: Vec<(String, String)>) -> (res: Self)
        ensures
            res.env_vars == env_vars,
            res.dry_run == self.dry_run,
            res.verbose == self.verbose,
            res.working_dir == self.working_dir,
    {
        CommandExecutor {
            dry_run: self.dry_run,
            verbose: self.verbose,
            env_vars,
            working_dir: self.working_dir,
        }
    }

    /// The executor with this working directory.
    pub fn with_working_dir(self, dir: &str) -> (res: Self)
        ensures
            res.working_dir matches Some(d) && d@ == dir@,
            res.dry_run == self.dry_run,
            res.verbose == self.verbose,
            res.env_vars == self.env_vars,
    {
        let r = CommandExecutor {
            dry_run: self.dry_run,
            verbose: self.verbose,
            env_vars: self.env_vars,
            working_dir: Some(dir.to_owned()),
        };
        assert(r.working_dir matches Some(d) && d@ == dir@);
        r
    }

    /// Whether a command is run: it is not in a dry run.
    pub fn execute(&self) -> (res: bool)
        ensures
            res == !self.dry_run,
    {
        !self.dry_run
    }

    /// Whether a command whose output is read is run.
    pub fn execute_with_output(&self, program: &str, args: &Vec<String>) -> (res: bool)
        ensures
            res == (!self.dry_run || spec_reads_releases(program@, string_views(args@))),
    {
        if !self.dry_run {
            return true;
        }
        if !str_eq(program, "bash") {
            return false;
        }
        let mut i: usize = 0;
        while i < args.len()
            invariant
                i <= args.len(),
                self.dry_run,
                program@ == "bash"@,
                forall|j: int|
                    0 <= j < i ==> !spec_contains(
                        #[trigger] string_views(args@)[j],
                        "curl -fsSL https://ftp.gnu.org/gnu/gcc/"@,
                    ),
            decreases args.len() - i,
        {
            assert(string_views(args@)[i as int] == args@[i as int]@);
            if str_contains(args[i].as_str(), "curl -fsSL https://ftp.gnu.org/gnu/gcc/") {
                assert(spec_any_contains(
                    string_views(args@),
                    "curl -fsSL https://ftp.gnu.org/gnu/gcc/"@,
                ));
                return true;
            }
            i += 1;
        }
        false
    }

    /// What is run to run `program` with `args` as `user`.
    pub fn execute_as(&self, user: &str, program: &str, args: &Vec<String>) -> (res: Invocation)
        ensures
            (res.program@, string_views(res.args@)) == spec_run_as(
                user@,
                program@,
                string_views(args@),
            ),
    {
        let mut out: Vec<String> = Vec::new();
        assert(string_views(out@) =~= Seq::<Seq<char>>::empty());
        let name: String;
        if str_eq(user, "sudo") || str_eq(user, "root") {
            name = "sudo".to_owned();
            push_str(&mut out, program);
        } else if str_eq(user, "user") || crate::text::chars_of(user).len() == 0 {
            name = program.to_owned();
        } else {
            name = "sudo".to_owned();
            push_str(&mut out, "-u");
            push_str(&mut out, user);
            push_str(&mut out, program);
        }
        let ghost head = string_views(out@);
        let mut i: usize = 0;
        while i < args.len()
            invariant
                i <= args.len(),
                string_views(out@) == head + string_views(args@).take(i as int),
            decreases args.len() - i,
        {
            push_string(&mut out, args[i].clone());
            assert(string_views(args@).take(i + 1) =~= string_views(args@).take(i as int).push(
                args@[i as int]@,
            ));
            i += 1;
        }
        assert(string_views(args@).take(args.len() as int) == string_views(args@));
        Invocation { program: name, args: out }
    }

    /// Whether a command that failed at attempt number `attempt` is run again.
    pub fn execute_with_retry(&self, attempt: usize, max_attempts: usize) -> (res: bool)
        ensures
            res == (attempt < max_attempts),
    {
        attempt < max_attempts
    }

    /// The arguments with which `wget` fetches `url` into `output_path`.
    pub fn download_file(&self, url: &str, output_path: &str) -> (res: Vec<String>)
        ensures
            string_views(res@) == spec_wget_arguments(url@, output_path@),
    {
        let mut args: Vec<String> = Vec::new();
        assert(string_views(args@) =~= Seq::<Seq<char>>::empty());
        push_str(&mut args, "--progress=bar:force:noscroll");
        push_str(&mut args, "--timeout=60");
        push_str(&mut args, "--continue");
        push_str(&mut args, "--output-document");
        push_str(&mut args, output_path);
        push_str(&mut args, url);
        args
    }
}

/// What a download that `wget` reported as done comes to: it is accepted
/// only if the file is there and larger than ten megabytes.
pub fn check_download(url: &str, size: Option<u64>) -> (res: Result<(), BuildError>)
    ensures
        res is Ok <==> size is Some && size->0 > MIN_DOWNLOAD_BYTES,
        res matches Err(e) ==> e matches BuildError::Download { url: u, message: m } && u@ == url@
            && m@ == (if size is Some {
            "Downloaded file too small"@
        } else {
            "Downloaded file is missing"@
        }),
{
    match size {
        Some(n) => {
            if n > MIN_DOWNLOAD_BYTES {
                Ok(())
            } else {
                let r: Result<(), BuildError> = Err(
                    BuildError::Download {
                        url: url.to_owned(),
                        message: "Downloaded file too small".to_owned(),
                    },
                );
                assert(r matches Err(BuildError::Download { url: u, message: m }) && u@ == url@
                    && m@ == "Downloaded file too small"@);
                r
            }
        },
        None => {
            let r: Result<(), BuildError> = Err(
                BuildError::Download {
                    url: url.to_owned(),
                    message: "Downloaded file is missing".to_owned(),
                },
            );
            assert(r matches Err(BuildError::Download { url: u, message: m }) && u@ == url@ && m@
                == "Downloaded file is missing"@);
            r
        },
    }
}

/// What a program that has ended comes to: it succeeded exactly if it
/// left with status zero.
pub fn command_result(command: &str, exit_code: Option<i32>) -> (res: Result<(), BuildError>)
    ensures
        res is Ok <==> exit_code == Some(0i32),
        res matches Err(e) ==> e matches BuildError::CommandFailed { command: c } && c@ == command@,
{
    match exit_code {
        Some(0) => Ok(()),
        _ => {
            let r: Result<(), BuildError> = Err(
                BuildError::CommandFailed { command: command.to_owned() },
            );
            assert(r matches Err(BuildError::CommandFailed { command: c }) && c@ == command@);
            r
        },
    }
}

/// What several commands that ran side by side come to: an error where
/// one of them failed.
pub fn execute_parallel(succeeded: &Vec<bool>) -> (res: Result<(), BuildError>)
    ensures
        res is Ok <==> forall|i: int| 0 <= i < succeeded@.len() ==> succeeded@[i],
        res matches Err(e) ==> e matches BuildError::CommandFailed { command } && command@
            == "Parallel execution"@,
{
    let mut i: usize = 0;
    while i < succeeded.len()
        invariant
            i <= succeeded.len(),
            forall|j: int| 0 <= j < i ==> succeeded@[j],
        decreases succeeded.len() - i,
    {
        if !succeeded[i] {
            let r: Result<(), BuildError> = Err(
                BuildError::CommandFailed { command: "Parallel execution".to_owned() },
            );
            assert(r matches Err(BuildError::CommandFailed { command }) && command@
                == "Parallel execution"@);
            return r;
        }
        i += 1;
    }
    Ok(())
}

} // verus!
