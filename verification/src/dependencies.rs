use vstd::prelude::*;
use vstd::string::StringExecFns;
use crate::error::BuildError;
use crate::scan::{lines, spec_lines};
use crate::text::{
    chars_of,
    contains,
    find,
    join,
    push_str,
    push_string,
    slice,
    spec_contains,
    spec_first_offset,
    spec_join,
    str_eq,
    string_views,
    views,
};

verus! {

/// The programs without which nothing can be built.
pub open spec fn spec_required_tools() -> Seq<Seq<char>> {
    seq!["gcc"@, "g++"@, "make"@, "tar"@, "wget"@, "curl"@]
}

/// The system packages that a build needs.
pub open spec fn spec_required_packages() -> Seq<Seq<char>> {
    seq![
        "build-essential"@,
        "binutils"@,
        "gawk"@,
        "m4"@,
        "flex"@,
        "bison"@,
        "texinfo"@,
        "patch"@,
        "curl"@,
        "wget"@,
        "ca-certificates"@,
        "ccache"@,
        "libtool"@,
        "libtool-bin"@,
        "autoconf"@,
        "automake"@,
        "zlib1g-dev"@,
        "libisl-dev"@,
        "libzstd-dev"@,
    ]
}

/// The packages that a build needs: the usual ones, and the 32-bit
/// development files for a multilib build on a 64-bit x86 machine.
pub open spec fn spec_packages_for(enable_multilib: bool, target_arch: Seq<char>) -> Seq<Seq<char>> {
    if enable_multilib && target_arch == "x86_64-linux-gnu"@ {
        spec_required_packages().push("libc6-dev-i386"@)
    } else {
        spec_required_packages()
    }
}

/// Whether a line of the package database says that `package` is
/// installed: the name, a tab, and a status that holds `ok installed`.
#[verifier::opaque]
pub open spec fn spec_line_installs(line: Seq<char>, package: Seq<char>) -> bool {
    spec_contains(line, seq!['\t']) && line.take(spec_first_offset(line, seq!['\t'])) == package
        && spec_contains(line.skip(spec_first_offset(line, seq!['\t']) + 1), "ok installed"@)
}

/// Whether the package database says that `package` is installed.
pub open spec fn spec_is_installed(database: Seq<char>, package: Seq<char>) -> bool {
    exists|i: int|
        0 <= i < spec_lines(database).len() && #[trigger] spec_line_installs(
            spec_lines(database)[i],
            package,
        )
}

/// The programs without which nothing can be built.
pub fn required_tools() -> (res: Vec<String>)
    ensures
        string_views(res@) == spec_required_tools(),
{
    let mut tools: Vec<String> = Vec::new();
    assert(string_views(tools@) =~= Seq::<Seq<char>>::empty());
    push_str(&mut tools, "gcc");
    push_str(&mut tools, "g++");
    push_str(&mut tools, "make");
    push_str(&mut tools, "tar");
    push_str(&mut tools, "wget");
    push_str(&mut tools, "curl");
    tools
}

/// Checks that the programs without which nothing can be built are at
/// hand. `present` tells of each of `required_tools`, in order, whether it
/// was found. The first that is missing is reported.
pub fn check_build_tools(present: &Vec<bool>) -> (res: Result<(), BuildError>)
    requires
        present@.len() == spec_required_tools().len(),
    ensures
        res is Ok <==> forall|i: int| 0 <= i < present@.len() ==> present@[i],
        res matches Err(e) ==> e matches BuildError::MissingDependency { package } && exists|
            i: int,
        |
            0 <= i < present@.len() && !present@[i] && package@ == #[trigger] spec_required_tools()[i]
                && forall|j: int| 0 <= j < i ==> present@[j],
{
    let tools = required_tools();
    assert(string_views(tools@).len() == tools@.len());
    let mut i: usize = 0;
    while i < present.len()
        invariant
            i <= present.len(),
            present@.len() == tools@.len(),
            string_views(tools@) == spec_required_tools(),
            forall|j: int| 0 <= j < i ==> present@[j],
        decreases present.len() - i,
    {
        if !present[i] {
            assert(string_views(tools@)[i as int] == tools@[i as int]@);
            let r: Result<(), BuildError> = Err(
                BuildError::MissingDependency { package: tools[i].clone() },
            );
            assert(r matches Err(BuildError::MissingDependency { package }) && package@
                == spec_required_tools()[i as int]);
            return r;
        }
        i += 1;
    }
    Ok(())
}

/// The packages that a build needs.
pub fn required_packages(enable_multilib: bool, target_arch: &str) -> (res: Vec<String>)
    ensures
        string_views(res@) == spec_packages_for(enable_multilib, target_arch@),
{
    let mut p: Vec<String> = Vec::new();
    assert(string_views(p@) =~= Seq::<Seq<char>>::empty());
    push_str(&mut p, "build-essential");
    push_str(&mut p, "binutils");
    push_str(&mut p, "gawk");
    push_str(&mut p, "m4");
    push_str(&mut p, "flex");
    push_str(&mut p, "bison");
    push_str(&mut p, "texinfo");
    push_str(&mut p, "patch");
    push_str(&mut p, "curl");
    push_str(&mut p, "wget");
    push_str(&mut p, "ca-certificates");
    push_str(&mut p, "ccache");
    push_str(&mut p, "libtool");
    push_str(&mut p, "libtool-bin");
    push_str(&mut p, "autoconf");
    push_str(&mut p, "automake");
    push_str(&mut p, "zlib1g-dev");
    push_str(&mut p, "libisl-dev");
    push_str(&mut p, "libzstd-dev");
    assert(string_views(p@) =~= spec_required_packages());
    if enable_multilib && str_eq(target_arch, "x86_64-linux-gnu") {
        push_str(&mut p, "libc6-dev-i386");
    }
    p
}

/// Whether a line of the package database says that `package` is installed.
pub fn line_installs(line: &Vec<char>, package: &Vec<char>) -> (res: bool)
    ensures
        res == spec_line_installs(line@, package@),
{
    reveal(spec_line_installs);
    let mut tab: Vec<char> = Vec::new();
    tab.push('\t');
    assert(tab@ =~= seq!['\t']);
    assert(tab@.len() == 1);
    match find(line, &tab) {
        Some(i) => {
            assert(i + 1 <= line.len());
            let name = slice(line, 0, i);
            assert(name@ == line@.take(i as int));
            if !crate::text::chars_eq(&name, package) {
                return false;
            }
            let status = slice(line, i + 1, line.len());
            assert(status@ == line@.skip(i + 1));
            let mark = chars_of("ok installed");
            contains(&status, &mark)
        },
        None => false,
    }
}

/// Whether the package database says that `package` is installed.
pub fn is_installed(database: &Vec<Vec<char>>, package: &str) -> (res: bool)
    ensures
        res == exists|i: int|
            0 <= i < database@.len() && #[trigger] spec_line_installs(views(database@)[i], package@),
{
    let name = chars_of(package);
    let mut i: usize = 0;
    while i < database.len()
        invariant
            i <= database.len(),
            name@ == package@,
            forall|j: int|
                0 <= j < i ==> !#[trigger] spec_line_installs(views(database@)[j], package@),
        decreases database.len() - i,
    {
        assert(views(database@)[i as int] == database@[i as int]@);
        if line_installs(&database[i], &name) {
            return true;
        }
        i += 1;
    }
    false
}

/// The packages among `required` that the package database does not
/// report as installed, in their order.
pub fn missing_packages(required: &Vec<String>, database: &str) -> (res: Vec<String>)
    ensures
        string_views(res@) == spec_missing(string_views(required@), database@, required@.len() as int),
{
    let db = lines(&chars_of(database));
    let ghost ls = spec_lines(database@);
    let mut out: Vec<String> = Vec::new();
    assert(string_views(out@) =~= Seq::<Seq<char>>::empty());
    let mut i: usize = 0;
    while i < required.len()
        invariant
            i <= required.len(),
            views(db@) == ls,
            ls == spec_lines(database@),
            string_views(out@) == spec_missing(string_views(required@), database@, i as int),
        decreases required.len() - i,
    {
        assert(string_views(required@)[i as int] == required@[i as int]@);
        let installed = is_installed(&db, required[i].as_str());
        assert(installed == spec_is_installed(database@, required@[i as int]@)) by {
            assert(views(db@).len() == db@.len());
        }
        if !installed {
            push_string(&mut out, required[i].clone());
        }
        i += 1;
    }
    out
}

/// The packages among the first `k` of `required` that are not installed.
pub open spec fn spec_missing(required: Seq<Seq<char>>, database: Seq<char>, k: int) -> Seq<Seq<char>>
    decreases k,
{
    if k <= 0 {
        Seq::empty()
    } else if spec_is_installed(database, required[k - 1]) {
        spec_missing(required, database, k - 1)
    } else {
        spec_missing(required, database, k - 1).push(required[k - 1])
    }
}

/// The arguments with which `apt-get` installs packages.
pub fn install_arguments(packages: &Vec<String>) -> (res: Vec<String>)
    ensures
        string_views(res@) == seq!["install"@, "-y"@, "--no-install-recommends"@] + string_views(
            packages@,
        ),
{
    let mut args: Vec<String> = Vec::new();
    assert(string_views(args@) =~= Seq::<Seq<char>>::empty());
    push_str(&mut args, "install");
    push_str(&mut args, "-y");
    push_str(&mut args, "--no-install-recommends");
    let ghost head = string_views(args@);
    let mut i: usize = 0;
    while i < packages.len()
        invariant
            i <= packages.len(),
            head == seq!["install"@, "-y"@, "--no-install-recommends"@],
            string_views(args@) == head + string_views(packages@).take(i as int),
        decreases packages.len() - i,
    {
        push_string(&mut args, packages[i].clone());
        assert(string_views(packages@).take(i + 1) =~= string_views(packages@).take(
            i as int,
        ).push(packages@[i as int]@));
        i += 1;
    }
    assert(string_views(packages@).take(packages.len() as int) == string_views(packages@));
    args
}

/// What is done about system packages.
#[derive(Debug, Clone, Copy, PartialEq, Eq, Structural)]
pub enum InstallPlan {
    /// Nothing is missing.
    NothingMissing,
    /// Packages are missing, but a dry run installs nothing.
    DryRun,
    /// The package lists are updated and the missing packages installed.
    Install,
}

/// What is done about system packages, given how many are missing.
pub fn install_dependencies(missing_count: usize, dry_run: bool) -> (res: InstallPlan)
    ensures
        res == (if missing_count == 0 {
            InstallPlan::NothingMissing
        } else if dry_run {
            InstallPlan::DryRun
        } else {
            InstallPlan::Install
        }),
{
    if missing_count == 0 {
        InstallPlan::NothingMissing
    } else if dry_run {
        InstallPlan::DryRun
    } else {
        InstallPlan::Install
    }
}

/// What updating the package lists came to.
pub fn update_result(succeeded: bool) -> (res: Result<(), BuildError>)
    ensures
        res is Ok <==> succeeded,
        res matches Err(e) ==> e matches BuildError::DependencyInstall { message } && message@
            == "Failed to update package lists (apt-get update)"@,
{
    if succeeded {
        Ok(())
    } else {
        let e = BuildError::DependencyInstall {
            message: "Failed to update package lists (apt-get update)".to_owned(),
        };
        assert(e matches BuildError::DependencyInstall { message } && message@
            == "Failed to update package lists (apt-get update)"@);
        Err(e)
    }
}

/// What is said when the installation of packages has failed.
pub open spec fn spec_install_complaint(missing: Seq<Seq<char>>, complaint: Seq<char>) -> Seq<char> {
    "Failed to install packages: "@ + spec_join(missing, ", "@) + ". Error: "@ + complaint
}

/// What installing the missing packages came to: the error that names
/// them and carries the complaint of the installer where it failed.
pub fn installation_result(succeeded: bool, missing: &Vec<String>, complaint: &str) -> (res: Result<
    (),
    BuildError,
>)
    ensures
        res is Ok <==> succeeded,
        res matches Err(e) ==> e matches BuildError::DependencyInstall { message } && message@
            == spec_install_complaint(string_views(missing@), complaint@),
{
    if succeeded {
        return Ok(());
    }
    let mut message = "Failed to install packages: ".to_owned();
    let names = join(missing, ", ");
    message.append(names.as_str());
    message.append(". Error: ");
    message.append(complaint);
    let e = BuildError::DependencyInstall { message };
    assert(e matches BuildError::DependencyInstall { message: m } && m@ == spec_install_complaint(
        string_views(missing@),
        complaint@,
    ));
    Err(e)
}

} // verus!
