use vstd::prelude::*;
use crate::scan::{lines, spec_lines};
use crate::text::{
    chars_of,
    contains,
    push_string,
    spec_contains,
    spec_starts_with,
    starts_with,
    string_views,
    views,
};

verus! {

/// Which of the packages asked about are installed and which are not.
#[derive(Debug)]
pub struct PackageStatus {
    pub installed: Vec<String>,
    pub missing: Vec<String>,
}

/// What the package database tells of one package.
#[derive(Debug)]
pub struct PackageInfo {
    pub name: String,
    pub version: String,
    pub description: String,
    /// Installed size in bytes.
    pub size: u64,
    pub dependencies: Vec<String>,
}

/// Whether a line of the output of `dpkg-query` reports `package` as
/// installed: it begins with the name and a blank and holds `ok installed`.
pub open spec fn spec_reports_installed(line: Seq<char>, package: Seq<char>) -> bool {
    spec_starts_with(line, package + " "@) && spec_contains(line, "ok installed"@)
}

/// Whether one of the first `k` lines reports `package` as installed.
pub open spec fn spec_reported(all: Seq<Seq<char>>, package: Seq<char>, k: int) -> bool
    decreases k,
{
    if k <= 0 {
        false
    } else {
        spec_reported(all, package, k - 1) || spec_reports_installed(all[k - 1], package)
    }
}

/// The packages among the first `k` that are reported as installed, or
/// those that are not, in their order.
pub open spec fn spec_select(
    packages: Seq<Seq<char>>,
    all: Seq<Seq<char>>,
    installed: bool,
    k: int,
) -> Seq<Seq<char>>
    decreases k,
{
    if k <= 0 {
        Seq::empty()
    } else if spec_reported(all, packages[k - 1], all.len() as int) == installed {
        spec_select(packages, all, installed, k - 1).push(packages[k - 1])
    } else {
        spec_select(packages, all, installed, k - 1)
    }
}

/// Whether the output of `dpkg-query` reports `package` as installed.
pub fn reported(all: &Vec<Vec<char>>, package: &str) -> (res: bool)
    ensures
        res == spec_reported(views(all@), package@, all@.len() as int),
{
    let mut head = chars_of(package);
    head.push(' ');
    assert(head@ =~= package@ + " "@) by {
        reveal_strlit(" ");
    }
    let mark = chars_of("ok installed");
    let mut found = false;
    let mut i: usize = 0;
    while i < all.len()
        invariant
            i <= all.len(),
            head@ == package@ + " "@,
            mark@ == "ok installed"@,
            found == spec_reported(views(all@), package@, i as int),
        decreases all.len() - i,
    {
        assert(views(all@)[i as int] == all@[i as int]@);
        if starts_with(&all[i], &head) && contains(&all[i], &mark) {
            found = true;
        }
        i += 1;
    }
    found
}

/// Sorts packages into those that the output of `dpkg-query` reports as
/// installed and those that it does not.
pub fn check_packages_installed(packages: &Vec<String>, dpkg_output: &str) -> (res: PackageStatus)
    ensures
        string_views(res.installed@) == spec_select(
            string_views(packages@),
            spec_lines(dpkg_output@),
            true,
            packages@.len() as int,
        ),
        string_views(res.missing@) == spec_select(
            string_views(packages@),
            spec_lines(dpkg_output@),
            false,
            packages@.len() as int,
        ),
{
    let all = lines(&chars_of(dpkg_output));
    let ghost ls = spec_lines(dpkg_output@);
    assert(views(all@).len() == all@.len());
    let mut installed: Vec<String> = Vec::new();
    let mut missing: Vec<String> = Vec::new();
    assert(string_views(installed@) =~= Seq::<Seq<char>>::empty());
    assert(string_views(missing@) =~= Seq::<Seq<char>>::empty());
    let mut i: usize = 0;
    while i < packages.len()
        invariant
            i <= packages.len(),
            views(all@) == ls,
            all@.len() == ls.len(),
            string_views(installed@) == spec_select(string_views(packages@), ls, true, i as int),
            string_views(missing@) == spec_select(string_views(packages@), ls, false, i as int),
        decreases packages.len() - i,
    {
        assert(string_views(packages@)[i as int] == packages@[i as int]@);
        if reported(&all, packages[i].as_str()) {
            push_string(&mut installed, packages[i].clone());
        } else {
            push_string(&mut missing, packages[i].clone());
        }
        i += 1;
    }
    PackageStatus { installed, missing }
}

} // verus!
