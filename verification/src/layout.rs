use vstd::prelude::*;
use vstd::string::StringExecFns;
use crate::config::BuildConfig;
use crate::version::{path_join, spec_path_join, GccVersion};

verus! {

/// The build root that is used where the user names none.
pub const DEFAULT_BUILD_ROOT: &'static str = "/tmp/gcc-build-script";

/// The directory, under the build root, of the downloaded archives.
pub const PACKAGES_DIR: &'static str = "packages";

/// The directory, under the build root, of the cache of libraries.
pub const PREREQ_CACHE_DIR: &'static str = "prereq-cache";

/// The directory, under the build root, of the cache of installations.
pub const ARTIFACT_CACHE_DIR: &'static str = "artifact-cache";

/// The file, under the build root, of the versions that were resolved.
pub const VERSION_CACHE_FILE: &'static str = ".gcc_version_cache";

/// The directory, under the source tree, in which the compiler is built.
pub const BUILD_SUBDIR: &'static str = "build-gcc";

/// The directory, under the build root, of the recorded states of builds.
pub const STATE_DIR: &'static str = "state";

/// The places of the build of one version.
#[derive(Debug)]
pub struct BuildLayout {
    /// Where downloaded archives are kept.
    pub packages: String,
    /// Where archives are unpacked.
    pub workspace: String,
    /// The archive of the version.
    pub tarball: String,
    /// The path of the archive on a mirror, below the root of releases.
    pub relative_path: String,
    /// The source tree of the version.
    pub source_dir: String,
    /// The directory in which the version is built.
    pub build_dir: String,
    /// The directory into which the version is installed.
    pub install_prefix: String,
}

/// The name of the archive of the version `full`.
pub open spec fn spec_tarball_name(full: Seq<char>) -> Seq<char> {
    "gcc-"@ + full + ".tar.xz"@
}

/// The name of the source tree of the version `full`.
pub open spec fn spec_source_name(full: Seq<char>) -> Seq<char> {
    "gcc-"@ + full
}

/// The path of the archive of the version `full` on a mirror.
pub open spec fn spec_relative_path(full: Seq<char>) -> Seq<char> {
    spec_source_name(full) + "/"@ + spec_tarball_name(full)
}

/// The directory that is kept across runs for the caches under it: the
/// one that the user names, else the usual one.
pub fn build_root(named: Option<&str>) -> (res: String)
    ensures
        res@ == (match named {
            Some(dir) => dir@,
            None => DEFAULT_BUILD_ROOT@,
        }),
{
    match named {
        Some(dir) => dir.to_owned(),
        None => DEFAULT_BUILD_ROOT.to_owned(),
    }
}

/// The directory of the cache of libraries under a build root.
pub fn prereq_cache_dir(root: &str) -> (res: String)
    ensures
        res@ == spec_path_join(root@, PREREQ_CACHE_DIR@),
{
    path_join(root, PREREQ_CACHE_DIR)
}

/// The directory of the cache of installations under a build root.
pub fn artifact_cache_dir(root: &str) -> (res: String)
    ensures
        res@ == spec_path_join(root@, ARTIFACT_CACHE_DIR@),
{
    path_join(root, ARTIFACT_CACHE_DIR)
}

/// The file of resolved versions under a build root.
pub fn version_cache_file(root: &str) -> (res: String)
    ensures
        res@ == spec_path_join(root@, VERSION_CACHE_FILE@),
{
    path_join(root, VERSION_CACHE_FILE)
}

/// The directory of the recorded states under a build root.
pub fn state_dir(root: &str) -> (res: String)
    ensures
        res@ == spec_path_join(root@, STATE_DIR@),
{
    path_join(root, STATE_DIR)
}

/// The path of the archive of a version on a mirror.
pub fn relative_path(version: &GccVersion) -> (res: String)
    ensures
        res@ == spec_relative_path(version.full@),
{
    let mut p = "gcc-".to_owned();
    p.append(version.full.as_str());
    p.append("/");
    p.append("gcc-");
    p.append(version.full.as_str());
    p.append(".tar.xz");
    assert(p@ =~= spec_relative_path(version.full@));
    p
}

/// The places of the build of `version` under `config`: archives go to
/// `packages` under the build directory; the source tree stands in the
/// workspace under the name of the archive without its ending; the
/// compiler is built in a directory of its own under the source tree.
pub fn layout_of(config: &BuildConfig, version: &GccVersion) -> (res: BuildLayout)
    ensures
        res.packages@ == spec_path_join(config.build_dir@, PACKAGES_DIR@),
        res.workspace@ == config.workspace@,
        res.tarball@ == spec_path_join(res.packages@, spec_tarball_name(version.full@)),
        res.relative_path@ == spec_relative_path(version.full@),
        res.source_dir@ == spec_path_join(config.workspace@, spec_source_name(version.full@)),
        res.build_dir@ == spec_path_join(res.source_dir@, BUILD_SUBDIR@),
        res.install_prefix@ == config.spec_install_prefix(version),
{
    let packages = path_join(config.build_dir.as_str(), PACKAGES_DIR);
    let mut archive = "gcc-".to_owned();
    archive.append(version.full.as_str());
    let source_dir = path_join(config.workspace.as_str(), archive.as_str());
    archive.append(".tar.xz");
    assert(archive@ =~= spec_tarball_name(version.full@));
    let tarball = path_join(packages.as_str(), archive.as_str());
    let build_dir = path_join(source_dir.as_str(), BUILD_SUBDIR);
    BuildLayout {
        packages,
        workspace: config.workspace.clone(),
        tarball,
        relative_path: relative_path(version),
        source_dir,
        build_dir,
        install_prefix: config.get_install_prefix(version),
    }
}

} // verus!
