use vstd::prelude::*;
use vstd::string::StringExecFns;
use crate::error::BuildError;
use crate::pattern::{regex_find_all, spec_regex_find_all};
use crate::text::{chars_of, slice, spec_starts_with, starts_with, str_eq, string_of, string_views};
use crate::version::{path_join, spec_path_join};

verus! {

/// How many versions of each library stay in the cache by default.
pub const DEFAULT_KEEP_LATEST: usize = 3;

/// How often the download of a library is attempted.
pub const PREREQUISITE_ATTEMPTS: u32 = 3;

/// A library that the compiler needs, as its build script names it.
#[derive(Debug)]
pub struct Requirement {
    pub name: String,
    pub version: String,
    pub url: String,
}

/// A library that lies unpacked in the cache.
#[derive(Debug)]
pub struct PrerequisiteInfo {
    pub name: String,
    pub version: String,
    pub tarball_path: String,
    pub extracted_path: String,
    pub checksum: String,
    pub download_url: String,
    pub size_bytes: u64,
}

/// What the cache of libraries holds and which downloads are under way.
#[derive(Debug)]
pub struct CacheState {
    pub prerequisites: Vec<PrerequisiteInfo>,
    pub downloads_in_progress: Vec<String>,
}

/// The cache of the libraries that all builds share.
#[derive(Debug)]
pub struct PrerequisiteCache {
    pub cache_dir: String,
    pub state: CacheState,
}

/// Whether a build may download a library now.
#[derive(Debug, Clone, Copy, PartialEq, Eq, Structural)]
pub enum DownloadClaim {
    /// No other build downloads it: this build does.
    Proceed,
    /// Another build downloads it: this build waits until that is done.
    Wait,
}

/// Figures on the cache of libraries.
#[derive(Debug, Clone, Copy, PartialEq, Eq, Structural)]
pub struct CacheStats {
    pub total_prerequisites: usize,
    pub total_size_mb: u64,
    /// How many different libraries are held, by name.
    pub unique_versions: usize,
}

/// The sizes of the first `k` libraries, added up.
pub open spec fn spec_sizes_sum(held: Seq<PrerequisiteInfo>, k: int) -> nat
    decreases k,
{
    if k <= 0 {
        0
    } else {
        spec_sizes_sum(held, k - 1) + held[k - 1].size_bytes as nat
    }
}

/// Whether the library at place `i` has the name of one at an earlier place.
pub open spec fn spec_name_seen_before(held: Seq<PrerequisiteInfo>, i: int) -> bool {
    exists|j: int| 0 <= j < i && (#[trigger] held[j]).name@ == held[i].name@
}

/// How many different names the first `k` libraries have.
pub open spec fn spec_names_count(held: Seq<PrerequisiteInfo>, k: int) -> nat
    decreases k,
{
    if k <= 0 {
        0
    } else {
        spec_names_count(held, k - 1) + (if spec_name_seen_before(held, k - 1) {
            0nat
        } else {
            1nat
        })
    }
}

/// The regular expression that finds the version of a library in the
/// build script: the name in capitals, an equals sign, the name, a hyphen
/// and three numbers.
pub open spec fn spec_requirement_pattern(name: Seq<char>) -> Seq<char> {
    if name == "gmp"@ {
        "GMP=gmp-\\d+\\.\\d+\\.\\d+"@
    } else if name == "mpfr"@ {
        "MPFR=mpfr-\\d+\\.\\d+\\.\\d+"@
    } else if name == "mpc"@ {
        "MPC=mpc-\\d+\\.\\d+\\.\\d+"@
    } else {
        "ISL=isl-\\d+\\.\\d+\\.\\d+"@
    }
}

/// What stands before the version in a match of that expression.
pub open spec fn spec_requirement_label(name: Seq<char>) -> Seq<char> {
    if name == "gmp"@ {
        "GMP=gmp-"@
    } else if name == "mpfr"@ {
        "MPFR=mpfr-"@
    } else if name == "mpc"@ {
        "MPC=mpc-"@
    } else {
        "ISL=isl-"@
    }
}

/// The version that the first match names: what follows the label.
pub open spec fn spec_version_in(found: Option<Seq<Seq<char>>>, label: Seq<char>) -> Option<Seq<char>> {
    match found {
        Some(ms) => if ms.len() > 0 && spec_starts_with(ms[0], label) {
            Some(ms[0].skip(label.len() as int))
        } else {
            None
        },
        None => None,
    }
}

/// Where a version of a library is fetched from.
pub open spec fn spec_download_url(name: Seq<char>, version: Seq<char>) -> Seq<char> {
    if name == "gmp"@ {
        "https://ftp.gnu.org/gnu/gmp/gmp-"@ + version + ".tar.xz"@
    } else if name == "mpfr"@ {
        "https://ftp.gnu.org/gnu/mpfr/mpfr-"@ + version + ".tar.xz"@
    } else if name == "mpc"@ {
        "https://ftp.gnu.org/gnu/mpc/mpc-"@ + version + ".tar.gz"@
    } else if name == "isl"@ {
        "https://libisl.sourceforge.io/isl-"@ + version + ".tar.xz"@
    } else {
        "https://ftp.gnu.org/gnu/"@ + name + "/"@ + name + "-"@ + version + ".tar.xz"@
    }
}

/// A requirement as three texts.
pub open spec fn spec_requirement_view(r: Requirement) -> (Seq<char>, Seq<char>, Seq<char>) {
    (r.name@, r.version@, r.url@)
}

/// The requirements as texts.
pub open spec fn spec_requirement_views(rs: Seq<Requirement>) -> Seq<(Seq<char>, Seq<char>, Seq<char>)> {
    Seq::new(rs.len(), |i: int| spec_requirement_view(rs[i]))
}

/// The requirement for a library of which the script names a version.
pub open spec fn spec_one(name: Seq<char>, version: Option<Seq<char>>) -> Seq<
    (Seq<char>, Seq<char>, Seq<char>),
> {
    match version {
        Some(v) => seq![(name, v, spec_download_url(name, v))],
        None => Seq::empty(),
    }
}

/// The libraries that are taken where the script names none.
pub open spec fn spec_default_requirements() -> Seq<(Seq<char>, Seq<char>, Seq<char>)> {
    seq![
        ("gmp"@, "6.2.1"@, "https://ftp.gnu.org/gnu/gmp/gmp-6.2.1.tar.xz"@),
        ("mpfr"@, "4.1.0"@, "https://ftp.gnu.org/gnu/mpfr/mpfr-4.1.0.tar.xz"@),
        ("mpc"@, "1.2.1"@, "https://ftp.gnu.org/gnu/mpc/mpc-1.2.1.tar.gz"@),
    ]
}

/// The libraries that a build needs, given the versions that its script
/// names: those that are named, in the order gmp, mpfr, mpc, isl; the
/// default set where none is named.
pub open spec fn spec_requirements(
    gmp: Option<Seq<char>>,
    mpfr: Option<Seq<char>>,
    mpc: Option<Seq<char>>,
    isl: Option<Seq<char>>,
) -> Seq<(Seq<char>, Seq<char>, Seq<char>)> {
    let named = spec_one("gmp"@, gmp) + spec_one("mpfr"@, mpfr) + spec_one("mpc"@, mpc) + spec_one(
        "isl"@,
        isl,
    );
    if named.len() == 0 {
        spec_default_requirements()
    } else {
        named
    }
}

/// Where a version of a library is fetched from.
pub fn construct_download_url(name: &str, version: &str) -> (res: String)
    ensures
        res@ == spec_download_url(name@, version@),
{
    if str_eq(name, "gmp") {
        let mut u = "https://ftp.gnu.org/gnu/gmp/gmp-".to_owned();
        u.append(version);
        u.append(".tar.xz");
        u
    } else if str_eq(name, "mpfr") {
        let mut u = "https://ftp.gnu.org/gnu/mpfr/mpfr-".to_owned();
        u.append(version);
        u.append(".tar.xz");
        u
    } else if str_eq(name, "mpc") {
        let mut u = "https://ftp.gnu.org/gnu/mpc/mpc-".to_owned();
        u.append(version);
        u.append(".tar.gz");
        u
    } else if str_eq(name, "isl") {
        let mut u = "https://libisl.sourceforge.io/isl-".to_owned();
        u.append(version);
        u.append(".tar.xz");
        u
    } else {
        let mut u = "https://ftp.gnu.org/gnu/".to_owned();
        u.append(name);
        u.append("/");
        u.append(name);
        u.append("-");
        u.append(version);
        u.append(".tar.xz");
        u
    }
}

/// The version that the first of the matches names.
pub fn version_in(found: &Option<Vec<String>>, label: &str) -> (res: Option<String>)
    ensures
        res is Some <==> spec_version_in(
            match found {
                Some(v) => Some(string_views(v@)),
                None => None,
            },
            label@,
        ) is Some,
        res matches Some(v) ==> Some(v@) == spec_version_in(
            match found {
                Some(ms) => Some(string_views(ms@)),
                None => None,
            },
            label@,
        ),
{
    match found {
        Some(ms) => {
            if ms.len() == 0 {
                return None;
            }
            assert(string_views(ms@)[0] == ms@[0]@);
            let m = chars_of(ms[0].as_str());
            let l = chars_of(label);
            if starts_with(&m, &l) {
                let v = slice(&m, l.len(), m.len());
                assert(v@ == m@.skip(l.len() as int));
                Some(string_of(&v))
            } else {
                None
            }
        },
        None => None,
    }
}

fn push_requirement(out: &mut Vec<Requirement>, name: &str, version: Option<String>)
    ensures
        spec_requirement_views(final(out)@) == spec_requirement_views(old(out)@) + spec_one(
            name@,
            match version {
                Some(v) => Some(v@),
                None => None,
            },
        ),
{
    match version {
        Some(v) => {
            let url = construct_download_url(name, v.as_str());
            out.push(Requirement { name: name.to_owned(), version: v, url });
            assert(spec_requirement_views(out@) =~= spec_requirement_views(old(out)@) + seq![
                (name@, v@, spec_download_url(name@, v@)),
            ]);
        },
        None => {
            assert(spec_requirement_views(out@) =~= spec_requirement_views(old(out)@)
                + Seq::<(Seq<char>, Seq<char>, Seq<char>)>::empty());
        },
    }
}

/// The libraries that a build needs, given the versions that its script names.
pub fn requirements_from(
    gmp: Option<String>,
    mpfr: Option<String>,
    mpc: Option<String>,
    isl: Option<String>,
) -> (res: Vec<Requirement>)
    ensures
        spec_requirement_views(res@) == spec_requirements(
            match gmp {
                Some(v) => Some(v@),
                None => None,
            },
            match mpfr {
                Some(v) => Some(v@),
                None => None,
            },
            match mpc {
                Some(v) => Some(v@),
                None => None,
            },
            match isl {
                Some(v) => Some(v@),
                None => None,
            },
        ),
{
    let mut out: Vec<Requirement> = Vec::new();
    assert(spec_requirement_views(out@) =~= Seq::<(Seq<char>, Seq<char>, Seq<char>)>::empty());
    push_requirement(&mut out, "gmp", gmp);
    push_requirement(&mut out, "mpfr", mpfr);
    push_requirement(&mut out, "mpc", mpc);
    push_requirement(&mut out, "isl", isl);
    if out.len() == 0 {
        out.push(
            Requirement {
                name: "gmp".to_owned(),
                version: "6.2.1".to_owned(),
                url: "https://ftp.gnu.org/gnu/gmp/gmp-6.2.1.tar.xz".to_owned(),
            },
        );
        out.push(
            Requirement {
                name: "mpfr".to_owned(),
                version: "4.1.0".to_owned(),
                url: "https://ftp.gnu.org/gnu/mpfr/mpfr-4.1.0.tar.xz".to_owned(),
            },
        );
        out.push(
            Requirement {
                name: "mpc".to_owned(),
                version: "1.2.1".to_owned(),
                url: "https://ftp.gnu.org/gnu/mpc/mpc-1.2.1.tar.gz".to_owned(),
            },
        );
        assert(spec_requirement_views(out@) =~= spec_default_requirements());
    }
    out
}

/// The version of one library that a build script names.
pub fn script_version(script: &str, name: &str) -> (res: Option<String>)
    ensures
        res is Some <==> spec_version_in(
            spec_regex_find_all(spec_requirement_pattern(name@), script@),
            spec_requirement_label(name@),
        ) is Some,
        res matches Some(v) ==> Some(v@) == spec_version_in(
            spec_regex_find_all(spec_requirement_pattern(name@), script@),
            spec_requirement_label(name@),
        ),
{
    let (pattern, label): (&'static str, &'static str) = if str_eq(name, "gmp") {
        ("GMP=gmp-\\d+\\.\\d+\\.\\d+", "GMP=gmp-")
    } else if str_eq(name, "mpfr") {
        ("MPFR=mpfr-\\d+\\.\\d+\\.\\d+", "MPFR=mpfr-")
    } else if str_eq(name, "mpc") {
        ("MPC=mpc-\\d+\\.\\d+\\.\\d+", "MPC=mpc-")
    } else {
        ("ISL=isl-\\d+\\.\\d+\\.\\d+", "ISL=isl-")
    };
    let found = regex_find_all(pattern, script);
    version_in(&found, label)
}

/// The libraries that the build script of a source tree asks for.
pub fn parse_prerequisites(script: &str) -> (res: Vec<Requirement>)
    ensures
        spec_requirement_views(res@) == spec_requirements(
            spec_version_in(
                spec_regex_find_all(spec_requirement_pattern("gmp"@), script@),
                spec_requirement_label("gmp"@),
            ),
            spec_version_in(
                spec_regex_find_all(spec_requirement_pattern("mpfr"@), script@),
                spec_requirement_label("mpfr"@),
            ),
            spec_version_in(
                spec_regex_find_all(spec_requirement_pattern("mpc"@), script@),
                spec_requirement_label("mpc"@),
            ),
            spec_version_in(
                spec_regex_find_all(spec_requirement_pattern("isl"@), script@),
                spec_requirement_label("isl"@),
            ),
        ),
{
    let gmp = script_version(script, "gmp");
    let mpfr = script_version(script, "mpfr");
    let mpc = script_version(script, "mpc");
    let isl = script_version(script, "isl");
    requirements_from(gmp, mpfr, mpc, isl)
}

/// Whether the text `a` comes before the text `b` in the dictionary, the
/// characters taken in the order of their code points.
pub open spec fn spec_text_less(a: Seq<char>, b: Seq<char>) -> bool
    decreases a.len(),
{
    if b.len() == 0 {
        false
    } else if a.len() == 0 {
        true
    } else if a[0] != b[0] {
        (a[0] as u32) < (b[0] as u32)
    } else {
        spec_text_less(a.skip(1), b.skip(1))
    }
}

/// Whether the text `a` comes before the text `b` in the dictionary.
pub fn text_less(a: &str, b: &str) -> (res: bool)
    ensures
        res == spec_text_less(a@, b@),
{
    let x = chars_of(a);
    let y = chars_of(b);
    let mut i: usize = 0;
    assert(x@.skip(0) == x@);
    assert(y@.skip(0) == y@);
    loop
        invariant
            i <= x.len(),
            i <= y.len(),
            x@ == a@,
            y@ == b@,
            spec_text_less(a@, b@) == spec_text_less(x@.skip(i as int), y@.skip(i as int)),
        decreases x.len() - i,
    {
        if i == y.len() {
            return false;
        }
        if i == x.len() {
            return true;
        }
        let ghost xs = x@.skip(i as int);
        let ghost ys = y@.skip(i as int);
        assert(xs[0] == x@[i as int]);
        assert(ys[0] == y@[i as int]);
        if x[i] != y[i] {
            return (x[i] as u32) < (y[i] as u32);
        }
        assert(xs.skip(1) == x@.skip(i + 1));
        assert(ys.skip(1) == y@.skip(i + 1));
        i += 1;
    }
}

/// Whether the entry at place `j` is kept before the one at place `i`:
/// it is of the same library and of a later version, or of the same version
/// and stands earlier.
pub open spec fn spec_outranks(entries: Seq<PrerequisiteInfo>, j: int, i: int) -> bool {
    entries[j].name@ == entries[i].name@ && (spec_text_less(
        entries[i].version@,
        entries[j].version@,
    ) || (entries[j].version@ == entries[i].version@ && j < i))
}

/// How many of the first `k` entries are kept before the one at place `i`.
pub open spec fn spec_rank(entries: Seq<PrerequisiteInfo>, i: int, k: int) -> nat
    decreases k,
{
    if k <= 0 {
        0
    } else {
        spec_rank(entries, i, k - 1) + (if spec_outranks(entries, k - 1, i) {
            1nat
        } else {
            0nat
        })
    }
}

/// The places of the first `k` entries that stay when only the
/// `keep_latest` latest versions of each library are kept.
pub open spec fn spec_kept(entries: Seq<PrerequisiteInfo>, keep_latest: usize, k: int) -> Seq<int>
    decreases k,
{
    if k <= 0 {
        Seq::empty()
    } else if spec_rank(entries, k - 1, entries.len() as int) < keep_latest {
        spec_kept(entries, keep_latest, k - 1).push(k - 1)
    } else {
        spec_kept(entries, keep_latest, k - 1)
    }
}

/// How long, in seconds, a build waits before it attempts the download
/// of a library again.
pub const PREREQUISITE_PAUSE_SECS: u64 = 5;

/// What follows an attempt to download a library.
#[derive(Debug, Clone, Copy, PartialEq, Eq, Structural)]
pub enum AttemptFollowUp {
    /// The archive is there.
    Done,
    /// The download is attempted again after the pause.
    Again { pause_secs: u64 },
    /// The download is given up.
    GiveUp,
}

/// What follows attempt number `attempt` at the download of a library:
/// after a failure it is made again, after a pause, until it has been made
/// as often as downloads are attempted.
pub fn after_download_attempt(attempt: u32, succeeded: bool) -> (res: AttemptFollowUp)
    ensures
        res == (if succeeded {
            AttemptFollowUp::Done
        } else if attempt < PREREQUISITE_ATTEMPTS {
            AttemptFollowUp::Again { pause_secs: PREREQUISITE_PAUSE_SECS }
        } else {
            AttemptFollowUp::GiveUp
        }),
{
    if succeeded {
        AttemptFollowUp::Done
    } else if attempt < PREREQUISITE_ATTEMPTS {
        AttemptFollowUp::Again { pause_secs: PREREQUISITE_PAUSE_SECS }
    } else {
        AttemptFollowUp::GiveUp
    }
}

/// The arguments with which `curl` fetches `url` into `tarball_path`.
pub fn fetch_arguments(tarball_path: &str, url: &str) -> (res: Vec<String>)
    ensures
        string_views(res@) == seq!["-fSL"@, "-o"@, tarball_path@, url@],
{
    let mut args: Vec<String> = Vec::new();
    assert(string_views(args@) =~= Seq::<Seq<char>>::empty());
    crate::text::push_str(&mut args, "-fSL");
    crate::text::push_str(&mut args, "-o");
    crate::text::push_str(&mut args, tarball_path);
    crate::text::push_str(&mut args, url);
    args
}

/// The error that tells of a library whose download was given up.
pub fn download_failure(url: &str) -> (res: BuildError)
    ensures
        res matches BuildError::Download { url: u, message } && u@ == url@ && message@
            == "prerequisite download failed: all attempts exhausted"@,
{
    let e = BuildError::Download {
        url: url.to_owned(),
        message: "prerequisite download failed: all attempts exhausted".to_owned(),
    };
    assert(e matches BuildError::Download { url: u, message } && u@ == url@ && message@
        == "prerequisite download failed: all attempts exhausted"@);
    e
}

/// The places of the first `k` entries that go when only the
/// `keep_latest` latest versions of each library are kept.
pub open spec fn spec_dropped(entries: Seq<PrerequisiteInfo>, keep_latest: usize, k: int) -> Seq<int>
    decreases k,
{
    if k <= 0 {
        Seq::empty()
    } else if spec_rank(entries, k - 1, entries.len() as int) < keep_latest {
        spec_dropped(entries, keep_latest, k - 1)
    } else {
        spec_dropped(entries, keep_latest, k - 1).push(k - 1)
    }
}

/// An entry as texts and a size.
pub open spec fn spec_info_view(p: PrerequisiteInfo) -> (
    Seq<char>,
    Seq<char>,
    Seq<char>,
    Seq<char>,
    Seq<char>,
    Seq<char>,
    u64,
) {
    (p.name@, p.version@, p.tarball_path@, p.extracted_path@, p.checksum@, p.download_url@, p.size_bytes)
}

/// The entries as texts and sizes.
pub open spec fn spec_info_views(entries: Seq<PrerequisiteInfo>) -> Seq<
    (Seq<char>, Seq<char>, Seq<char>, Seq<char>, Seq<char>, Seq<char>, u64),
> {
    Seq::new(entries.len(), |i: int| spec_info_view(entries[i]))
}

/// The entries at the given places, in the order of the places.
pub open spec fn spec_picked(entries: Seq<PrerequisiteInfo>, places: Seq<int>) -> Seq<
    (Seq<char>, Seq<char>, Seq<char>, Seq<char>, Seq<char>, Seq<char>, u64),
> {
    Seq::new(places.len(), |i: int| spec_info_view(entries[places[i]]))
}

/// A copy of an entry.
pub fn copy_info(p: &PrerequisiteInfo) -> (res: PrerequisiteInfo)
    ensures
        spec_info_view(res) == spec_info_view(*p),
{
    PrerequisiteInfo {
        name: p.name.clone(),
        version: p.version.clone(),
        tarball_path: p.tarball_path.clone(),
        extracted_path: p.extracted_path.clone(),
        checksum: p.checksum.clone(),
        download_url: p.download_url.clone(),
        size_bytes: p.size_bytes,
    }
}

impl PrerequisiteCache {
    /// An empty cache under `cache_dir`.
    pub fn new(cache_dir: String) -> (res: Self)
        ensures
            res.cache_dir@ == cache_dir@,
            res.state.prerequisites@.len() == 0,
            res.state.downloads_in_progress@.len() == 0,
    {
        PrerequisiteCache {
            cache_dir,
            state: CacheState { prerequisites: Vec::new(), downloads_in_progress: Vec::new() },
        }
    }

    /// Whether this version of this library is among the entries.
    pub open spec fn spec_is_cached(&self, name: Seq<char>, version: Seq<char>) -> bool {
        exists|i: int|
            0 <= i < self.state.prerequisites@.len() && (
            #[trigger] self.state.prerequisites@[i]).name@ == name
                && self.state.prerequisites@[i].version@ == version
    }

    /// Whether a download of this library is under way.
    pub open spec fn spec_in_progress(&self, name: Seq<char>) -> bool {
        string_views(self.state.downloads_in_progress@).contains(name)
    }

    /// The place of this version of this library among the entries.
    pub fn find(&self, name: &str, version: &str) -> (res: Option<usize>)
        ensures
            res is Some <==> self.spec_is_cached(name@, version@),
            res matches Some(i) ==> i < self.state.prerequisites@.len()
                && self.state.prerequisites@[i as int].name@ == name@
                && self.state.prerequisites@[i as int].version@ == version@,
    {
        let mut i: usize = 0;
        while i < self.state.prerequisites.len()
            invariant
                i <= self.state.prerequisites@.len(),
                forall|j: int|
                    0 <= j < i ==> !((#[trigger] self.state.prerequisites@[j]).name@ == name@
                        && self.state.prerequisites@[j].version@ == version@),
            decreases self.state.prerequisites@.len() - i,
        {
            let p = &self.state.prerequisites[i];
            if str_eq(p.name.as_str(), name) && str_eq(p.version.as_str(), version) {
                return Some(i);
            }
            i += 1;
        }
        None
    }

    /// Whether this version of this library lies in the cache.
    pub fn is_cached(&self, name: &str, version: &str) -> (res: bool)
        ensures
            res == self.spec_is_cached(name@, version@),
    {
        self.find(name, version).is_some()
    }

    /// Claims the download of a library for a build. Where another build
    /// downloads it already, this one waits; else the download is noted as
    /// under way and this build makes it.
    pub fn begin_download(&mut self, name: &str) -> (res: DownloadClaim)
        ensures
            final(self).cache_dir == old(self).cache_dir,
            final(self).state.prerequisites == old(self).state.prerequisites,
            old(self).spec_in_progress(name@) ==> res == DownloadClaim::Wait && *final(self) == *old(self),
            !old(self).spec_in_progress(name@) ==> res == DownloadClaim::Proceed && string_views(
                final(self).state.downloads_in_progress@,
            ) == string_views(old(self).state.downloads_in_progress@).push(name@),
            final(self).spec_in_progress(name@),
    {
        let ghost names = string_views(self.state.downloads_in_progress@);
        let mut i: usize = 0;
        while i < self.state.downloads_in_progress.len()
            invariant
                i <= self.state.downloads_in_progress@.len(),
                *self == *old(self),
                names == string_views(self.state.downloads_in_progress@),
                forall|j: int| 0 <= j < i ==> names[j] != name@,
            decreases self.state.downloads_in_progress@.len() - i,
        {
            assert(names[i as int] == self.state.downloads_in_progress@[i as int]@);
            if str_eq(self.state.downloads_in_progress[i].as_str(), name) {
                return DownloadClaim::Wait;
            }
            i += 1;
        }
        crate::text::push_str(&mut self.state.downloads_in_progress, name);
        assert(string_views(self.state.downloads_in_progress@)[names.len() as int] == name@);
        DownloadClaim::Proceed
    }

    /// Notes that the download of a library is done, well or badly, so
    /// that builds that wait for it go on. Where it went well, `info` tells
    /// of the library that now lies in the cache.
    pub fn finish_download(&mut self, name: &str, info: Option<PrerequisiteInfo>)
        ensures
            final(self).cache_dir == old(self).cache_dir,
            !final(self).spec_in_progress(name@),
            forall|other: Seq<char>|
                other != name@ ==> (final(self).spec_in_progress(other) <==> old(self).spec_in_progress(other)),
            final(self).state.prerequisites@ == (match info {
                Some(p) => old(self).state.prerequisites@.push(p),
                None => old(self).state.prerequisites@,
            }),
    {
        let ghost before = string_views(self.state.downloads_in_progress@);
        let mut kept: Vec<String> = Vec::new();
        let mut i: usize = 0;
        while i < self.state.downloads_in_progress.len()
            invariant
                i <= self.state.downloads_in_progress@.len(),
                *self == *old(self),
                before == string_views(self.state.downloads_in_progress@),
                !string_views(kept@).contains(name@),
                forall|other: Seq<char>|
                    other != name@ ==> (string_views(kept@).contains(other) <==> before.take(
                        i as int,
                    ).contains(other)),
            decreases self.state.downloads_in_progress@.len() - i,
        {
            let ghost old_kept = string_views(kept@);
            let ghost t0 = before.take(i as int);
            let ghost t1 = before.take(i + 1);
            assert(before[i as int] == self.state.downloads_in_progress@[i as int]@);
            assert(t1 =~= t0.push(before[i as int]));
            if !str_eq(self.state.downloads_in_progress[i].as_str(), name) {
                crate::text::push_string(&mut kept, self.state.downloads_in_progress[i].clone());
                proof {
                    let now = string_views(kept@);
                    assert(now == old_kept.push(before[i as int]));
                    assert forall|other: Seq<char>| other != name@ implies (now.contains(other)
                        <==> t1.contains(other)) by {
                        if now.contains(other) {
                            let w = choose|w: int| 0 <= w < now.len() && now[w] == other;
                            if w < old_kept.len() {
                                assert(old_kept[w] == other);
                                assert(old_kept.contains(other));
                                assert(t0.contains(other));
                                let z = choose|z: int| 0 <= z < t0.len() && t0[z] == other;
                                assert(t1[z] == other);
                            } else {
                                assert(t1[i as int] == other);
                            }
                        }
                        if t1.contains(other) {
                            let z = choose|z: int| 0 <= z < t1.len() && t1[z] == other;
                            if z < i {
                                assert(t0[z] == other);
                                assert(t0.contains(other));
                                assert(old_kept.contains(other));
                                let w = choose|w: int|
                                    0 <= w < old_kept.len() && old_kept[w] == other;
                                assert(now[w] == other);
                            } else {
                                assert(now[now.len() - 1] == other);
                            }
                        }
                    }
                    assert(!now.contains(name@)) by {
                        if now.contains(name@) {
                            let w = choose|w: int| 0 <= w < now.len() && now[w] == name@;
                            if w < old_kept.len() {
                                assert(old_kept[w] == name@);
                            }
                        }
                    }
                }
            } else {
                proof {
                    assert forall|other: Seq<char>| other != name@ implies (old_kept.contains(
                        other,
                    ) <==> t1.contains(other)) by {
                        if t1.contains(other) {
                            let z = choose|z: int| 0 <= z < t1.len() && t1[z] == other;
                            assert(z < i);
                            assert(t0[z] == other);
                        }
                        if t0.contains(other) {
                            let z = choose|z: int| 0 <= z < t0.len() && t0[z] == other;
                            assert(t1[z] == other);
                        }
                    }
                }
            }
            i += 1;
        }
        assert(before.take(before.len() as int) == before);
        self.state.downloads_in_progress = kept;
        match info {
            Some(p) => {
                self.state.prerequisites.push(p);
            },
            None => {},
        }
    }

    /// The libraries that a source tree asks for, from the text of its
    /// build script. It is an error if the tree has no such script.
    pub fn get_prerequisites(&self, script_path: &str, script: Option<&str>) -> (res: Result<
        Vec<Requirement>,
        BuildError,
    >)
        ensures
            res is Ok <==> script is Some,
            res matches Ok(v) ==> spec_requirement_views(v@) == spec_requirements(
                spec_version_in(
                    spec_regex_find_all(spec_requirement_pattern("gmp"@), script->0@),
                    spec_requirement_label("gmp"@),
                ),
                spec_version_in(
                    spec_regex_find_all(spec_requirement_pattern("mpfr"@), script->0@),
                    spec_requirement_label("mpfr"@),
                ),
                spec_version_in(
                    spec_regex_find_all(spec_requirement_pattern("mpc"@), script->0@),
                    spec_requirement_label("mpc"@),
                ),
                spec_version_in(
                    spec_regex_find_all(spec_requirement_pattern("isl"@), script->0@),
                    spec_requirement_label("isl"@),
                ),
            ),
            res matches Err(e) ==> e matches BuildError::FileOperation { operation, path, reason }
                && operation@ == "find prerequisites script"@ && path@ == script_path@ && reason@
                == "Script not found"@,
    {
        match script {
            Some(text) => Ok(parse_prerequisites(text)),
            None => {
                let r: Result<Vec<Requirement>, BuildError> = Err(
                    BuildError::FileOperation {
                        operation: "find prerequisites script".to_owned(),
                        path: script_path.to_owned(),
                        reason: "Script not found".to_owned(),
                    },
                );
                assert(r matches Err(BuildError::FileOperation { operation, path, reason })
                    && operation@ == "find prerequisites script"@ && path@ == script_path@
                    && reason@ == "Script not found"@);
                r
            },
        }
    }

    /// Where the archive that `url` names lies in the cache: under the
    /// last component of the address.
    pub fn tarball_path(&self, url: &str) -> (res: String)
        ensures
            res@ == spec_path_join(self.cache_dir@, crate::symlink_optimizer::spec_file_name(url@)),
    {
        let name = crate::symlink_optimizer::file_name(url);
        path_join(self.cache_dir.as_str(), name.as_str())
    }

    /// What is recorded of a version of a library that was fetched from
    /// `url` and unpacked, its archive having this checksum and this size.
    pub fn downloaded(&self, name: &str, version: &str, url: &str, checksum: String, size_bytes: u64) -> (res:
        PrerequisiteInfo)
        ensures
            spec_info_view(res) == (
                name@,
                version@,
                spec_path_join(self.cache_dir@, crate::symlink_optimizer::spec_file_name(url@)),
                spec_path_join(self.cache_dir@, name@ + "-"@ + version@),
                checksum@,
                url@,
                size_bytes,
            ),
    {
        PrerequisiteInfo {
            name: name.to_owned(),
            version: version.to_owned(),
            tarball_path: self.tarball_path(url),
            extracted_path: self.extracted_path(name, version),
            checksum,
            download_url: url.to_owned(),
            size_bytes,
        }
    }

    /// Where the unpacked library is linked into a source tree.
    pub fn link_path(source_dir: &str, name: &str) -> (res: String)
        ensures
            res@ == spec_path_join(source_dir@, name@),
    {
        path_join(source_dir, name)
    }

    /// Where a version of a library lies unpacked in the cache.
    pub fn extracted_path(&self, name: &str, version: &str) -> (res: String)
        ensures
            res@ == spec_path_join(self.cache_dir@, name@ + "-"@ + version@),
    {
        let mut dir = name.to_owned();
        dir.append("-");
        dir.append(version);
        path_join(self.cache_dir.as_str(), dir.as_str())
    }

    /// How many of the entries are kept before the one at place `i`.
    pub fn rank(&self, i: usize) -> (res: usize)
        requires
            i < self.state.prerequisites@.len(),
        ensures
            res == spec_rank(
                self.state.prerequisites@,
                i as int,
                self.state.prerequisites@.len() as int,
            ),
    {
        let entries = &self.state.prerequisites;
        let mut count: usize = 0;
        let mut j: usize = 0;
        while j < entries.len()
            invariant
                j <= entries@.len(),
                i < entries@.len(),
                entries@ == self.state.prerequisites@,
                count == spec_rank(entries@, i as int, j as int),
                count <= j,
            decreases entries@.len() - j,
        {
            let same = str_eq(entries[j].name.as_str(), entries[i].name.as_str());
            if same && (text_less(entries[i].version.as_str(), entries[j].version.as_str()) || (
            str_eq(entries[j].version.as_str(), entries[i].version.as_str()) && j < i)) {
                count += 1;
            }
            j += 1;
        }
        count
    }

    /// Which entries stay when only the `keep_latest` latest versions of
    /// each library are kept: for each entry in turn, whether it stays. The
    /// method `retain_latest` carries it out.
    pub fn cleanup_old(&self, keep_latest: usize) -> (res: Vec<bool>)
        ensures
            res@.len() == self.state.prerequisites@.len(),
            forall|i: int|
                0 <= i < res@.len() ==> (#[trigger] res@[i]) == (spec_rank(
                    self.state.prerequisites@,
                    i,
                    self.state.prerequisites@.len() as int,
                ) < keep_latest),
    {
        let mut out: Vec<bool> = Vec::new();
        let mut i: usize = 0;
        while i < self.state.prerequisites.len()
            invariant
                i <= self.state.prerequisites@.len(),
                out@.len() == i,
                forall|j: int|
                    0 <= j < i ==> (#[trigger] out@[j]) == (spec_rank(
                        self.state.prerequisites@,
                        j,
                        self.state.prerequisites@.len() as int,
                    ) < keep_latest),
            decreases self.state.prerequisites@.len() - i,
        {
            out.push(self.rank(i) < keep_latest);
            i += 1;
        }
        out
    }

    /// Keeps only the `keep_latest` latest versions of each library: the
    /// entries that stay keep their order, and the others are handed out,
    /// in their order, so that what belongs to them can be deleted.
    pub fn retain_latest(&mut self, keep_latest: usize) -> (res: Vec<PrerequisiteInfo>)
        ensures
            final(self).cache_dir == old(self).cache_dir,
            final(self).state.downloads_in_progress == old(self).state.downloads_in_progress,
            spec_info_views(final(self).state.prerequisites@) == spec_picked(
                old(self).state.prerequisites@,
                spec_kept(
                    old(self).state.prerequisites@,
                    keep_latest,
                    old(self).state.prerequisites@.len() as int,
                ),
            ),
            spec_info_views(res@) == spec_picked(
                old(self).state.prerequisites@,
                spec_dropped(
                    old(self).state.prerequisites@,
                    keep_latest,
                    old(self).state.prerequisites@.len() as int,
                ),
            ),
    {
        let ghost entries = self.state.prerequisites@;
        let mut kept: Vec<PrerequisiteInfo> = Vec::new();
        let mut dropped: Vec<PrerequisiteInfo> = Vec::new();
        assert(spec_info_views(kept@) =~= spec_picked(entries, spec_kept(entries, keep_latest, 0)));
        assert(spec_info_views(dropped@) =~= spec_picked(
            entries,
            spec_dropped(entries, keep_latest, 0),
        ));
        let mut i: usize = 0;
        while i < self.state.prerequisites.len()
            invariant
                i <= entries.len(),
                *self == *old(self),
                entries == self.state.prerequisites@,
                spec_info_views(kept@) == spec_picked(
                    entries,
                    spec_kept(entries, keep_latest, i as int),
                ),
                spec_info_views(dropped@) == spec_picked(
                    entries,
                    spec_dropped(entries, keep_latest, i as int),
                ),
                forall|j: int|
                    0 <= j < spec_kept(entries, keep_latest, i as int).len() ==> 0 <= (
                    #[trigger] spec_kept(entries, keep_latest, i as int)[j]) < i,
                forall|j: int|
                    0 <= j < spec_dropped(entries, keep_latest, i as int).len() ==> 0 <= (
                    #[trigger] spec_dropped(entries, keep_latest, i as int)[j]) < i,
            decreases entries.len() - i,
        {
            let copy = copy_info(&self.state.prerequisites[i]);
            if self.rank(i) < keep_latest {
                let ghost before = spec_info_views(kept@);
                let ghost places = spec_kept(entries, keep_latest, i as int);
                kept.push(copy);
                assert(spec_info_views(kept@) =~= before.push(spec_info_view(entries[i as int])));
                assert(spec_picked(entries, places.push(i as int)) =~= spec_picked(
                    entries,
                    places,
                ).push(spec_info_view(entries[i as int])));
            } else {
                let ghost before = spec_info_views(dropped@);
                let ghost places = spec_dropped(entries, keep_latest, i as int);
                dropped.push(copy);
                assert(spec_info_views(dropped@) =~= before.push(spec_info_view(entries[i as int])));
                assert(spec_picked(entries, places.push(i as int)) =~= spec_picked(
                    entries,
                    places,
                ).push(spec_info_view(entries[i as int])));
            }
            i += 1;
        }
        self.state.prerequisites = kept;
        dropped
    }

    /// Figures on the cache.
    pub fn get_stats(&self) -> (res: CacheStats)
        ensures
            res.total_prerequisites == self.state.prerequisites@.len(),
            res.total_size_mb == (if spec_sizes_sum(
                self.state.prerequisites@,
                self.state.prerequisites@.len() as int,
            ) / 1000000 > u64::MAX {
                u64::MAX as int
            } else {
                (spec_sizes_sum(self.state.prerequisites@, self.state.prerequisites@.len() as int)
                    / 1000000) as int
            }),
            res.unique_versions == spec_names_count(
                self.state.prerequisites@,
                self.state.prerequisites@.len() as int,
            ),
    {
        let mut total: u128 = 0;
        let mut names: usize = 0;
        let mut i: usize = 0;
        while i < self.state.prerequisites.len()
            invariant
                i <= self.state.prerequisites@.len(),
                total == spec_sizes_sum(self.state.prerequisites@, i as int),
                total <= i * 0xffff_ffff_ffff_ffff,
                names == spec_names_count(self.state.prerequisites@, i as int),
                names <= i,
            decreases self.state.prerequisites@.len() - i,
        {
            assert((i + 1) * 0xffff_ffff_ffff_ffff == i * 0xffff_ffff_ffff_ffff
                + 0xffff_ffff_ffff_ffff) by (nonlinear_arith);
            assert(i * 0xffff_ffff_ffff_ffff <= 0xffff_ffff_ffff_ffff * 0xffff_ffff_ffff_ffff)
                by (nonlinear_arith)
                requires
                    i <= 0xffff_ffff_ffff_ffff,
            ;
            total = total + self.state.prerequisites[i].size_bytes as u128;
            if !self.name_seen_before(i) {
                names = names + 1;
            }
            i += 1;
        }
        let mb: u128 = total / 1000000;
        CacheStats {
            total_prerequisites: self.state.prerequisites.len(),
            total_size_mb: if mb > u64::MAX as u128 {
                u64::MAX
            } else {
                mb as u64
            },
            unique_versions: names,
        }
    }

    /// Whether the library at place `i` has the name of one at an earlier place.
    pub fn name_seen_before(&self, i: usize) -> (res: bool)
        requires
            i < self.state.prerequisites@.len(),
        ensures
            res == spec_name_seen_before(self.state.prerequisites@, i as int),
    {
        let mut j: usize = 0;
        while j < i
            invariant
                j <= i < self.state.prerequisites@.len(),
                forall|k: int|
                    0 <= k < j ==> (#[trigger] self.state.prerequisites@[k]).name@
                        != self.state.prerequisites@[i as int].name@,
            decreases i - j,
        {
            if str_eq(self.state.prerequisites[j].name.as_str(), self.state.prerequisites[i].name.as_str()) {
                return true;
            }
            j += 1;
        }
        false
    }
}

} // verus!
