use vstd::prelude::*;
use std::collections::hash_map::RandomState;
use crate::decimal::{push_decimal, spec_decimal};
use crate::text::string_views;
use crate::version::{path_join, spec_path_join, GccVersion};

verus! {

/// How long, in seconds, a cached result is used.
pub const CACHE_MAX_AGE_SECS: u64 = 300;

/// How long, in seconds, a compiler may take to answer or to compile the test program.
pub const PROBE_TIMEOUT_SECS: u64 = 10;

/// The concurrent map of the crate `dashmap`. Nothing is known of what is
/// inside a value of it but through the functions below.
#[verifier::external_type_specification]
#[verifier::external_body]
#[verifier::reject_recursive_types(K)]
#[verifier::reject_recursive_types(V)]
#[verifier::reject_recursive_types(S)]
pub struct ExDashMap<K, V, S>(dashmap::DashMap<K, V, S>);

/// What a cache of results holds: for each path of a binary, whether it
/// exists, is executable, answers to `--version`, compiles, and when that
/// was found.
pub uninterp spec fn spec_cache_contents(
    cache: dashmap::DashMap<String, (bool, bool, bool, bool, u64), RandomState>,
) -> Map<Seq<char>, (bool, bool, bool, bool, u64)>;

/// The cache that holds nothing.
pub open spec fn spec_no_results() -> Map<Seq<char>, (bool, bool, bool, bool, u64)> {
    Map::empty()
}

/// Calls `DashMap::new`: the new map holds nothing.
#[verifier::external_body]
fn cache_new() -> (res: dashmap::DashMap<String, (bool, bool, bool, bool, u64), RandomState>)
    ensures
        spec_cache_contents(res) == spec_no_results(),
{
    dashmap::DashMap::new()
}

/// Calls `DashMap::get` and copies the value out: the value under the
/// key, if the map holds the key.
#[verifier::external_body]
fn cache_get(
    cache: &dashmap::DashMap<String, (bool, bool, bool, bool, u64), RandomState>,
    key: &str,
) -> (res: Option<(bool, bool, bool, bool, u64)>)
    ensures
        res == (if spec_cache_contents(*cache).contains_key(key@) {
            Some(spec_cache_contents(*cache)[key@])
        } else {
            None
        }),
{
    cache.get(key).map(|r| *r.value())
}

/// Calls `DashMap::insert`: afterwards the map holds the value under the
/// key, in place of what it held under it, and the other entries as before.
#[verifier::external_body]
fn cache_insert(
    cache: &mut dashmap::DashMap<String, (bool, bool, bool, bool, u64), RandomState>,
    key: String,
    value: (bool, bool, bool, bool, u64),
)
    ensures
        spec_cache_contents(*final(cache)) == spec_cache_contents(*old(cache)).insert(key@, value),
{
    cache.insert(key, value);
}

/// Calls `DashMap::clear`: afterwards the map holds nothing.
#[verifier::external_body]
fn cache_clear(cache: &mut dashmap::DashMap<String, (bool, bool, bool, bool, u64), RandomState>)
    ensures
        spec_cache_contents(*final(cache)) == spec_no_results(),
{
    cache.clear();
}

/// How thoroughly a compiler is checked.
#[derive(Debug, Clone, Copy, PartialEq, Eq, Structural)]
pub enum VerificationLevel {
    /// The file exists and can be executed.
    Quick,
    /// Also, it answers to `--version`.
    Fast,
    /// Also, it compiles a small program.
    Full,
}

/// What was found of one compiler.
#[derive(Debug, Clone, Copy, PartialEq, Eq, Structural)]
pub struct VerificationResult {
    pub exists: bool,
    pub executable: bool,
    pub version_works: bool,
    pub compile_works: bool,
    /// When this was found, in seconds since the epoch.
    pub verified_at: u64,
}

/// What was seen of one compiler on disk and by running it. A check that
/// was not run is reported as failed.
#[derive(Debug, Clone, Copy, PartialEq, Eq, Structural)]
pub struct BinaryProbe {
    pub exists: bool,
    /// Some execute bit is set.
    pub executable: bool,
    /// `--version` left with status zero in time.
    pub version_ok: bool,
    /// The test program compiled in time and the output file is there.
    pub compile_ok: bool,
}

/// Whether a result passes at a level.
pub open spec fn spec_is_valid(r: VerificationResult, level: VerificationLevel) -> bool {
    match level {
        VerificationLevel::Quick => r.exists && r.executable,
        VerificationLevel::Fast => r.exists && r.executable && r.version_works,
        VerificationLevel::Full => r.exists && r.executable && r.version_works && r.compile_works,
    }
}

/// Whether a result found at `verified_at` is younger than `max_age` at `now`.
pub open spec fn spec_is_fresh(verified_at: u64, max_age: u64, now: u64) -> bool {
    (now as int) - (verified_at as int) < (max_age as int)
}

/// What is made of a probe at a level: a compiler that is not there or
/// cannot be executed passes nothing; otherwise the checks that the level
/// does not ask for count as passed, and the test program is only compiled
/// by a compiler that answers to `--version`.
pub open spec fn spec_assess(level: VerificationLevel, probe: BinaryProbe, now: u64) -> VerificationResult {
    if !probe.exists || !probe.executable {
        VerificationResult {
            exists: probe.exists,
            executable: probe.exists && probe.executable,
            version_works: false,
            compile_works: false,
            verified_at: now,
        }
    } else {
        let version_works = level == VerificationLevel::Quick || probe.version_ok;
        let compile_works = !(level == VerificationLevel::Full && version_works)
            || probe.compile_ok;
        VerificationResult {
            exists: true,
            executable: true,
            version_works,
            compile_works,
            verified_at: now,
        }
    }
}

/// The result as the cache holds it.
pub open spec fn spec_as_entry(r: VerificationResult) -> (bool, bool, bool, bool, u64) {
    (r.exists, r.executable, r.version_works, r.compile_works, r.verified_at)
}

/// The result that an entry of the cache stands for.
pub open spec fn spec_from_entry(e: (bool, bool, bool, bool, u64)) -> VerificationResult {
    VerificationResult {
        exists: e.0,
        executable: e.1,
        version_works: e.2,
        compile_works: e.3,
        verified_at: e.4,
    }
}

/// The names of the compilers that are checked, for a release line.
pub open spec fn spec_essential_binaries(major: u8) -> Seq<Seq<char>> {
    seq![
        "gcc-"@ + spec_decimal(major as nat),
        "g++-"@ + spec_decimal(major as nat),
        "gfortran-"@ + spec_decimal(major as nat),
        "gcov-"@ + spec_decimal(major as nat),
    ]
}

/// How many compilers are checked.
pub const ESSENTIAL_COUNT: usize = 4;

/// The checked compilers of one installation stand at different paths.
pub proof fn lemma_paths_distinct(base: Seq<char>, major: u8, a: int, b: int)
    requires
        0 <= a < 4,
        0 <= b < 4,
        a != b,
    ensures
        spec_path_join(base, spec_essential_binaries(major)[a]) != spec_path_join(
            base,
            spec_essential_binaries(major)[b],
        ),
{
    reveal_strlit("gcc-");
    reveal_strlit("g++-");
    reveal_strlit("gfortran-");
    reveal_strlit("gcov-");
    reveal_strlit("/");
    let ns = spec_essential_binaries(major);
    let head: Seq<char> = if base.len() == 0 || base.last() == '/' {
        base
    } else {
        base + "/"@
    };
    let pa = spec_path_join(base, ns[a]);
    let pb = spec_path_join(base, ns[b]);
    assert(pa == head + ns[a]);
    assert(pb == head + ns[b]);
    let d = spec_decimal(major as nat);
    assert(ns[0][1] == 'c' && ns[0][2] == 'c');
    assert(ns[1][1] == '+');
    assert(ns[2][1] == 'f');
    assert(ns[3][1] == 'c' && ns[3][2] == 'o');
    let t: int = if (a == 0 && b == 3) || (a == 3 && b == 0) {
        2
    } else {
        1
    };
    assert(ns[a][t] != ns[b][t]);
    assert(pa[head.len() + t] == ns[a][t]);
    assert(pb[head.len() + t] == ns[b][t]);
}

impl VerificationResult {
    /// Whether the result passes at `level`.
    pub fn is_valid(&self, level: &VerificationLevel) -> (res: bool)
        ensures
            res == spec_is_valid(*self, *level),
    {
        match level {
            VerificationLevel::Quick => self.exists && self.executable,
            VerificationLevel::Fast => self.exists && self.executable && self.version_works,
            VerificationLevel::Full => self.exists && self.executable && self.version_works
                && self.compile_works,
        }
    }

    /// Whether the result is younger than `max_age_secs` at time `now`.
    pub fn is_fresh(&self, max_age_secs: u64, now: u64) -> (res: bool)
        ensures
            res == spec_is_fresh(self.verified_at, max_age_secs, now),
    {
        if now < self.verified_at {
            true
        } else {
            now - self.verified_at < max_age_secs
        }
    }
}

/// What is made of a probe at a level.
pub fn assess(level: VerificationLevel, probe: BinaryProbe, now: u64) -> (res: VerificationResult)
    ensures
        res == spec_assess(level, probe, now),
{
    if !probe.exists || !probe.executable {
        VerificationResult {
            exists: probe.exists,
            executable: probe.exists && probe.executable,
            version_works: false,
            compile_works: false,
            verified_at: now,
        }
    } else {
        let version_works = level == VerificationLevel::Quick || probe.version_ok;
        let compile_works = !(level == VerificationLevel::Full && version_works)
            || probe.compile_ok;
        VerificationResult {
            exists: true,
            executable: true,
            version_works,
            compile_works,
            verified_at: now,
        }
    }
}

/// Whether a compiler that exists and can be executed has to be run with
/// `--version` at this level.
pub fn needs_version_check(level: VerificationLevel) -> (res: bool)
    ensures
        res == (level != VerificationLevel::Quick),
{
    level != VerificationLevel::Quick
}

/// Whether a compiler has to compile the test program at this level,
/// given whether it answered to `--version`.
pub fn needs_compile_check(level: VerificationLevel, version_works: bool) -> (res: bool)
    ensures
        res == (level == VerificationLevel::Full && version_works),
{
    level == VerificationLevel::Full && version_works
}

/// The names of the compilers that are checked, for a release line.
pub fn essential_binaries(major: u8) -> (res: Vec<String>)
    ensures
        string_views(res@) == spec_essential_binaries(major),
        res@.len() == ESSENTIAL_COUNT,
{
    let mut out: Vec<String> = Vec::new();
    assert(string_views(out@) =~= Seq::<Seq<char>>::empty());
    let mut a = "gcc-".to_owned();
    push_decimal(&mut a, major as u64);
    crate::text::push_string(&mut out, a);
    let mut b = "g++-".to_owned();
    push_decimal(&mut b, major as u64);
    crate::text::push_string(&mut out, b);
    let mut c = "gfortran-".to_owned();
    push_decimal(&mut c, major as u64);
    crate::text::push_string(&mut out, c);
    let mut d = "gcov-".to_owned();
    push_decimal(&mut d, major as u64);
    crate::text::push_string(&mut out, d);
    assert(string_views(out@).len() == out@.len());
    out
}

/// Whether an installation is valid, given whether its directory of
/// binaries exists and whether each checked compiler passed, in the order
/// of `essential_binaries`: it is valid exactly if the directory is there
/// and both the C and the C++ compiler passed.
pub open spec fn spec_installation_valid(bin_dir_exists: bool, passed: Seq<bool>) -> bool {
    bin_dir_exists && passed.len() >= 2 && passed[0] && passed[1]
}

/// Whether the compiler at `path` passes at time `now`: a remembered
/// result that is young enough decides, else what is made of the probe.
pub open spec fn spec_binary_passes(
    remembered: Map<Seq<char>, (bool, bool, bool, bool, u64)>,
    path: Seq<char>,
    level: VerificationLevel,
    max_age: u64,
    probe: BinaryProbe,
    now: u64,
) -> bool {
    if remembered.contains_key(path) && spec_is_fresh(remembered[path].4, max_age, now) {
        spec_is_valid(spec_from_entry(remembered[path]), level)
    } else {
        spec_is_valid(spec_assess(level, probe, now), level)
    }
}

/// Checks the compilers of installations and remembers what it found.
pub struct BinaryVerifier {
    pub verification_level: VerificationLevel,
    pub cache_max_age_secs: u64,
    pub cache: dashmap::DashMap<String, (bool, bool, bool, bool, u64), RandomState>,
}

impl BinaryVerifier {
    /// What the verifier remembers.
    pub open spec fn remembered(&self) -> Map<Seq<char>, (bool, bool, bool, bool, u64)> {
        spec_cache_contents(self.cache)
    }

    /// A verifier that checks at `level` and remembers nothing yet.
    pub fn new(level: VerificationLevel) -> (res: Self)
        ensures
            res.verification_level == level,
            res.cache_max_age_secs == CACHE_MAX_AGE_SECS,
            res.remembered() == spec_no_results(),
    {
        BinaryVerifier {
            verification_level: level,
            cache_max_age_secs: CACHE_MAX_AGE_SECS,
            cache: cache_new(),
        }
    }

    /// Forgets what was found, as when installations change or a rebuild is forced.
    pub fn clear_cache(&mut self)
        ensures
            final(self).verification_level == old(self).verification_level,
            final(self).cache_max_age_secs == old(self).cache_max_age_secs,
            final(self).remembered() == spec_no_results(),
    {
        cache_clear(&mut self.cache);
    }

    /// What is remembered of the compiler at `path`, if it is young enough
    /// at time `now` to be used.
    pub fn cached_result(&self, path: &str, now: u64) -> (res: Option<VerificationResult>)
        ensures
            res == (if self.remembered().contains_key(path@) && spec_is_fresh(
                self.remembered()[path@].4,
                self.cache_max_age_secs,
                now,
            ) {
                Some(spec_from_entry(self.remembered()[path@]))
            } else {
                None
            }),
    {
        match cache_get(&self.cache, path) {
            Some(e) => {
                let r = VerificationResult {
                    exists: e.0,
                    executable: e.1,
                    version_works: e.2,
                    compile_works: e.3,
                    verified_at: e.4,
                };
                if r.is_fresh(self.cache_max_age_secs, now) {
                    Some(r)
                } else {
                    None
                }
            },
            None => None,
        }
    }

    /// Whether the compiler at `path` passes at time `now`, `probe` being
    /// what was seen of it. A remembered result that is young enough
    /// decides; else the probe is assessed and the result is remembered.
    pub fn verify_binary(&mut self, path: &str, probe: BinaryProbe, now: u64) -> (res: bool)
        ensures
            final(self).verification_level == old(self).verification_level,
            final(self).cache_max_age_secs == old(self).cache_max_age_secs,
            ({
                let level = old(self).verification_level;
                let before = old(self).remembered();
                if before.contains_key(path@) && spec_is_fresh(
                    before[path@].4,
                    old(self).cache_max_age_secs,
                    now,
                ) {
                    &&& res == spec_is_valid(spec_from_entry(before[path@]), level)
                    &&& final(self).remembered() == before
                } else {
                    &&& res == spec_is_valid(spec_assess(level, probe, now), level)
                    &&& final(self).remembered() == before.insert(
                        path@,
                        spec_as_entry(spec_assess(level, probe, now)),
                    )
                }
            }),
    {
        let level = self.verification_level;
        match self.cached_result(path, now) {
            Some(r) => r.is_valid(&level),
            None => {
                let r = assess(level, probe, now);
                cache_insert(
                    &mut self.cache,
                    path.to_owned(),
                    (r.exists, r.executable, r.version_works, r.compile_works, r.verified_at),
                );
                r.is_valid(&level)
            },
        }
    }

    /// Checks the installation of `version` under `install_prefix` at time
    /// `now`. `probes` tells what was seen of each checked compiler, in the
    /// order of `essential_binaries`. The installation is valid exactly if
    /// its directory of binaries exists and both the C and the C++ compiler
    /// pass at the level of the verifier. Returns that, and for each
    /// compiler whether it passed.
    pub fn verify_gcc_installation(
        &mut self,
        install_prefix: &str,
        version: &GccVersion,
        bin_dir_exists: bool,
        probes: &Vec<BinaryProbe>,
        now: u64,
    ) -> (res: (bool, Vec<bool>))
        requires
            probes@.len() == ESSENTIAL_COUNT,
        ensures
            final(self).verification_level == old(self).verification_level,
            final(self).cache_max_age_secs == old(self).cache_max_age_secs,
            !bin_dir_exists ==> !res.0 && res.1@.len() == 0 && final(self).remembered() == old(self).remembered(),
            bin_dir_exists ==> res.1@.len() == ESSENTIAL_COUNT,
            res.0 == spec_installation_valid(bin_dir_exists, res.1@),
            bin_dir_exists ==> forall|i: int|
                0 <= i < ESSENTIAL_COUNT ==> {
                    let path = spec_path_join(
                        spec_path_join(install_prefix@, "bin"@),
                        spec_essential_binaries(version.major)[i],
                    );
                    (#[trigger] res.1@[i]) == spec_binary_passes(
                        old(self).remembered(),
                        path,
                        old(self).verification_level,
                        old(self).cache_max_age_secs,
                        probes@[i],
                        now,
                    )
                },
    {
        let mut passed: Vec<bool> = Vec::new();
        if !bin_dir_exists {
            return (false, passed);
        }
        let bin_dir = path_join(install_prefix, "bin");
        let names = essential_binaries(version.major);
        let ghost ns = spec_essential_binaries(version.major);
        let ghost level = self.verification_level;
        let ghost start = self.remembered();
        let mut i: usize = 0;
        while i < ESSENTIAL_COUNT
            invariant
                i <= ESSENTIAL_COUNT,
                names@.len() == ESSENTIAL_COUNT,
                probes@.len() == ESSENTIAL_COUNT,
                string_views(names@) == ns,
                ns == spec_essential_binaries(version.major),
                bin_dir@ == spec_path_join(install_prefix@, "bin"@),
                passed@.len() == i,
                self.verification_level == level,
                level == old(self).verification_level,
                self.cache_max_age_secs == old(self).cache_max_age_secs,
                start == old(self).remembered(),
                forall|k: Seq<char>| #[trigger]
                    self.remembered().contains_key(k) ==> start.contains_key(k) || exists|j: int|
                        0 <= j < i && k == spec_path_join(bin_dir@, #[trigger] ns[j]),
                forall|k: Seq<char>| #[trigger]
                    start.contains_key(k) ==> self.remembered().contains_key(k),
                forall|k: Seq<char>|
                    #![trigger self.remembered()[k]]
                    start.contains_key(k) && (forall|j: int|
                        0 <= j < i ==> k != spec_path_join(bin_dir@, #[trigger] ns[j]))
                        ==> self.remembered()[k] == start[k],
                forall|j: int|
                    0 <= j < i ==> (#[trigger] passed@[j]) == spec_binary_passes(
                        start,
                        spec_path_join(bin_dir@, ns[j]),
                        level,
                        self.cache_max_age_secs,
                        probes@[j],
                        now,
                    ),
            decreases ESSENTIAL_COUNT - i,
        {
            assert(string_views(names@)[i as int] == names@[i as int]@);
            let path = path_join(bin_dir.as_str(), names[i].as_str());
            let ghost before = self.remembered();
            let ok = self.verify_binary(path.as_str(), probes[i], now);
            proof {
                assert forall|j: int| 0 <= j < i implies path@ != spec_path_join(
                    bin_dir@,
                    #[trigger] ns[j],
                ) by {
                    lemma_paths_distinct(bin_dir@, version.major, j, i as int);
                }
                if start.contains_key(path@) {
                    assert(before[path@] == start[path@]);
                }
                assert forall|k: Seq<char>|
                    #![trigger self.remembered()[k]]
                    start.contains_key(k) && (forall|j: int|
                        0 <= j < i + 1 ==> k != spec_path_join(
                            bin_dir@,
                            #[trigger] ns[j],
                        )) implies self.remembered()[k] == start[k] by {
                    assert(k != spec_path_join(bin_dir@, ns[i as int]));
                    assert(before[k] == start[k]);
                }
                assert forall|k: Seq<char>| #[trigger]
                    self.remembered().contains_key(k) implies start.contains_key(k) || exists|
                    j: int,
                |
                    0 <= j < i + 1 && k == spec_path_join(bin_dir@, #[trigger] ns[j]) by {
                    if k == path@ {
                        assert(k == spec_path_join(bin_dir@, ns[i as int]));
                    } else {
                        assert(before.contains_key(k));
                        if !start.contains_key(k) {
                            let j = choose|j: int|
                                0 <= j < i && k == spec_path_join(bin_dir@, #[trigger] ns[j]);
                            assert(k == spec_path_join(bin_dir@, ns[j]));
                        }
                    }
                }
            }
            passed.push(ok);
            i += 1;
        }
        let valid = passed[0] && passed[1];
        (valid, passed)
    }

    /// Whether the build of a version can be skipped because it is
    /// installed already. A forced rebuild is never skipped, and makes the
    /// verifier forget what it found. Else the build is skipped exactly if
    /// the installation is valid.
    pub fn should_skip_build(
        &mut self,
        install_prefix: &str,
        version: &GccVersion,
        force_rebuild: bool,
        bin_dir_exists: bool,
        probes: &Vec<BinaryProbe>,
        now: u64,
    ) -> (res: bool)
        requires
            probes@.len() == ESSENTIAL_COUNT,
        ensures
            force_rebuild ==> !res && final(self).remembered() == spec_no_results(),
            !force_rebuild ==> res == (bin_dir_exists && spec_binary_passes(
                old(self).remembered(),
                spec_path_join(
                    spec_path_join(install_prefix@, "bin"@),
                    spec_essential_binaries(version.major)[0],
                ),
                old(self).verification_level,
                old(self).cache_max_age_secs,
                probes@[0],
                now,
            ) && spec_binary_passes(
                old(self).remembered(),
                spec_path_join(
                    spec_path_join(install_prefix@, "bin"@),
                    spec_essential_binaries(version.major)[1],
                ),
                old(self).verification_level,
                old(self).cache_max_age_secs,
                probes@[1],
                now,
            )),
    {
        if force_rebuild {
            self.clear_cache();
            return false;
        }
        let r = self.verify_gcc_installation(install_prefix, version, bin_dir_exists, probes, now);
        r.0
    }
}

} // verus!
