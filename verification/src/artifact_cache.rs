use vstd::prelude::*;
use vstd::string::StringExecFns;
use crate::digest::{sha256_hex, spec_hex_lower, spec_sha256};
use crate::error::BuildError;
use crate::strmap::{lemma_entry_in_map, spec_key_at, StrMap};
use crate::text::{chars_of, clone_strings, join, push_chars, slice, spec_join, string_views};
use crate::version::{path_join, spec_path_join};

verus! {

/// Bytes in a gigabyte, as cache sizes are reckoned.
pub const BYTES_PER_GB: u64 = 1000000000;

/// Seconds in a day.
pub const SECS_PER_DAY: u64 = 86400;

/// How many characters of the configuration hash go into a cache key.
pub const KEY_HASH_LEN: usize = 16;

/// What of a build's configuration decides whether two installations are
/// interchangeable.
#[derive(Debug)]
pub struct BuildConfig {
    pub optimization_level: String,
    pub enable_multilib: bool,
    pub static_build: bool,
    pub target_architectures: Vec<String>,
    pub configure_args: Vec<String>,
}

/// `true` or `false`, as a text.
pub open spec fn spec_bool_text(b: bool) -> Seq<char> {
    if b {
        "true"@
    } else {
        "false"@
    }
}

/// The canonical text of a configuration: the optimization level, the two
/// switches, the targets joined by commas and the configure arguments
/// joined by blanks, one after the other.
pub open spec fn spec_canonical_text(
    optimization_level: Seq<char>,
    enable_multilib: bool,
    static_build: bool,
    targets: Seq<Seq<char>>,
    args: Seq<Seq<char>>,
) -> Seq<char> {
    optimization_level + spec_bool_text(enable_multilib) + spec_bool_text(static_build) + spec_join(
        targets,
        ","@,
    ) + spec_join(args, " "@)
}

/// The hash of a configuration: the SHA-256 digest of the UTF-8 bytes of
/// its canonical text, in lower-case hexadecimal.
pub open spec fn spec_config_hash(
    optimization_level: Seq<char>,
    enable_multilib: bool,
    static_build: bool,
    targets: Seq<Seq<char>>,
    args: Seq<Seq<char>>,
) -> Seq<char> {
    spec_hex_lower(
        spec_sha256(
            vstd::utf8::encode_utf8(
                spec_canonical_text(optimization_level, enable_multilib, static_build, targets, args),
            ),
        ),
    )
}

impl BuildConfig {
    /// The configuration with these settings.
    pub fn from_args(
        optimization_level: String,
        enable_multilib: bool,
        static_build: bool,
        target_architectures: Vec<String>,
        configure_args: Vec<String>,
    ) -> (res: Self)
        ensures
            res.optimization_level == optimization_level,
            res.enable_multilib == enable_multilib,
            res.static_build == static_build,
            res.target_architectures == target_architectures,
            res.configure_args == configure_args,
    {
        BuildConfig {
            optimization_level,
            enable_multilib,
            static_build,
            target_architectures,
            configure_args,
        }
    }

    /// The hash that belongs to this configuration.
    pub open spec fn spec_hash(&self) -> Seq<char> {
        spec_config_hash(
            self.optimization_level@,
            self.enable_multilib,
            self.static_build,
            string_views(self.target_architectures@),
            string_views(self.configure_args@),
        )
    }

    /// The canonical text of this configuration.
    pub fn canonical_text(&self) -> (res: String)
        ensures
            res@ == spec_canonical_text(
                self.optimization_level@,
                self.enable_multilib,
                self.static_build,
                string_views(self.target_architectures@),
                string_views(self.configure_args@),
            ),
    {
        let mut text = self.optimization_level.clone();
        text.append(if self.enable_multilib {
            "true"
        } else {
            "false"
        });
        text.append(if self.static_build {
            "true"
        } else {
            "false"
        });
        let targets = join(&self.target_architectures, ",");
        text.append(targets.as_str());
        let args = join(&self.configure_args, " ");
        text.append(args.as_str());
        text
    }

    /// The hash of this configuration: 64 hexadecimal digits that depend
    /// on the five settings alone.
    pub fn generate_hash(&self) -> (res: String)
        ensures
            res@ == self.spec_hash(),
            res@.len() == 64,
    {
        let text = self.canonical_text();
        sha256_hex(text.as_str().as_bytes())
    }

    /// A copy of this configuration.
    pub fn duplicate(&self) -> (res: Self)
        ensures
            res.optimization_level@ == self.optimization_level@,
            res.enable_multilib == self.enable_multilib,
            res.static_build == self.static_build,
            string_views(res.target_architectures@) == string_views(self.target_architectures@),
            string_views(res.configure_args@) == string_views(self.configure_args@),
            res.spec_hash() == self.spec_hash(),
    {
        BuildConfig {
            optimization_level: self.optimization_level.clone(),
            enable_multilib: self.enable_multilib,
            static_build: self.static_build,
            target_architectures: clone_strings(&self.target_architectures),
            configure_args: clone_strings(&self.configure_args),
        }
    }
}

/// Two configurations with the same five settings have the same hash,
/// whatever else differs between the runs they belong to.
pub proof fn lemma_hash_deterministic(a: BuildConfig, b: BuildConfig)
    requires
        a.optimization_level@ == b.optimization_level@,
        a.enable_multilib == b.enable_multilib,
        a.static_build == b.static_build,
        string_views(a.target_architectures@) == string_views(b.target_architectures@),
        string_views(a.configure_args@) == string_views(b.configure_args@),
    ensures
        a.spec_hash() == b.spec_hash(),
{
}

/// One installation kept in the cache.
#[derive(Debug)]
pub struct ArtifactEntry {
    pub gcc_version: String,
    pub config_hash: String,
    pub install_path: String,
    pub size_bytes: u64,
    /// When the entry was stored, in seconds since the epoch.
    pub created_at: u64,
    /// When the entry was last handed out.
    pub last_accessed: u64,
    pub build_time_seconds: u64,
    pub verification_hash: String,
    pub build_config: BuildConfig,
}

/// What was seen on disk of one cached installation.
#[derive(Debug, Clone, Copy, PartialEq, Eq, Structural)]
pub struct ArtifactPresence {
    /// The directory of the installation exists.
    pub path_exists: bool,
    /// `bin/gcc` under it is an executable file.
    pub gcc_executable: bool,
    /// `bin/g++` under it is an executable file.
    pub gpp_executable: bool,
}

/// What a look into the cache comes to.
#[derive(Debug)]
pub enum ArtifactLookup {
    /// The installation is there and usable; it stands at this path.
    Hit(String),
    /// There was an entry, but the installation at this path is not
    /// usable; the entry is gone and the directory can be deleted.
    Invalid(String),
    /// There is no entry.
    Miss,
}

/// A cache of finished installations, found by version and configuration.
#[derive(Debug)]
pub struct ArtifactCache {
    pub cache_dir: String,
    pub index: StrMap<ArtifactEntry>,
    pub total_size_bytes: u64,
    pub last_cleanup: Option<u64>,
    pub max_cache_size_gb: u64,
    pub max_age_days: u64,
}

/// Figures on the cache.
#[derive(Debug)]
pub struct CacheStats {
    pub total_artifacts: usize,
    pub total_size_bytes: u64,
    pub max_size_gb: u64,
    /// How full the cache is, in hundredths, at most 100.
    pub utilization_percent: u64,
    pub total_saved_time_secs: u64,
    pub average_artifact_size_bytes: u64,
}

/// One line of the list of cached installations.
#[derive(Debug)]
pub struct ArtifactSummary {
    pub cache_key: String,
    pub gcc_version: String,
    pub size_bytes: u64,
    pub age_secs: u64,
    pub last_used_secs: u64,
    pub build_time_seconds: u64,
}

/// The first sixteen characters of a configuration hash; all of it where
/// it is shorter.
pub open spec fn spec_hash_head(config_hash: Seq<char>) -> Seq<char> {
    if config_hash.len() < KEY_HASH_LEN {
        config_hash
    } else {
        config_hash.take(KEY_HASH_LEN as int)
    }
}

/// The key under which an installation is kept: the version and the first
/// sixteen characters of the configuration hash.
pub open spec fn spec_cache_key(version: Seq<char>, config_hash: Seq<char>) -> Seq<char> {
    "gcc-"@ + version + "-"@ + spec_hash_head(config_hash)
}

/// The sizes of the entries, added up.
pub open spec fn spec_total_size(entries: Seq<(String, ArtifactEntry)>) -> nat
    decreases entries.len(),
{
    if entries.len() == 0 {
        0
    } else {
        spec_total_size(entries.drop_last()) + entries.last().1.size_bytes as nat
    }
}

/// The build times of the entries, added up.
pub open spec fn spec_total_build_time(entries: Seq<(String, ArtifactEntry)>) -> nat
    decreases entries.len(),
{
    if entries.len() == 0 {
        0
    } else {
        spec_total_build_time(entries.drop_last()) + entries.last().1.build_time_seconds as nat
    }
}

/// Taking an entry out lowers the total by its size.
pub proof fn lemma_total_remove(entries: Seq<(String, ArtifactEntry)>, i: int)
    requires
        0 <= i < entries.len(),
    ensures
        spec_total_size(entries.remove(i)) + entries[i].1.size_bytes == spec_total_size(entries),
    decreases entries.len(),
{
    if i == entries.len() - 1 {
        assert(entries.remove(i) == entries.drop_last());
    } else {
        assert(entries.remove(i).drop_last() == entries.drop_last().remove(i));
        assert(entries.remove(i).last() == entries.last());
        lemma_total_remove(entries.drop_last(), i);
    }
}

/// The size, in bytes, down to which a full cache is emptied: four fifths
/// of the largest size.
pub open spec fn spec_evict_target(max_cache_size_gb: u64) -> int {
    max_cache_size_gb as int * BYTES_PER_GB as int * 80 / 100
}

/// What counts as usable: the directory and both compilers are there.
pub open spec fn spec_usable(p: ArtifactPresence) -> bool {
    p.path_exists && p.gcc_executable && p.gpp_executable
}

/// The moment before which entries count as expired.
pub open spec fn spec_expiry_threshold(now: u64, max_age_days: u64) -> int {
    let span = max_age_days as int * SECS_PER_DAY as int;
    if now as int >= span {
        now as int - span
    } else {
        0
    }
}

impl ArtifactCache {
    /// The entries form a map, and the recorded total is the sum of their sizes.
    pub open spec fn wf(&self) -> bool {
        &&& self.index.wf()
        &&& self.total_size_bytes as nat == spec_total_size(self.index.entries@)
    }

    /// The map from keys to entries.
    pub open spec fn view(&self) -> Map<Seq<char>, ArtifactEntry> {
        self.index@
    }

    /// An empty cache under `cache_dir` that may grow to `max_cache_size_gb`
    /// gigabytes and keeps entries for ninety days.
    pub fn new(cache_dir: String, max_cache_size_gb: u64) -> (res: Self)
        ensures
            res.wf(),
            res.cache_dir@ == cache_dir@,
            res@ == Map::<Seq<char>, ArtifactEntry>::empty(),
            res.total_size_bytes == 0,
            res.last_cleanup is None,
            res.max_cache_size_gb == max_cache_size_gb,
            res.max_age_days == 90,
    {
        ArtifactCache {
            cache_dir,
            index: StrMap::new(),
            total_size_bytes: 0,
            last_cleanup: None,
            max_cache_size_gb,
            max_age_days: 90,
        }
    }

    /// The key under which the installation of a version with a
    /// configuration is kept.
    pub fn generate_cache_key(&self, gcc_version: &str, config_hash: &str) -> (res: String)
        ensures
            res@ == spec_cache_key(gcc_version@, config_hash@),
    {
        let h = chars_of(config_hash);
        let n: usize = if h.len() < KEY_HASH_LEN {
            h.len()
        } else {
            KEY_HASH_LEN
        };
        let head = slice(&h, 0, n);
        assert(head@ == spec_hash_head(config_hash@)) by {
            assert(h@.subrange(0, n as int) =~= spec_hash_head(h@));
        }
        let mut key = "gcc-".to_owned();
        key.append(gcc_version);
        key.append("-");
        push_chars(&mut key, &head);
        key
    }

    /// Where the cache keeps the installation of a version with a
    /// configuration, if it has one. The caller looks at that place and
    /// reports what it saw to `get_artifact`.
    pub fn artifact_path(&self, gcc_version: &str, config_hash: &str) -> (res: Option<String>)
        requires
            self.wf(),
        ensures
            res is Some <==> self@.contains_key(spec_cache_key(gcc_version@, config_hash@)),
            res matches Some(p) ==> p@ == self@[spec_cache_key(
                gcc_version@,
                config_hash@,
            )].install_path@,
    {
        let key = self.generate_cache_key(gcc_version, config_hash);
        match self.index.get(key.as_str()) {
            Some(e) => Some(e.install_path.clone()),
            None => None,
        }
    }

    /// Looks for the installation of a version with a configuration at
    /// time `now`, `seen` being what the caller saw at the place that
    /// `artifact_path` named. An installation is handed out only if its
    /// directory and both compilers were seen; its entry then counts as
    /// used at `now`. An entry whose installation is not usable is taken
    /// out of the cache.
    pub fn get_artifact(
        &mut self,
        gcc_version: &str,
        config_hash: &str,
        seen: ArtifactPresence,
        now: u64,
    ) -> (res: ArtifactLookup)
        requires
            old(self).wf(),
        ensures
            final(self).wf(),
            final(self).cache_dir == old(self).cache_dir,
            final(self).max_cache_size_gb == old(self).max_cache_size_gb,
            final(self).max_age_days == old(self).max_age_days,
            final(self).last_cleanup == old(self).last_cleanup,
            ({
                let key = spec_cache_key(gcc_version@, config_hash@);
                if !old(self)@.contains_key(key) {
                    res is Miss && *final(self) == *old(self)
                } else if spec_usable(seen) {
                    &&& res matches ArtifactLookup::Hit(p) && p@ == old(self)@[key].install_path@
                    &&& final(self)@ == old(self)@.insert(
                        key,
                        ArtifactEntry { last_accessed: now, ..old(self)@[key] },
                    )
                    &&& final(self).total_size_bytes == old(self).total_size_bytes
                } else {
                    &&& res matches ArtifactLookup::Invalid(p) && p@ == old(self)@[key].install_path@
                    &&& final(self)@ == old(self)@.remove(key)
                    &&& final(self).total_size_bytes == old(self).total_size_bytes - old(self)@[key].size_bytes
                }
            }),
    {
        let key = self.generate_cache_key(gcc_version, config_hash);
        match self.index.position(key.as_str()) {
            None => ArtifactLookup::Miss,
            Some(i) => {
                let ghost before = self.index.entries@;
                proof {
                    lemma_total_remove(before, i as int);
                    lemma_entry_in_map(before, i as int);
                }
                let taken = self.index.remove_at(i);
                let name = taken.0;
                let mut entry = taken.1;
                let path = entry.install_path.clone();
                if seen.path_exists && seen.gcc_executable && seen.gpp_executable {
                    entry.last_accessed = now;
                    let ghost mid = self.index.entries@;
                    self.index.insert(name, entry);
                    proof {
                        assert(self.index.entries@.drop_last() == mid);
                        assert(self.index@ =~= old(self)@.insert(
                            key@,
                            ArtifactEntry { last_accessed: now, ..old(self)@[key@] },
                        ));
                    }
                    let r = ArtifactLookup::Hit(path);
                    assert(r matches ArtifactLookup::Hit(p) && p@ == old(self)@[key@].install_path@);
                    r
                } else {
                    self.total_size_bytes = self.total_size_bytes - entry.size_bytes;
                    let r = ArtifactLookup::Invalid(path);
                    assert(r matches ArtifactLookup::Invalid(p) && p@ == old(self)@[key@].install_path@);
                    r
                }
            },
        }
    }
}

/// Whether `k` was taken out: it was a key before and is none now.
pub open spec fn spec_evicted(
    before: Map<Seq<char>, ArtifactEntry>,
    after: Map<Seq<char>, ArtifactEntry>,
    k: Seq<char>,
) -> bool {
    before.contains_key(k) && !after.contains_key(k)
}

/// What stays after an eviction stood there before, unchanged; and no
/// entry that was taken out had been used later than one that stays.
pub open spec fn spec_lru_eviction(
    before: Map<Seq<char>, ArtifactEntry>,
    after: Map<Seq<char>, ArtifactEntry>,
) -> bool {
    &&& forall|k: Seq<char>| #[trigger]
        after.contains_key(k) ==> before.contains_key(k) && after[k] == before[k]
    &&& forall|gone: Seq<char>, kept: Seq<char>|
        spec_evicted(before, after, gone) && #[trigger] after.contains_key(kept) ==> (
        #[trigger] before[gone]).last_accessed <= before[kept].last_accessed
}

impl ArtifactCache {
    /// Whether the cache is in order, as one that was read from a file
    /// must be before it is used: no key occurs twice, and the recorded
    /// total is the sum of the sizes.
    pub fn is_well_formed(&self) -> (res: bool)
        ensures
            res == self.wf(),
    {
        if !self.index.has_unique_keys() {
            return false;
        }
        let n = self.index.len();
        let mut total: u128 = 0;
        let mut i: usize = 0;
        while i < n
            invariant
                i <= n,
                n == self.index.entries@.len(),
                total == spec_total_size(self.index.entries@.take(i as int)),
                total <= i * 0xffff_ffff_ffff_ffff,
            decreases n - i,
        {
            assert(self.index.entries@.take(i + 1).drop_last() == self.index.entries@.take(
                i as int,
            ));
            assert((i + 1) * 0xffff_ffff_ffff_ffff == i * 0xffff_ffff_ffff_ffff
                + 0xffff_ffff_ffff_ffff) by (nonlinear_arith);
            assert(i * 0xffff_ffff_ffff_ffff <= 0xffff_ffff_ffff_ffff * 0xffff_ffff_ffff_ffff)
                by (nonlinear_arith)
                requires
                    i <= 0xffff_ffff_ffff_ffff,
            ;
            total = total + self.index.entries[i].1.size_bytes as u128;
            i += 1;
        }
        assert(self.index.entries@.take(n as int) == self.index.entries@);
        total == self.total_size_bytes as u128
    }

    /// Takes the entry under `cache_key` out of the cache. Returns the
    /// path of its installation, which the caller deletes.
    pub fn remove_artifact(&mut self, cache_key: &str) -> (res: Option<String>)
        requires
            old(self).wf(),
        ensures
            final(self).wf(),
            final(self).cache_dir == old(self).cache_dir,
            final(self).max_cache_size_gb == old(self).max_cache_size_gb,
            final(self).max_age_days == old(self).max_age_days,
            final(self).last_cleanup == old(self).last_cleanup,
            final(self)@ == old(self)@.remove(cache_key@),
            res is Some <==> old(self)@.contains_key(cache_key@),
            res matches Some(p) ==> p@ == old(self)@[cache_key@].install_path@
                && final(self).total_size_bytes == old(self).total_size_bytes - old(self)@[cache_key@].size_bytes,
            res is None ==> final(self).total_size_bytes == old(self).total_size_bytes,
    {
        match self.index.position(cache_key) {
            None => {
                assert(self.index@ =~= self.index@.remove(cache_key@));
                None
            },
            Some(i) => {
                proof {
                    lemma_total_remove(self.index.entries@, i as int);
                    lemma_entry_in_map(self.index.entries@, i as int);
                }
                let taken = self.index.remove_at(i);
                self.total_size_bytes = self.total_size_bytes - taken.1.size_bytes;
                Some(taken.1.install_path)
            },
        }
    }

    /// The size, in bytes, down to which a full cache is emptied.
    pub fn evict_target(&self) -> (res: u128)
        ensures
            res == spec_evict_target(self.max_cache_size_gb),
    {
        (self.max_cache_size_gb as u128) * 1000000000 * 80 / 100
    }

    /// Whether the cache holds more than it may.
    pub fn is_over_limit(&self) -> (res: bool)
        ensures
            res == (self.total_size_bytes as int > self.max_cache_size_gb as int
                * BYTES_PER_GB as int),
    {
        (self.total_size_bytes as u128) > (self.max_cache_size_gb as u128) * 1000000000
    }

    /// Takes entries out, the least recently used first, until the cache
    /// holds no more than four fifths of what it may. Nothing is taken out
    /// of a cache that is below that mark already. Returns the paths of the
    /// installations taken out, which the caller deletes.
    pub fn evict_old_artifacts(&mut self) -> (evicted: Vec<String>)
        requires
            old(self).wf(),
        ensures
            final(self).wf(),
            final(self).cache_dir == old(self).cache_dir,
            final(self).max_cache_size_gb == old(self).max_cache_size_gb,
            final(self).max_age_days == old(self).max_age_days,
            final(self).last_cleanup == old(self).last_cleanup,
            final(self).total_size_bytes as int <= spec_evict_target(old(self).max_cache_size_gb)
                || final(self).index.entries@.len() == 0,
            spec_lru_eviction(old(self)@, final(self)@),
            old(self).total_size_bytes as int <= spec_evict_target(old(self).max_cache_size_gb)
                ==> *final(self) == *old(self) && evicted@.len() == 0,
            evicted@.len() + final(self).index.entries@.len() == old(self).index.entries@.len(),
    {
        let target = self.evict_target();
        let mut evicted: Vec<String> = Vec::new();
        let ghost start = self@;
        while (self.total_size_bytes as u128) > target && self.index.len() > 0
            invariant
                self.wf(),
                self.cache_dir == old(self).cache_dir,
                self.max_cache_size_gb == old(self).max_cache_size_gb,
                self.max_age_days == old(self).max_age_days,
                self.last_cleanup == old(self).last_cleanup,
                target == spec_evict_target(old(self).max_cache_size_gb),
                start == old(self)@,
                spec_lru_eviction(start, self@),
                evicted@.len() == 0 ==> *self == *old(self),
                old(self).total_size_bytes as int <= target ==> evicted@.len() == 0,
                evicted@.len() + self.index.entries@.len() == old(self).index.entries@.len(),
            decreases self.index.entries@.len(),
        {
            let n = self.index.len();
            let mut m: usize = 0;
            let mut j: usize = 1;
            while j < n
                invariant
                    1 <= j <= n,
                    n == self.index.entries@.len(),
                    m < j,
                    forall|k: int|
                        0 <= k < j ==> self.index.entries@[m as int].1.last_accessed
                            <= self.index.entries@[k].1.last_accessed,
                decreases n - j,
            {
                if self.index.entries[j].1.last_accessed < self.index.entries[m].1.last_accessed {
                    m = j;
                }
                j += 1;
            }
            let ghost cur_entries = self.index.entries@;
            let ghost cur = self@;
            proof {
                lemma_total_remove(cur_entries, m as int);
                lemma_entry_in_map(cur_entries, m as int);
            }
            let taken = self.index.remove_at(m);
            self.total_size_bytes = self.total_size_bytes - taken.1.size_bytes;
            proof {
                let gone_key = taken.0@;
                let after = self@;
                assert(after == cur.remove(gone_key));
                assert(start.contains_key(gone_key) && start[gone_key] == cur[gone_key]);
                assert forall|gone: Seq<char>, kept: Seq<char>|
                    spec_evicted(start, after, gone) && #[trigger] after.contains_key(
                        kept,
                    ) implies (#[trigger] start[gone]).last_accessed
                    <= start[kept].last_accessed by {
                    assert(cur.contains_key(kept));
                    if gone == gone_key {
                        let q = choose|q: int| spec_key_at(cur_entries, q, kept);
                        lemma_entry_in_map(cur_entries, q);
                        assert(cur[kept] == cur_entries[q].1);
                    } else {
                        assert(spec_evicted(start, cur, gone));
                    }
                }
            }
            evicted.push(taken.1.install_path);
        }
        evicted
    }

    /// Takes out the entries that were stored more than the largest age
    /// before `now`. Returns the paths of their installations, which the
    /// caller deletes.
    pub fn cleanup_expired_artifacts(&mut self, now: u64) -> (expired: Vec<String>)
        requires
            old(self).wf(),
        ensures
            final(self).wf(),
            final(self).cache_dir == old(self).cache_dir,
            final(self).max_cache_size_gb == old(self).max_cache_size_gb,
            final(self).max_age_days == old(self).max_age_days,
            final(self).last_cleanup == old(self).last_cleanup,
            forall|k: Seq<char>| #[trigger]
                final(self)@.contains_key(k) <==> old(self)@.contains_key(k) && old(self)@[k].created_at as int >= spec_expiry_threshold(now, old(self).max_age_days),
            forall|k: Seq<char>| #[trigger]
                final(self)@.contains_key(k) ==> final(self)@[k] == old(self)@[k],
            expired@.len() + final(self).index.entries@.len() == old(self).index.entries@.len(),
    {
        let span: u128 = (self.max_age_days as u128) * 86400;
        let threshold: u64 = if (now as u128) >= span {
            ((now as u128) - span) as u64
        } else {
            0
        };
        let mut expired: Vec<String> = Vec::new();
        let ghost start = self@;
        let mut i: usize = 0;
        while i < self.index.len()
            invariant
                self.wf(),
                self.cache_dir == old(self).cache_dir,
                self.max_cache_size_gb == old(self).max_cache_size_gb,
                self.max_age_days == old(self).max_age_days,
                self.last_cleanup == old(self).last_cleanup,
                threshold == spec_expiry_threshold(now, old(self).max_age_days),
                start == old(self)@,
                i <= self.index.entries@.len(),
                forall|j: int|
                    0 <= j < i ==> (#[trigger] self.index.entries@[j]).1.created_at >= threshold,
                forall|k: Seq<char>| #[trigger]
                    self@.contains_key(k) ==> start.contains_key(k) && self@[k] == start[k],
                forall|k: Seq<char>| #[trigger]
                    start.contains_key(k) && start[k].created_at >= threshold ==> self@.contains_key(
                        k,
                    ),
                expired@.len() + self.index.entries@.len() == old(self).index.entries@.len(),
            decreases self.index.entries@.len() - i,
        {
            if self.index.entries[i].1.created_at < threshold {
                let ghost cur_entries = self.index.entries@;
                let ghost cur = self@;
                proof {
                    lemma_total_remove(cur_entries, i as int);
                    lemma_entry_in_map(cur_entries, i as int);
                }
                let taken = self.index.remove_at(i);
                self.total_size_bytes = self.total_size_bytes - taken.1.size_bytes;
                proof {
                    assert(self@ == cur.remove(taken.0@));
                    assert forall|j: int| 0 <= j < i implies (
                    #[trigger] self.index.entries@[j]).1.created_at >= threshold by {
                        assert(self.index.entries@[j] == cur_entries[j]);
                    }
                }
                expired.push(taken.1.install_path);
            } else {
                i += 1;
            }
        }
        proof {
            assert forall|k: Seq<char>| #[trigger] self@.contains_key(k) implies start[k].created_at
                >= threshold by {
                let q = choose|q: int| spec_key_at(self.index.entries@, q, k);
                lemma_entry_in_map(self.index.entries@, q);
            }
        }
        expired
    }

    /// Whether the daily cleanup is due at time `now`: none was made yet,
    /// or the last one is more than a day old.
    pub fn cleanup_due(&self, now: u64) -> (res: bool)
        ensures
            res == match self.last_cleanup {
                Some(last) => now as int - last as int > SECS_PER_DAY as int,
                None => true,
            },
    {
        match self.last_cleanup {
            Some(last) => now > last && now - last > SECS_PER_DAY,
            None => true,
        }
    }

    /// Makes the daily cleanup if it is due: expired entries go, and the
    /// time of the cleanup is noted. Returns the paths to delete.
    pub fn cleanup_if_needed(&mut self, now: u64) -> (expired: Vec<String>)
        requires
            old(self).wf(),
        ensures
            final(self).wf(),
            final(self).cache_dir == old(self).cache_dir,
            final(self).max_cache_size_gb == old(self).max_cache_size_gb,
            final(self).max_age_days == old(self).max_age_days,
            (match old(self).last_cleanup {
                Some(last) => now as int - last as int > SECS_PER_DAY as int,
                None => true,
            }) ==> {
                &&& final(self).last_cleanup == Some(now)
                &&& forall|k: Seq<char>| #[trigger]
                    final(self)@.contains_key(k) <==> old(self)@.contains_key(k) && old(self)@[k].created_at as int >= spec_expiry_threshold(now, old(self).max_age_days)
                &&& forall|k: Seq<char>| #[trigger]
                    final(self)@.contains_key(k) ==> final(self)@[k] == old(self)@[k]
            },
            !(match old(self).last_cleanup {
                Some(last) => now as int - last as int > SECS_PER_DAY as int,
                None => true,
            }) ==> *final(self) == *old(self) && expired@.len() == 0,
    {
        if self.cleanup_due(now) {
            let expired = self.cleanup_expired_artifacts(now);
            let ghost mid = self@;
            self.last_cleanup = Some(now);
            assert(self@ == mid);
            expired
        } else {
            Vec::new()
        }
    }

    /// Stores the installation of a version with a configuration at time
    /// `now`. The entry names the place under the cache directory to which
    /// the caller has copied the installation. An entry under the same key
    /// is replaced. Where the cache then holds more than it may, the least
    /// recently used entries go. Returns the paths to delete, or an error
    /// where the sizes no longer add up in 64 bits.
    pub fn store_artifact(
        &mut self,
        gcc_version: &str,
        config_hash: String,
        size_bytes: u64,
        verification_hash: String,
        build_time_seconds: u64,
        build_config: BuildConfig,
        now: u64,
    ) -> (res: Result<Vec<String>, BuildError>)
        requires
            old(self).wf(),
        ensures
            final(self).wf(),
            final(self).cache_dir == old(self).cache_dir,
            final(self).max_cache_size_gb == old(self).max_cache_size_gb,
            final(self).max_age_days == old(self).max_age_days,
            final(self).last_cleanup == old(self).last_cleanup,
            ({
                let key = spec_cache_key(gcc_version@, config_hash@);
                let freed: int = if old(self)@.contains_key(key) {
                    old(self)@[key].size_bytes as int
                } else {
                    0
                };
                let grown = old(self).total_size_bytes - freed + size_bytes;
                &&& res is Ok <==> grown <= u64::MAX
                &&& res is Err ==> *final(self) == *old(self)
                &&& res is Ok ==> exists|stored: Map<Seq<char>, ArtifactEntry>|
                    {
                        &&& #[trigger] stored.dom() == old(self)@.dom().insert(key)
                        &&& forall|k: Seq<char>|
                            old(self)@.contains_key(k) && k != key ==> stored[k] == old(self)@[k]
                        &&& stored[key].gcc_version@ == gcc_version@
                        &&& stored[key].config_hash@ == config_hash@
                        &&& stored[key].install_path@ == spec_path_join(old(self).cache_dir@, key)
                        &&& stored[key].size_bytes == size_bytes
                        &&& stored[key].created_at == now
                        &&& stored[key].last_accessed == now
                        &&& stored[key].build_time_seconds == build_time_seconds
                        &&& stored[key].verification_hash@ == verification_hash@
                        &&& stored[key].build_config == build_config
                        &&& (grown <= old(self).max_cache_size_gb as int * BYTES_PER_GB as int
                            ==> final(self)@ == stored && final(self).total_size_bytes == grown)
                        &&& spec_lru_eviction(stored, final(self)@)
                        &&& (final(self).total_size_bytes as int <= old(self).max_cache_size_gb as int
                            * BYTES_PER_GB as int || final(self).index.entries@.len() == 0)
                    }
            }),
    {
        let key = self.generate_cache_key(gcc_version, config_hash.as_str());
        let ghost gkey = key@;
        let freed: u64 = match self.index.get(key.as_str()) {
            Some(e) => e.size_bytes,
            None => 0,
        };
        proof {
            if self@.contains_key(gkey) {
                let q = choose|q: int| spec_key_at(self.index.entries@, q, gkey);
                lemma_total_remove(self.index.entries@, q);
                lemma_entry_in_map(self.index.entries@, q);
            }
        }
        let grown: u128 = (self.total_size_bytes as u128) - (freed as u128) + (size_bytes as u128);
        if grown > u64::MAX as u128 {
            return Err(
                BuildError::ResourceExhausted {
                    resource: "artifact cache".to_owned(),
                    message: "size of the cache exceeds what can be counted".to_owned(),
                },
            );
        }
        let install_path = path_join(self.cache_dir.as_str(), key.as_str());
        let _ = self.remove_artifact(key.as_str());
        let entry = ArtifactEntry {
            gcc_version: gcc_version.to_owned(),
            config_hash,
            install_path,
            size_bytes,
            created_at: now,
            last_accessed: now,
            build_time_seconds,
            verification_hash,
            build_config,
        };
        let ghost mid = self.index.entries@;
        self.index.insert(key, entry);
        self.total_size_bytes = grown as u64;
        let ghost stored = self@;
        proof {
            assert(self.index.entries@.drop_last() == mid);
            assert(stored.dom() =~= old(self)@.dom().insert(gkey));
        }
        if self.is_over_limit() {
            let evicted = self.evict_old_artifacts();
            proof {
                assert(spec_evict_target(self.max_cache_size_gb) <= self.max_cache_size_gb
                    * BYTES_PER_GB);
            }
            Ok(evicted)
        } else {
            proof {
                assert(spec_lru_eviction(stored, self@));
            }
            Ok(Vec::new())
        }
    }

    /// Figures on the cache.
    pub fn get_stats(&self) -> (res: CacheStats)
        requires
            self.wf(),
        ensures
            res.total_artifacts == self.index.entries@.len(),
            res.total_size_bytes == self.total_size_bytes,
            res.max_size_gb == self.max_cache_size_gb,
            res.utilization_percent == (if self.max_cache_size_gb == 0 {
                100
            } else {
                let pct = self.total_size_bytes as int * 100 / (self.max_cache_size_gb as int
                    * BYTES_PER_GB as int);
                if pct > 100 {
                    100
                } else {
                    pct
                }
            }),
            res.total_saved_time_secs == (if spec_total_build_time(self.index.entries@)
                > u64::MAX {
                u64::MAX as int
            } else {
                spec_total_build_time(self.index.entries@) as int
            }),
            res.average_artifact_size_bytes == (if self.index.entries@.len() == 0 {
                0
            } else {
                self.total_size_bytes as int / self.index.entries@.len() as int
            }),
    {
        let n = self.index.len();
        let mut saved: u128 = 0;
        let mut i: usize = 0;
        while i < n
            invariant
                i <= n,
                n == self.index.entries@.len(),
                saved == spec_total_build_time(self.index.entries@.take(i as int)),
                saved <= i * 0xffff_ffff_ffff_ffff,
            decreases n - i,
        {
            assert(self.index.entries@.take(i + 1).drop_last() == self.index.entries@.take(
                i as int,
            ));
            assert((i + 1) * 0xffff_ffff_ffff_ffff == i * 0xffff_ffff_ffff_ffff
                + 0xffff_ffff_ffff_ffff) by (nonlinear_arith);
            assert(i * 0xffff_ffff_ffff_ffff <= 0xffff_ffff_ffff_ffff * 0xffff_ffff_ffff_ffff)
                by (nonlinear_arith)
                requires
                    i <= 0xffff_ffff_ffff_ffff,
            ;
            saved = saved + self.index.entries[i].1.build_time_seconds as u128;
            i += 1;
        }
        assert(self.index.entries@.take(n as int) == self.index.entries@);
        let utilization: u64 = if self.max_cache_size_gb == 0 {
            100
        } else {
            let limit: u128 = (self.max_cache_size_gb as u128) * 1000000000;
            let pct: u128 = (self.total_size_bytes as u128) * 100 / limit;
            if pct > 100 {
                100
            } else {
                pct as u64
            }
        };
        CacheStats {
            total_artifacts: n,
            total_size_bytes: self.total_size_bytes,
            max_size_gb: self.max_cache_size_gb,
            utilization_percent: utilization,
            total_saved_time_secs: if saved > u64::MAX as u128 {
                u64::MAX
            } else {
                saved as u64
            },
            average_artifact_size_bytes: if n == 0 {
                0
            } else {
                self.total_size_bytes / (n as u64)
            },
        }
    }

    /// The cached installations at time `now`, in the order of the index.
    pub fn list_artifacts(&self, now: u64) -> (res: Vec<ArtifactSummary>)
        ensures
            res@.len() == self.index.entries@.len(),
            forall|i: int|
                0 <= i < res@.len() ==> {
                    &&& (#[trigger] res@[i]).cache_key@ == self.index.entries@[i].0@
                    &&& res@[i].gcc_version@ == self.index.entries@[i].1.gcc_version@
                    &&& res@[i].size_bytes == self.index.entries@[i].1.size_bytes
                    &&& res@[i].build_time_seconds == self.index.entries@[i].1.build_time_seconds
                    &&& res@[i].age_secs == (if now >= self.index.entries@[i].1.created_at {
                        now - self.index.entries@[i].1.created_at
                    } else {
                        0
                    })
                    &&& res@[i].last_used_secs == (if now
                        >= self.index.entries@[i].1.last_accessed {
                        now - self.index.entries@[i].1.last_accessed
                    } else {
                        0
                    })
                },
    {
        let mut out: Vec<ArtifactSummary> = Vec::new();
        let mut i: usize = 0;
        while i < self.index.entries.len()
            invariant
                i <= self.index.entries@.len(),
                out@.len() == i,
                forall|j: int|
                    0 <= j < i ==> {
                        &&& (#[trigger] out@[j]).cache_key@ == self.index.entries@[j].0@
                        &&& out@[j].gcc_version@ == self.index.entries@[j].1.gcc_version@
                        &&& out@[j].size_bytes == self.index.entries@[j].1.size_bytes
                        &&& out@[j].build_time_seconds
                            == self.index.entries@[j].1.build_time_seconds
                        &&& out@[j].age_secs == (if now >= self.index.entries@[j].1.created_at {
                            now - self.index.entries@[j].1.created_at
                        } else {
                            0
                        })
                        &&& out@[j].last_used_secs == (if now
                            >= self.index.entries@[j].1.last_accessed {
                            now - self.index.entries@[j].1.last_accessed
                        } else {
                            0
                        })
                    },
            decreases self.index.entries@.len() - i,
        {
            let e = &self.index.entries[i];
            out.push(
                ArtifactSummary {
                    cache_key: e.0.clone(),
                    gcc_version: e.1.gcc_version.clone(),
                    size_bytes: e.1.size_bytes,
                    age_secs: if now >= e.1.created_at {
                        now - e.1.created_at
                    } else {
                        0
                    },
                    last_used_secs: if now >= e.1.last_accessed {
                        now - e.1.last_accessed
                    } else {
                        0
                    },
                    build_time_seconds: e.1.build_time_seconds,
                },
            );
            i += 1;
        }
        out
    }
}

/// What was read of one of the files and directories that stand for an
/// installation when its hash is taken.
#[derive(Debug)]
pub enum KeyItem {
    /// A file, with its bytes.
    File(Vec<u8>),
    /// A directory, with its path.
    Directory(String),
    /// Nothing is at the path.
    Missing,
}

/// The paths, below an installation, of the files and directories that
/// stand for it when its hash is taken.
pub open spec fn spec_key_paths() -> Seq<Seq<char>> {
    seq!["bin/gcc"@, "bin/g++"@, "lib/gcc"@, "include"@]
}

/// The bytes that the first `k` items bring to the hash: the bytes of a
/// file, the path of a directory, and nothing for what is missing.
pub open spec fn spec_key_bytes(items: Seq<KeyItem>, k: int) -> Seq<u8>
    decreases k,
{
    if k <= 0 {
        Seq::empty()
    } else {
        spec_key_bytes(items, k - 1) + (match items[k - 1] {
            KeyItem::File(bytes) => bytes@,
            KeyItem::Directory(path) => vstd::utf8::encode_utf8(path@),
            KeyItem::Missing => Seq::<u8>::empty(),
        })
    }
}

/// The paths of the files and directories that stand for an installation.
pub fn key_paths() -> (res: Vec<String>)
    ensures
        string_views(res@) == spec_key_paths(),
{
    let mut paths: Vec<String> = Vec::new();
    assert(string_views(paths@) =~= Seq::<Seq<char>>::empty());
    crate::text::push_str(&mut paths, "bin/gcc");
    crate::text::push_str(&mut paths, "bin/g++");
    crate::text::push_str(&mut paths, "lib/gcc");
    crate::text::push_str(&mut paths, "include");
    paths
}

/// Appends bytes to a buffer.
pub fn push_bytes(out: &mut Vec<u8>, bytes: &[u8])
    ensures
        final(out)@ == old(out)@ + bytes@,
{
    let mut i: usize = 0;
    while i < bytes.len()
        invariant
            i <= bytes.len(),
            out@ == old(out)@ + bytes@.take(i as int),
        decreases bytes.len() - i,
    {
        out.push(bytes[i]);
        assert(bytes@.take(i + 1) =~= bytes@.take(i as int).push(bytes@[i as int]));
        i += 1;
    }
    assert(bytes@.take(bytes.len() as int) == bytes@);
}

/// The hash by which an installation is known again: the SHA-256 digest,
/// in hexadecimal, of what its key files and directories bring, taken in
/// the order of `key_paths`.
pub fn calculate_verification_hash(items: &Vec<KeyItem>) -> (res: String)
    ensures
        res@ == spec_hex_lower(spec_sha256(spec_key_bytes(items@, items@.len() as int))),
        res@.len() == 64,
{
    let mut buffer: Vec<u8> = Vec::new();
    let mut i: usize = 0;
    while i < items.len()
        invariant
            i <= items.len(),
            buffer@ == spec_key_bytes(items@, i as int),
        decreases items.len() - i,
    {
        match &items[i] {
            KeyItem::File(bytes) => {
                push_bytes(&mut buffer, bytes.as_slice());
            },
            KeyItem::Directory(path) => {
                push_bytes(&mut buffer, path.as_str().as_bytes());
            },
            KeyItem::Missing => {
                assert(buffer@ + Seq::<u8>::empty() =~= buffer@);
            },
        }
        i += 1;
    }
    sha256_hex(buffer.as_slice())
}

/// An installation that has been stored is found again: a cache that
/// holds an entry under the key of a version and a configuration hands its
/// path out whenever the installation is seen to be usable.
pub proof fn lemma_stored_is_found(
    index: Map<Seq<char>, ArtifactEntry>,
    version: Seq<char>,
    config_hash: Seq<char>,
    entry: ArtifactEntry,
)
    ensures
        index.insert(spec_cache_key(version, config_hash), entry).contains_key(
            spec_cache_key(version, config_hash),
        ),
        index.insert(spec_cache_key(version, config_hash), entry)[spec_cache_key(
            version,
            config_hash,
        )] == entry,
{
}

} // verus!
