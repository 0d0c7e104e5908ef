use vstd::prelude::*;
use vstd::string::StringExecFns;
use crate::config::VERSION_CACHE_TTL_SECS;
use crate::decimal::{push_decimal, spec_decimal};
use crate::error::BuildError;
use crate::pattern::{regex_find_all, spec_regex_find_all};
use crate::scan::{lines, spec_lines};
use crate::strmap::StrMap;
use crate::text::{
    chars_of,
    chars_eq,
    find,
    join,
    push_string,
    slice,
    spec_contains,
    spec_first_offset,
    spec_join,
    spec_starts_with,
    starts_with,
    string_of,
    string_views,
    views,
};
use crate::version::{get_known_version, spec_known_version, spec_parse_version, GccVersion};

verus! {

/// Where a resolved version came from.
#[derive(Debug, Clone, Copy, PartialEq, Eq, Structural)]
pub enum ResolveSource {
    /// From the cache of earlier answers.
    Cache,
    /// From the list of releases on the server.
    Server,
    /// From the table of known releases, the server being out of reach.
    Fallback,
}

/// Whether the version `a` is older than `b`.
pub open spec fn spec_triple_less(a: (int, int, int), b: (int, int, int)) -> bool {
    a.0 < b.0 || (a.0 == b.0 && (a.1 < b.1 || (a.1 == b.1 && a.2 < b.2)))
}

/// The regular expression that finds the release directories of a line
/// in the list of releases.
pub open spec fn spec_release_pattern(major: u32) -> Seq<char> {
    "gcc-"@ + spec_decimal(major as nat) + "\\.\\d+\\.\\d+/"@
}

/// The version that a directory name such as `gcc-13.2.0/` names, if it
/// names one of the line `major`.
pub open spec fn spec_candidate(name: Seq<char>, major: u32) -> Option<(int, int, int)> {
    if name.len() >= 5 && spec_starts_with(name, "gcc-"@) && name.last() == '/' {
        match spec_parse_version(name.subrange(4, name.len() - 1)) {
            Some(t) => if t.0 == major {
                Some(t)
            } else {
                None
            },
            None => None,
        }
    } else {
        None
    }
}

/// Whether `res` is the newest release of the line `major` among the
/// directory names: the names hold a release exactly if there is a result,
/// the result is among them, and none of them is newer.
pub open spec fn spec_is_latest(major: u32, names: Seq<Seq<char>>, res: Option<GccVersion>) -> bool {
    match res {
        None => forall|i: int| 0 <= i < names.len() ==> (#[trigger] spec_candidate(names[i], major))
            is None,
        Some(v) => {
            &&& v.wf()
            &&& exists|i: int|
                0 <= i < names.len() && #[trigger] spec_candidate(names[i], major) == Some(
                    v.triple(),
                )
            &&& forall|j: int|
                0 <= j < names.len() && (#[trigger] spec_candidate(names[j], major)) is Some
                    ==> !spec_triple_less(v.triple(), spec_candidate(names[j], major)->0)
        },
    }
}

/// The regular expression that finds the release directories of a line.
pub fn release_pattern(major: u32) -> (res: String)
    ensures
        res@ == spec_release_pattern(major),
{
    let mut p = "gcc-".to_owned();
    push_decimal(&mut p, major as u64);
    p.append("\\.\\d+\\.\\d+/");
    p
}

/// The version that a directory name names, if it names one of the line `major`.
pub fn candidate_version(name: &str, major: u32) -> (res: Option<GccVersion>)
    ensures
        res is Some <==> spec_candidate(name@, major) is Some,
        res matches Some(v) ==> v.wf() && Some(v.triple()) == spec_candidate(name@, major),
{
    let n = chars_of(name);
    let head = chars_of("gcc-");
    proof {
        reveal_strlit("gcc-");
    }
    if n.len() >= 5 && starts_with(&n, &head) && n[n.len() - 1] == '/' {
        let body = slice(&n, 4, n.len() - 1);
        let text = string_of(&body);
        match GccVersion::parse(text.as_str()) {
            Some(v) => {
                if v.major as u32 == major {
                    Some(v)
                } else {
                    None
                }
            },
            None => None,
        }
    } else {
        None
    }
}

/// The newest release of the line `major` among directory names.
pub fn latest_release(major: u32, names: &Vec<String>) -> (res: Option<GccVersion>)
    ensures
        spec_is_latest(major, string_views(names@), res),
{
    let ghost ns = string_views(names@);
    let mut best: Option<GccVersion> = None;
    let mut i: usize = 0;
    while i < names.len()
        invariant
            i <= names.len(),
            ns == string_views(names@),
            spec_is_latest(major, ns.take(i as int), best),
        decreases names.len() - i,
    {
        let ghost before = ns.take(i as int);
        let ghost now = ns.take(i + 1);
        assert(ns[i as int] == names@[i as int]@);
        assert forall|j: int| 0 <= j < before.len() implies now[j] == before[j] by {}
        assert(now[i as int] == ns[i as int]);
        let c = candidate_version(names[i].as_str(), major);
        let ghost old_best = best;
        match c {
            Some(v) => {
                let better = match &best {
                    Some(b) => b.precedes(&v),
                    None => true,
                };
                if better {
                    best = Some(v);
                    proof {
                        assert(spec_candidate(now[i as int], major) == Some(v.triple()));
                        assert forall|j: int|
                            0 <= j < now.len() && (#[trigger] spec_candidate(now[j], major))
                                is Some implies !spec_triple_less(
                            v.triple(),
                            spec_candidate(now[j], major)->0,
                        ) by {
                            if j < i {
                                assert(now[j] == before[j]);
                                match old_best {
                                    Some(b) => {
                                        assert(!spec_triple_less(
                                            b.triple(),
                                            spec_candidate(before[j], major)->0,
                                        ));
                                    },
                                    None => {
                                        assert(spec_candidate(before[j], major) is None);
                                    },
                                }
                            }
                        }
                    }
                } else {
                    proof {
                        let b = old_best->0;
                        let w = choose|w: int|
                            0 <= w < before.len() && #[trigger] spec_candidate(before[w], major)
                                == Some(b.triple());
                        assert(now[w] == before[w]);
                        assert(spec_candidate(now[w], major) == Some(b.triple()));
                        assert forall|j: int|
                            0 <= j < now.len() && (#[trigger] spec_candidate(now[j], major))
                                is Some implies !spec_triple_less(
                            b.triple(),
                            spec_candidate(now[j], major)->0,
                        ) by {
                            if j < i {
                                assert(now[j] == before[j]);
                            }
                        }
                    }
                }
            },
            None => {
                proof {
                    match old_best {
                        Some(b) => {
                            let w = choose|w: int|
                                0 <= w < before.len() && #[trigger] spec_candidate(before[w], major)
                                    == Some(b.triple());
                            assert(now[w] == before[w]);
                            assert(spec_candidate(now[w], major) == Some(b.triple()));
                            assert forall|j: int|
                                0 <= j < now.len() && (#[trigger] spec_candidate(now[j], major))
                                    is Some implies !spec_triple_less(
                                b.triple(),
                                spec_candidate(now[j], major)->0,
                            ) by {
                                if j < i {
                                    assert(now[j] == before[j]);
                                }
                            }
                        },
                        None => {
                            assert forall|j: int| 0 <= j < now.len() implies (
                            #[trigger] spec_candidate(now[j], major)) is None by {
                                if j < i {
                                    assert(now[j] == before[j]);
                                }
                            }
                        },
                    }
                }
            },
        }
        i += 1;
    }
    assert(ns.take(names.len() as int) == ns);
    best
}

/// The newest release of the line `major` in the list of releases that
/// the server sent: the release directories are found with the regular
/// expression for the line, and the newest is taken.
pub fn latest_in_listing(major: u32, listing: &str) -> (res: Option<GccVersion>)
    ensures
        match spec_regex_find_all(spec_release_pattern(major), listing@) {
            Some(names) => spec_is_latest(major, names, res),
            None => res is None,
        },
{
    let pattern = release_pattern(major);
    match regex_find_all(pattern.as_str(), listing) {
        Some(names) => latest_release(major, &names),
        None => None,
    }
}

/// Whether some of the directory names names a release of the line `major`.
pub open spec fn spec_names_release(major: u32, names: Option<Seq<Seq<char>>>) -> bool {
    match names {
        Some(ns) => exists|i: int|
            0 <= i < ns.len() && (#[trigger] spec_candidate(ns[i], major)) is Some,
        None => false,
    }
}

/// What resolving the line `major` owes, `found` being the release
/// directories found in the list that the server sent, if it sent one.
pub open spec fn spec_resolved(
    major: u32,
    cached: Option<GccVersion>,
    found: Option<Seq<Seq<char>>>,
    res: Result<(GccVersion, ResolveSource), BuildError>,
) -> bool {
    match cached {
        Some(c) => match res {
            Ok(r) => r.0 == c && r.1 == ResolveSource::Cache,
            Err(_) => false,
        },
        None => spec_resolved_afresh(major, found, res),
    }
}

/// What resolving the line `major` owes where no cached answer is at hand.
pub open spec fn spec_resolved_afresh(
    major: u32,
    found: Option<Seq<Seq<char>>>,
    res: Result<(GccVersion, ResolveSource), BuildError>,
) -> bool {
    if spec_names_release(major, found) {
        match res {
            Ok(r) => r.1 == ResolveSource::Server && spec_is_latest(major, found->0, Some(r.0)),
            Err(_) => false,
        }
    } else if spec_known_version(major as int) is Some {
        match res {
            Ok(r) => r.1 == ResolveSource::Fallback && r.0.wf() && Some(r.0.triple())
                == spec_known_version(major as int),
            Err(_) => false,
        }
    } else {
        match res {
            Ok(_) => false,
            Err(e) => match e {
                BuildError::VersionLookup { major_version, message } => major_version == major,
                _ => false,
            },
        }
    }
}

/// The version that the file of cached versions gives for the line
/// `major`, if the file is there, is not too old, and names a version.
pub open spec fn spec_cached_release(
    contents: Option<Seq<char>>,
    age_secs: u64,
    major: u32,
) -> Option<(int, int, int)> {
    match contents {
        Some(text) => if age_secs > VERSION_CACHE_TTL_SECS {
            None
        } else {
            match spec_cached_version(text, major) {
                Some(v) => spec_parse_version(v),
                None => None,
            }
        },
        None => None,
    }
}

/// What finding the newest release of the line `major` owes.
pub open spec fn spec_latest_release(
    major: u32,
    cached: Option<(int, int, int)>,
    found: Option<Seq<Seq<char>>>,
    res: Result<(GccVersion, ResolveSource), BuildError>,
) -> bool {
    match cached {
        Some(t) => match res {
            Ok(r) => r.0.wf() && r.0.triple() == t && r.1 == ResolveSource::Cache,
            Err(_) => false,
        },
        None => spec_resolved_afresh(major, found, res),
    }
}

/// The versions that were resolved, in their order.
pub open spec fn spec_resolved_triples(resolved: Seq<Option<GccVersion>>, k: int) -> Seq<
    (int, int, int),
>
    decreases k,
{
    if k <= 0 {
        Seq::empty()
    } else {
        match resolved[k - 1] {
            Some(v) => spec_resolved_triples(resolved, k - 1).push(v.triple()),
            None => spec_resolved_triples(resolved, k - 1),
        }
    }
}

/// The versions of a list.
pub open spec fn spec_triples(versions: Seq<GccVersion>) -> Seq<(int, int, int)> {
    Seq::new(versions.len(), |i: int| versions[i].triple())
}

/// Resolves the line `major` to a release: from the cached answer where
/// there is one, else from the list of releases where the server sent one
/// that names a release, else from the table of known releases. Only where
/// all three have nothing is there an error.
pub fn resolve_latest(major: u32, cached: Option<GccVersion>, listing: Option<&str>) -> (res:
    Result<(GccVersion, ResolveSource), BuildError>)
    ensures
        spec_resolved(
            major,
            cached,
            match listing {
                Some(l) => spec_regex_find_all(spec_release_pattern(major), l@),
                None => None,
            },
            res,
        ),
{
    match cached {
        Some(v) => {
            return Ok((v, ResolveSource::Cache));
        },
        None => {},
    }
    let ghost found: Option<Seq<Seq<char>>> = match listing {
        Some(l) => spec_regex_find_all(spec_release_pattern(major), l@),
        None => None,
    };
    let from_server: Option<GccVersion> = match listing {
        Some(l) => latest_in_listing(major, l),
        None => None,
    };
    match from_server {
        Some(v) => {
            proof {
                let ns = found->0;
                let w = choose|w: int|
                    0 <= w < ns.len() && #[trigger] spec_candidate(ns[w], major) == Some(
                        v.triple(),
                    );
                assert(spec_candidate(ns[w], major) is Some);
                assert(spec_names_release(major, found));
            }
            Ok((v, ResolveSource::Server))
        },
        None => {
            assert(!spec_names_release(major, found));
            match get_known_version(major) {
                Some(v) => Ok((v, ResolveSource::Fallback)),
                None => Err(
                    BuildError::VersionLookup {
                        major_version: major,
                        message: "Server lookup failed and no fallback version available".to_owned(),
                    },
                ),
            }
        },
    }
}

/// The key of a line in the file of cached versions.
pub open spec fn spec_cache_file_key(major: u32) -> Seq<char> {
    "gcc-"@ + spec_decimal(major as nat)
}

/// What a line of the file of cached versions says of the line `major`:
/// the text behind the first colon, where the text before it is the key.
pub open spec fn spec_line_value(line: Seq<char>, major: u32) -> Option<Seq<char>> {
    if spec_contains(line, seq![':']) && line.take(spec_first_offset(line, seq![':']))
        == spec_cache_file_key(major) {
        Some(line.skip(spec_first_offset(line, seq![':']) + 1))
    } else {
        None
    }
}

/// The place of the first of the first `k` lines that speaks of the line
/// `major`; `k` where none does.
pub open spec fn spec_first_entry(all: Seq<Seq<char>>, major: u32, k: int) -> int
    decreases k,
{
    if k <= 0 {
        0
    } else {
        let before = spec_first_entry(all, major, k - 1);
        if before < k - 1 {
            before
        } else if spec_line_value(all[k - 1], major) is Some {
            k - 1
        } else {
            k
        }
    }
}

/// The version that the file of cached versions holds for the line `major`.
pub open spec fn spec_cached_version(contents: Seq<char>, major: u32) -> Option<Seq<char>> {
    let all = spec_lines(contents);
    let i = spec_first_entry(all, major, all.len() as int);
    if i < all.len() {
        spec_line_value(all[i], major)
    } else {
        None
    }
}

/// Once an entry is found, looking further does not change which one is the first.
pub proof fn lemma_first_entry_stays(all: Seq<Seq<char>>, major: u32, k: int, n: int)
    requires
        1 <= k <= n,
        spec_first_entry(all, major, k) == k - 1,
    ensures
        spec_first_entry(all, major, n) == k - 1,
    decreases n - k,
{
    if k < n {
        lemma_first_entry_stays(all, major, k, n - 1);
    }
}

/// The lines that do not begin with `head`, in their order.
pub open spec fn spec_lines_without(all: Seq<Seq<char>>, head: Seq<char>) -> Seq<Seq<char>>
    decreases all.len(),
{
    if all.len() == 0 {
        Seq::<Seq<char>>::empty()
    } else if spec_starts_with(all.last(), head) {
        spec_lines_without(all.drop_last(), head)
    } else {
        spec_lines_without(all.drop_last(), head).push(all.last())
    }
}

/// The file of cached versions once `version` is entered for the line
/// `major`: the lines that spoke of other lines stay, the new entry comes
/// last, and line feeds stand between the lines.
pub open spec fn spec_updated_cache(contents: Seq<char>, major: u32, version: Seq<char>) -> Seq<char> {
    spec_join(
        spec_lines_without(spec_lines(contents), spec_cache_file_key(major) + ":"@).push(
            spec_cache_file_key(major) + ":"@ + version,
        ),
        "\n"@,
    )
}

/// Whether a file of cached versions of this age, in seconds, is too old to be used.
pub fn cache_is_stale(age_secs: u64) -> (res: bool)
    ensures
        res == (age_secs > VERSION_CACHE_TTL_SECS),
{
    age_secs > VERSION_CACHE_TTL_SECS
}

/// The key of a line in the file of cached versions.
pub fn cache_file_key(major: u32) -> (res: Vec<char>)
    ensures
        res@ == spec_cache_file_key(major),
{
    let mut k = "gcc-".to_owned();
    push_decimal(&mut k, major as u64);
    chars_of(k.as_str())
}

/// What a line of the file of cached versions says of the line `major`.
pub fn line_value(line: &Vec<char>, major: u32) -> (res: Option<Vec<char>>)
    ensures
        res is Some <==> spec_line_value(line@, major) is Some,
        res matches Some(v) ==> Some(v@) == spec_line_value(line@, major),
{
    let mut colon: Vec<char> = Vec::new();
    colon.push(':');
    assert(colon@ =~= seq![':']);
    assert(colon@.len() == 1);
    match find(line, &colon) {
        Some(i) => {
            assert(i + 1 <= line.len());
            let key = slice(line, 0, i);
            assert(key@ == line@.take(i as int));
            let expected = cache_file_key(major);
            if chars_eq(&key, &expected) {
                let value = slice(line, i + 1, line.len());
                assert(value@ == line@.skip(i + 1));
                Some(value)
            } else {
                None
            }
        },
        None => None,
    }
}

/// The version that the file of cached versions holds for the line `major`.
pub fn check_cache(contents: &str, major: u32) -> (res: Option<String>)
    ensures
        res is Some <==> spec_cached_version(contents@, major) is Some,
        res matches Some(v) ==> Some(v@) == spec_cached_version(contents@, major),
{
    let text = chars_of(contents);
    let all = lines(&text);
    let ghost ls = spec_lines(contents@);
    let mut i: usize = 0;
    while i < all.len()
        invariant
            i <= all.len(),
            views(all@) == ls,
            ls == spec_lines(contents@),
            spec_first_entry(ls, major, i as int) == i,
        decreases all.len() - i,
    {
        assert(views(all@)[i as int] == all@[i as int]@);
        match line_value(&all[i], major) {
            Some(v) => {
                proof {
                    lemma_first_entry_stays(ls, major, i as int + 1, ls.len() as int);
                }
                return Some(string_of(&v));
            },
            None => {},
        }
        i += 1;
    }
    None
}

/// The file of cached versions once `version` is entered for the line `major`.
pub fn update_cache(contents: &str, major: u32, version: &str) -> (res: String)
    ensures
        res@ == spec_updated_cache(contents@, major, version@),
{
    let text = chars_of(contents);
    let all = lines(&text);
    let ghost ls = spec_lines(contents@);
    let mut head = cache_file_key(major);
    head.push(':');
    assert(head@ =~= spec_cache_file_key(major) + ":"@) by {
        reveal_strlit(":");
    }
    let mut kept: Vec<String> = Vec::new();
    assert(string_views(kept@) =~= Seq::<Seq<char>>::empty());
    let mut i: usize = 0;
    while i < all.len()
        invariant
            i <= all.len(),
            views(all@) == ls,
            string_views(kept@) == spec_lines_without(ls.take(i as int), head@),
        decreases all.len() - i,
    {
        assert(views(all@)[i as int] == all@[i as int]@);
        assert(ls.take(i + 1).drop_last() == ls.take(i as int));
        if !starts_with(&all[i], &head) {
            push_string(&mut kept, string_of(&all[i]));
        }
        i += 1;
    }
    assert(ls.take(all.len() as int) == ls);
    let mut entry = string_of(&head);
    entry.append(version);
    push_string(&mut kept, entry);
    join(&kept, "\n")
}

/// A resolved version as the cache in memory keeps it.
#[derive(Debug)]
pub struct CachedVersion {
    pub version: GccVersion,
    /// When the version was resolved, in seconds since the epoch.
    pub resolved_at: u64,
    /// How long the answer stays valid, in seconds.
    pub ttl_secs: u64,
}

/// A list of releases as the cache in memory keeps it.
#[derive(Debug)]
pub struct CachedListing {
    pub content: String,
    pub fetched_at: u64,
    pub ttl_secs: u64,
}

/// How the cache has done.
#[derive(Debug, Clone, Copy, PartialEq, Eq, Structural)]
pub struct CacheCounters {
    pub hits: u64,
    pub misses: u64,
    pub evictions: u64,
}

/// Figures on the cache in memory.
#[derive(Debug, Clone, Copy, PartialEq, Eq, Structural)]
pub struct CacheStatistics {
    pub version_entries: usize,
    pub listing_entries: usize,
    pub total_hits: u64,
    pub total_misses: u64,
    pub total_evictions: u64,
    /// Hits among all lookups, in hundredths; zero where nothing was looked up.
    pub hit_rate_percent: u64,
}

/// The cache in memory of resolved versions and of lists of releases.
#[derive(Debug)]
pub struct VersionCache {
    pub versions: StrMap<CachedVersion>,
    pub listings: StrMap<CachedListing>,
    pub stats: CacheCounters,
}

/// Whether an answer given at `since` that stays valid for `ttl` seconds
/// is still valid at `now`.
pub open spec fn spec_fresh(since: u64, ttl: u64, now: u64) -> bool {
    since as int + ttl as int > now as int
}

/// `n` plus one, unless it is the largest number already.
pub open spec fn spec_bump(n: u64) -> u64 {
    if n < u64::MAX {
        (n + 1) as u64
    } else {
        n
    }
}

/// Whether an answer is still valid.
pub fn is_fresh(since: u64, ttl: u64, now: u64) -> (res: bool)
    ensures
        res == spec_fresh(since, ttl, now),
{
    (since as u128) + (ttl as u128) > (now as u128)
}

fn bump(n: u64) -> (res: u64)
    ensures
        res == spec_bump(n),
{
    if n < u64::MAX {
        n + 1
    } else {
        n
    }
}

/// The key under which the newest release of a line is cached.
pub open spec fn spec_latest_key(major: u8) -> Seq<char> {
    "latest_gcc_"@ + spec_decimal(major as nat)
}

impl VersionCache {
    /// Both maps are maps.
    pub open spec fn wf(&self) -> bool {
        self.versions.wf() && self.listings.wf()
    }

    /// Whether both maps are maps.
    pub fn is_well_formed(&self) -> (res: bool)
        ensures
            res == self.wf(),
    {
        self.versions.has_unique_keys() && self.listings.has_unique_keys()
    }

    /// An empty cache.
    pub fn new() -> (res: Self)
        ensures
            res.wf(),
            res.versions@ == Map::<Seq<char>, CachedVersion>::empty(),
            res.listings@ == Map::<Seq<char>, CachedListing>::empty(),
            res.stats == (CacheCounters { hits: 0, misses: 0, evictions: 0 }),
    {
        VersionCache {
            versions: StrMap::new(),
            listings: StrMap::new(),
            stats: CacheCounters { hits: 0, misses: 0, evictions: 0 },
        }
    }

    /// Looks `key` up at time `now`. An answer that is still valid is a
    /// hit. One that is not is taken out and counts as an eviction and as a
    /// miss. No answer is a miss.
    pub fn get_version(&mut self, key: &str, now: u64) -> (res: Option<GccVersion>)
        requires
            old(self).wf(),
        ensures
            final(self).wf(),
            final(self).listings == old(self).listings,
            ({
                let before = old(self).versions@;
                if before.contains_key(key@) && spec_fresh(
                    before[key@].resolved_at,
                    before[key@].ttl_secs,
                    now,
                ) {
                    &&& res matches Some(v) && v.triple() == before[key@].version.triple()
                        && v.full@ == before[key@].version.full@
                    &&& final(self).versions == old(self).versions
                    &&& final(self).stats == (CacheCounters {
                        hits: spec_bump(old(self).stats.hits),
                        ..old(self).stats
                    })
                } else if before.contains_key(key@) {
                    &&& res is None
                    &&& final(self).versions@ == before.remove(key@)
                    &&& final(self).stats == (CacheCounters {
                        hits: old(self).stats.hits,
                        misses: spec_bump(old(self).stats.misses),
                        evictions: spec_bump(old(self).stats.evictions),
                    })
                } else {
                    &&& res is None
                    &&& final(self).versions == old(self).versions
                    &&& final(self).stats == (CacheCounters {
                        misses: spec_bump(old(self).stats.misses),
                        ..old(self).stats
                    })
                }
            }),
    {
        let found: Option<(bool, GccVersion)> = match self.versions.get(key) {
            Some(c) => Some((is_fresh(c.resolved_at, c.ttl_secs, now), c.version.clone())),
            None => None,
        };
        match found {
            Some((fresh, version)) => {
                if fresh {
                    self.stats.hits = bump(self.stats.hits);
                    Some(version)
                } else {
                    let _ = self.versions.remove(key);
                    self.stats.evictions = bump(self.stats.evictions);
                    self.stats.misses = bump(self.stats.misses);
                    None
                }
            },
            None => {
                self.stats.misses = bump(self.stats.misses);
                None
            },
        }
    }

    /// Keeps `version` under `key` from `now` on for `ttl_secs` seconds.
    pub fn put_version(&mut self, key: String, version: GccVersion, ttl_secs: u64, now: u64)
        requires
            old(self).wf(),
        ensures
            final(self).wf(),
            final(self).listings == old(self).listings,
            final(self).stats == old(self).stats,
            final(self).versions@ == old(self).versions@.insert(
                key@,
                CachedVersion { version, resolved_at: now, ttl_secs },
            ),
    {
        self.versions.insert(key, CachedVersion { version, resolved_at: now, ttl_secs });
    }

    /// Looks the list of releases of `url` up at time `now`.
    pub fn get_listing(&mut self, url: &str, now: u64) -> (res: Option<String>)
        requires
            old(self).wf(),
        ensures
            final(self).wf(),
            final(self).versions == old(self).versions,
            ({
                let before = old(self).listings@;
                if before.contains_key(url@) && spec_fresh(
                    before[url@].fetched_at,
                    before[url@].ttl_secs,
                    now,
                ) {
                    &&& res matches Some(c) && c@ == before[url@].content@
                    &&& final(self).listings == old(self).listings
                    &&& final(self).stats == (CacheCounters {
                        hits: spec_bump(old(self).stats.hits),
                        ..old(self).stats
                    })
                } else if before.contains_key(url@) {
                    &&& res is None
                    &&& final(self).listings@ == before.remove(url@)
                    &&& final(self).stats == (CacheCounters {
                        hits: old(self).stats.hits,
                        misses: spec_bump(old(self).stats.misses),
                        evictions: spec_bump(old(self).stats.evictions),
                    })
                } else {
                    &&& res is None
                    &&& final(self).listings == old(self).listings
                    &&& final(self).stats == (CacheCounters {
                        misses: spec_bump(old(self).stats.misses),
                        ..old(self).stats
                    })
                }
            }),
    {
        let found: Option<(bool, String)> = match self.listings.get(url) {
            Some(c) => Some((is_fresh(c.fetched_at, c.ttl_secs, now), c.content.clone())),
            None => None,
        };
        match found {
            Some((fresh, content)) => {
                if fresh {
                    self.stats.hits = bump(self.stats.hits);
                    Some(content)
                } else {
                    let _ = self.listings.remove(url);
                    self.stats.evictions = bump(self.stats.evictions);
                    self.stats.misses = bump(self.stats.misses);
                    None
                }
            },
            None => {
                self.stats.misses = bump(self.stats.misses);
                None
            },
        }
    }

    /// Keeps the list of releases `content` under `url` from `now` on for
    /// `ttl_secs` seconds.
    pub fn put_listing(&mut self, url: String, content: String, ttl_secs: u64, now: u64)
        requires
            old(self).wf(),
        ensures
            final(self).wf(),
            final(self).versions == old(self).versions,
            final(self).stats == old(self).stats,
            final(self).listings@ == old(self).listings@.insert(
                url@,
                CachedListing { content, fetched_at: now, ttl_secs },
            ),
    {
        self.listings.insert(url, CachedListing { content, fetched_at: now, ttl_secs });
    }

    /// Figures on the cache.
    pub fn get_stats(&self) -> (res: CacheStatistics)
        ensures
            res.version_entries == self.versions.entries@.len(),
            res.listing_entries == self.listings.entries@.len(),
            res.total_hits == self.stats.hits,
            res.total_misses == self.stats.misses,
            res.total_evictions == self.stats.evictions,
            res.hit_rate_percent == (if self.stats.hits + self.stats.misses > 0 {
                self.stats.hits as int * 100 / (self.stats.hits + self.stats.misses)
            } else {
                0
            }),
    {
        let lookups: u128 = (self.stats.hits as u128) + (self.stats.misses as u128);
        let hits: u128 = self.stats.hits as u128;
        assert(lookups > 0 ==> hits * 100 / (lookups as int) <= 100) by (nonlinear_arith)
            requires
                hits <= lookups,
        ;
        CacheStatistics {
            version_entries: self.versions.len(),
            listing_entries: self.listings.len(),
            total_hits: self.stats.hits,
            total_misses: self.stats.misses,
            total_evictions: self.stats.evictions,
            hit_rate_percent: if lookups > 0 {
                ((self.stats.hits as u128) * 100 / lookups) as u64
            } else {
                0
            },
        }
    }

    /// Takes an answer from an earlier run into the cache, unless it is
    /// no longer valid at time `now`. Returns whether it was taken.
    pub fn load(&mut self, key: String, cached: CachedVersion, now: u64) -> (res: bool)
        requires
            old(self).wf(),
        ensures
            final(self).wf(),
            final(self).listings == old(self).listings,
            final(self).stats == old(self).stats,
            res == spec_fresh(cached.resolved_at, cached.ttl_secs, now),
            final(self).versions@ == (if res {
                old(self).versions@.insert(key@, cached)
            } else {
                old(self).versions@
            }),
    {
        if is_fresh(cached.resolved_at, cached.ttl_secs, now) {
            self.versions.insert(key, cached);
            true
        } else {
            false
        }
    }

    /// Forgets every answer. The counters stay.
    pub fn clear(&mut self)
        ensures
            final(self).wf(),
            final(self).versions@ == Map::<Seq<char>, CachedVersion>::empty(),
            final(self).listings@ == Map::<Seq<char>, CachedListing>::empty(),
            final(self).stats == old(self).stats,
    {
        self.versions.clear();
        self.listings.clear();
    }
}

/// The key under which the newest release of a line is cached.
pub fn latest_key(major: u8) -> (res: String)
    ensures
        res@ == spec_latest_key(major),
{
    let mut key = "latest_gcc_".to_owned();
    push_decimal(&mut key, major as u64);
    key
}

/// The newest release of the line `major` as the cache holds it at time `now`.
pub fn get_cached_latest_version(cache: &mut VersionCache, major: u8, now: u64) -> (res: Option<
    GccVersion,
>)
    requires
        old(cache).wf(),
    ensures
        final(cache).wf(),
        res is Some <==> old(cache).versions@.contains_key(spec_latest_key(major)) && spec_fresh(
            old(cache).versions@[spec_latest_key(major)].resolved_at,
            old(cache).versions@[spec_latest_key(major)].ttl_secs,
            now,
        ),
        res matches Some(v) ==> v.triple() == old(cache).versions@[spec_latest_key(
            major,
        )].version.triple(),
{
    let key = latest_key(major);
    cache.get_version(key.as_str(), now)
}

/// Keeps `version` as the newest release of the line `major`, from `now`
/// on for a day.
pub fn cache_latest_version(cache: &mut VersionCache, major: u8, version: GccVersion, now: u64)
    requires
        old(cache).wf(),
    ensures
        final(cache).wf(),
        final(cache).listings == old(cache).listings,
        final(cache).stats == old(cache).stats,
        final(cache).versions@ == old(cache).versions@.insert(
            spec_latest_key(major),
            CachedVersion { version, resolved_at: now, ttl_secs: VERSION_CACHE_TTL_SECS },
        ),
{
    let key = latest_key(major);
    cache.put_version(key, version, VERSION_CACHE_TTL_SECS, now);
}

/// Finds the newest release of the line `major`: from the file of
/// cached versions where it is young enough and names one, else from the
/// list of releases that the server sent, else from the table of known
/// releases.
pub fn get_latest_gcc_release(
    major: u32,
    cache_contents: Option<&str>,
    cache_age_secs: u64,
    listing: Option<&str>,
) -> (res: Result<(GccVersion, ResolveSource), BuildError>)
    ensures
        spec_latest_release(
            major,
            spec_cached_release(
                match cache_contents {
                    Some(c) => Some(c@),
                    None => None,
                },
                cache_age_secs,
                major,
            ),
            match listing {
                Some(l) => spec_regex_find_all(spec_release_pattern(major), l@),
                None => None,
            },
            res,
        ),
{
    let cached: Option<GccVersion> = match cache_contents {
        Some(text) => {
            if cache_is_stale(cache_age_secs) {
                None
            } else {
                match check_cache(text, major) {
                    Some(v) => GccVersion::parse(v.as_str()),
                    None => None,
                }
            }
        },
        None => None,
    };
    resolve_latest(major, cached, listing)
}

/// The versions that could be resolved, in their order. It is an error
/// if none could.
pub fn resolve_versions(resolved: &Vec<Option<GccVersion>>) -> (res: Result<
    Vec<GccVersion>,
    BuildError,
>)
    ensures
        res is Ok <==> spec_resolved_triples(resolved@, resolved@.len() as int).len() > 0,
        res matches Ok(v) ==> spec_triples(v@) == spec_resolved_triples(
            resolved@,
            resolved@.len() as int,
        ),
        res matches Err(e) ==> e is NoVersionsSelected,
{
    let mut out: Vec<GccVersion> = Vec::new();
    assert(spec_triples(out@) =~= Seq::<(int, int, int)>::empty());
    let mut i: usize = 0;
    while i < resolved.len()
        invariant
            i <= resolved.len(),
            spec_triples(out@) == spec_resolved_triples(resolved@, i as int),
        decreases resolved.len() - i,
    {
        match &resolved[i] {
            Some(v) => {
                let ghost before = spec_triples(out@);
                out.push(v.clone());
                assert(spec_triples(out@) =~= before.push(v.triple()));
            },
            None => {},
        }
        i += 1;
    }
    assert(spec_triples(out@).len() == out@.len());
    if out.len() == 0 {
        Err(BuildError::NoVersionsSelected)
    } else {
        Ok(out)
    }
}

} // verus!
