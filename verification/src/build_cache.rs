use vstd::prelude::*;
use vstd::string::StringExecFns;
use crate::decimal::{parse_u64, push_decimal, spec_decimal, spec_parse_u64};
use crate::gcc_config::spec_env_views;
use crate::scan::{spec_words, split_whitespace};
use crate::text::{chars_of, views};
use crate::version::{path_join, spec_path_join};

verus! {

/// The size, in gigabytes, to which the compiler cache may grow.
pub const DEFAULT_CACHE_SIZE_GB: u64 = 10;

/// The program that caches the work of the compiler.
#[derive(Debug, Clone, Copy, PartialEq, Eq, Structural)]
pub enum CacheType {
    Ccache,
    Sccache,
    /// No cache program was found.
    Absent,
}

/// The use of a compiler cache in a build.
#[derive(Debug)]
pub struct BuildCache {
    pub cache_type: CacheType,
    pub cache_dir: String,
    pub max_size_gb: u64,
    /// The variables that make the build use the cache.
    pub env_vars: Vec<(String, String)>,
}

/// The cache that is used: `sccache` where it is found, else `ccache`
/// where that is found, else none.
pub open spec fn spec_cache_type(sccache_found: bool, ccache_found: bool) -> CacheType {
    if sccache_found {
        CacheType::Sccache
    } else if ccache_found {
        CacheType::Ccache
    } else {
        CacheType::Absent
    }
}

/// The variables that make a build use the cache.
pub open spec fn spec_cache_environment(
    cache_type: CacheType,
    cache_dir: Seq<char>,
    max_size_gb: u64,
) -> Seq<(Seq<char>, Seq<char>)> {
    match cache_type {
        CacheType::Ccache => seq![
            ("CCACHE_DIR"@, cache_dir),
            ("CCACHE_MAXSIZE"@, spec_decimal(max_size_gb as nat) + "G"@),
            ("CCACHE_COMPRESS"@, "1"@),
            ("CCACHE_COMPRESSLEVEL"@, "6"@),
            ("CC"@, "ccache gcc"@),
            ("CXX"@, "ccache g++"@),
            ("CCACHE_STATS"@, "1"@),
        ],
        CacheType::Sccache => seq![
            ("SCCACHE_DIR"@, cache_dir),
            ("SCCACHE_CACHE_SIZE"@, spec_decimal(max_size_gb as nat) + "G"@),
            ("CC"@, "sccache gcc"@),
            ("CXX"@, "sccache g++"@),
            ("RUSTC_WRAPPER"@, "sccache"@),
        ],
        CacheType::Absent => Seq::empty(),
    }
}

/// The number that a line of statistics gives: the last of its words
/// that is a number.
pub open spec fn spec_last_number(words: Seq<Seq<char>>, k: int) -> Option<u64>
    decreases k,
{
    if k <= 0 {
        None
    } else {
        match spec_parse_u64(words[k - 1]) {
            Some(n) => Some(n),
            None => spec_last_number(words, k - 1),
        }
    }
}

/// The number that a line of statistics gives.
pub fn extract_number(line: &str) -> (res: Option<u64>)
    ensures
        res == spec_last_number(spec_words(line@), spec_words(line@).len() as int),
{
    let words = split_whitespace(&chars_of(line));
    let ghost ws = spec_words(line@);
    assert(views(words@).len() == words@.len());
    let mut k: usize = words.len();
    while k > 0
        invariant
            k <= words.len(),
            views(words@) == ws,
            ws == spec_words(line@),
            spec_last_number(ws, ws.len() as int) == spec_last_number(ws, k as int),
        decreases k,
    {
        assert(views(words@)[k - 1] == words@[k - 1]@);
        match parse_u64(&words[k - 1]) {
            Some(n) => {
                return Some(n);
            },
            None => {},
        }
        k -= 1;
    }
    None
}

impl BuildCache {
    /// The cache that is used.
    pub fn detect_cache_type(sccache_found: bool, ccache_found: bool) -> (res: CacheType)
        ensures
            res == spec_cache_type(sccache_found, ccache_found),
    {
        if sccache_found {
            CacheType::Sccache
        } else if ccache_found {
            CacheType::Ccache
        } else {
            CacheType::Absent
        }
    }

    /// The use of the compiler cache for builds under `build_dir`, given
    /// which of the cache programs were found.
    pub fn new(build_dir: &str, sccache_found: bool, ccache_found: bool) -> (res: Self)
        ensures
            res.cache_type == spec_cache_type(sccache_found, ccache_found),
            res.cache_dir@ == spec_path_join(build_dir@, "cache"@),
            res.max_size_gb == DEFAULT_CACHE_SIZE_GB,
            spec_env_views(res.env_vars@) == spec_cache_environment(
                res.cache_type,
                res.cache_dir@,
                res.max_size_gb,
            ),
    {
        let mut instance = BuildCache {
            cache_type: BuildCache::detect_cache_type(sccache_found, ccache_found),
            cache_dir: path_join(build_dir, "cache"),
            max_size_gb: DEFAULT_CACHE_SIZE_GB,
            env_vars: Vec::new(),
        };
        instance.setup_environment();
        instance
    }

    /// Sets the variables that make a build use the cache.
    pub fn setup_environment(&mut self)
        ensures
            final(self).cache_type == old(self).cache_type,
            final(self).cache_dir == old(self).cache_dir,
            final(self).max_size_gb == old(self).max_size_gb,
            spec_env_views(final(self).env_vars@) == spec_cache_environment(
                old(self).cache_type,
                old(self).cache_dir@,
                old(self).max_size_gb,
            ),
    {
        let mut env: Vec<(String, String)> = Vec::new();
        let mut size = String::new();
        push_decimal(&mut size, self.max_size_gb);
        size.append("G");
        assert(size@ =~= spec_decimal(self.max_size_gb as nat) + "G"@);
        match self.cache_type {
            CacheType::Ccache => {
                env.push(("CCACHE_DIR".to_owned(), self.cache_dir.clone()));
                env.push(("CCACHE_MAXSIZE".to_owned(), size));
                env.push(("CCACHE_COMPRESS".to_owned(), "1".to_owned()));
                env.push(("CCACHE_COMPRESSLEVEL".to_owned(), "6".to_owned()));
                env.push(("CC".to_owned(), "ccache gcc".to_owned()));
                env.push(("CXX".to_owned(), "ccache g++".to_owned()));
                env.push(("CCACHE_STATS".to_owned(), "1".to_owned()));
            },
            CacheType::Sccache => {
                env.push(("SCCACHE_DIR".to_owned(), self.cache_dir.clone()));
                env.push(("SCCACHE_CACHE_SIZE".to_owned(), size));
                env.push(("CC".to_owned(), "sccache gcc".to_owned()));
                env.push(("CXX".to_owned(), "sccache g++".to_owned()));
                env.push(("RUSTC_WRAPPER".to_owned(), "sccache".to_owned()));
            },
            CacheType::Absent => {},
        }
        assert(spec_env_views(env@) =~= spec_cache_environment(
            self.cache_type,
            self.cache_dir@,
            self.max_size_gb,
        ));
        self.env_vars = env;
    }

    /// The variables that make a build use the cache.
    pub fn get_env_vars(&self) -> (res: &Vec<(String, String)>)
        ensures
            res == &self.env_vars,
    {
        &self.env_vars
    }

    /// Whether the cache has to be set up before a build: it has where a
    /// cache program was found.
    pub fn init(&self) -> (res: bool)
        ensures
            res == (self.cache_type != CacheType::Absent),
    {
        self.cache_type != CacheType::Absent
    }
}

} // verus!
