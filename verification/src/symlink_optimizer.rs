use vstd::prelude::*;
use vstd::string::StringExecFns;
use crate::post_install::{ends_with_any, spec_ends_with_any, BinEntry, LinkOrder};
use crate::strmap::StrMap;
use crate::text::{
    chars_of,
    find_last,
    slice,
    spec_contains,
    spec_last_offset,
    str_eq,
    string_views,
};

verus! {

/// The most links that are made at the same time.
pub const MAX_PARALLEL_LINKS: usize = 32;

/// The last component of a path: what follows its last slash, or the
/// whole path where it has none.
pub open spec fn spec_file_name(path: Seq<char>) -> Seq<char> {
    if spec_contains(path, seq!['/']) {
        path.skip(spec_last_offset(path, seq!['/']) + 1)
    } else {
        path
    }
}

/// The line of the shell script that asks whether the right link is missing.
pub open spec fn spec_test_line(source: Seq<char>, link: Seq<char>) -> Seq<char> {
    "if [ ! -L \""@ + link + "\" ] || [ \"$(readlink -f \""@ + link + "\")\" != \""@ + source
        + "\" ]; then\n"@
}

/// The line of the shell script that removes what is at the place of the link.
pub open spec fn spec_remove_line(link: Seq<char>) -> Seq<char> {
    "  rm -f \""@ + link + "\"\n"@
}

/// The line of the shell script that makes the link.
pub open spec fn spec_make_line(source: Seq<char>, link: Seq<char>) -> Seq<char> {
    "  ln -sf \""@ + source + "\" \""@ + link + "\"\n"@
}

/// The lines of the shell script that report the link and close the test.
pub open spec fn spec_report_lines(link: Seq<char>) -> Seq<char> {
    "  echo \"Linked: "@ + spec_file_name(link) + "\"\nfi\n"@
}

/// The lines of the shell script that make one link, unless the right
/// link is there already.
pub open spec fn spec_link_block(source: Seq<char>, link: Seq<char>) -> Seq<char> {
    spec_test_line(source, link) + spec_remove_line(link) + spec_make_line(source, link)
        + spec_report_lines(link)
}

/// Whether a link is known to have been made already.
pub open spec fn spec_known(cache: Map<Seq<char>, String>, source: Seq<char>, link: Seq<char>) -> bool {
    cache.contains_key(link) && cache[link]@ == source
}

/// The shell script that makes the first `k` links, those left out that
/// are known to have been made already.
pub open spec fn spec_batch_script(orders: Seq<LinkOrder>, cache: Map<Seq<char>, String>, k: int) -> Seq<
    char,
>
    decreases k,
{
    if k <= 0 {
        "#!/bin/bash\nset -e\n"@
    } else if spec_known(cache, orders[k - 1].source@, orders[k - 1].link@) {
        spec_batch_script(orders, cache, k - 1)
    } else {
        spec_batch_script(orders, cache, k - 1) + spec_link_block(
            orders[k - 1].source@,
            orders[k - 1].link@,
        )
    }
}

/// How many of the first `k` links are not known to have been made already.
pub open spec fn spec_batch_count(orders: Seq<LinkOrder>, cache: Map<Seq<char>, String>, k: int) -> nat
    decreases k,
{
    if k <= 0 {
        0
    } else if spec_known(cache, orders[k - 1].source@, orders[k - 1].link@) {
        spec_batch_count(orders, cache, k - 1)
    } else {
        spec_batch_count(orders, cache, k - 1) + 1
    }
}

/// What is known once the first `k` links have been made.
pub open spec fn spec_recorded(orders: Seq<LinkOrder>, cache: Map<Seq<char>, Seq<char>>, k: int) -> Map<
    Seq<char>,
    Seq<char>,
>
    decreases k,
{
    if k <= 0 {
        cache
    } else {
        spec_recorded(orders, cache, k - 1).insert(orders[k - 1].link@, orders[k - 1].source@)
    }
}

/// The last component of a path.
pub fn file_name(path: &str) -> (res: String)
    ensures
        res@ == spec_file_name(path@),
{
    let p = chars_of(path);
    let mut slash: Vec<char> = Vec::new();
    slash.push('/');
    assert(slash@ =~= seq!['/']);
    assert(slash@.len() == 1);
    match find_last(&p, &slash) {
        Some(i) => {
            assert(i + 1 <= p.len());
            let tail = slice(&p, i + 1, p.len());
            assert(tail@ == p@.skip(i + 1));
            crate::text::string_of(&tail)
        },
        None => crate::text::string_of(&p),
    }
}

/// The lines of the shell script that make one link.
pub fn link_block(source: &str, link: &str) -> (res: String)
    ensures
        res@ == spec_link_block(source@, link@),
{
    let mut test = "if [ ! -L \"".to_owned();
    test.append(link);
    test.append("\" ] || [ \"$(readlink -f \"");
    test.append(link);
    test.append("\")\" != \"");
    test.append(source);
    test.append("\" ]; then\n");
    let mut remove = "  rm -f \"".to_owned();
    remove.append(link);
    remove.append("\"\n");
    let mut make = "  ln -sf \"".to_owned();
    make.append(source);
    make.append("\" \"");
    make.append(link);
    make.append("\"\n");
    let name = file_name(link);
    let mut report = "  echo \"Linked: ".to_owned();
    report.append(name.as_str());
    report.append("\"\nfi\n");
    let mut block = test;
    block.append(remove.as_str());
    block.append(make.as_str());
    block.append(report.as_str());
    block
}

/// Makes many links at once and remembers which it has made.
#[derive(Debug)]
pub struct SymlinkOptimizer {
    pub dry_run: bool,
    pub max_parallel: usize,
    /// For each link that was made, the program it points to.
    pub cache: StrMap<String>,
}

impl SymlinkOptimizer {
    /// What is remembered, as a map from links to programs.
    pub open spec fn remembered(&self) -> Map<Seq<char>, Seq<char>> {
        Map::new(
            |k: Seq<char>| self.cache@.contains_key(k),
            |k: Seq<char>| self.cache@[k]@,
        )
    }

    /// An optimizer on a machine with `threads` worker threads that has
    /// made no links yet.
    pub fn new(dry_run: bool, threads: usize) -> (res: Self)
        ensures
            res.dry_run == dry_run,
            res.max_parallel == (if threads < MAX_PARALLEL_LINKS {
                threads
            } else {
                MAX_PARALLEL_LINKS
            }),
            res.cache.wf(),
            res.cache@ == Map::<Seq<char>, String>::empty(),
    {
        SymlinkOptimizer {
            dry_run,
            max_parallel: if threads < MAX_PARALLEL_LINKS {
                threads
            } else {
                MAX_PARALLEL_LINKS
            },
            cache: StrMap::new(),
        }
    }

    /// Whether the link is known to have been made already.
    pub fn is_known(&self, order: &LinkOrder) -> (res: bool)
        requires
            self.cache.wf(),
        ensures
            res == spec_known(self.cache@, order.source@, order.link@),
    {
        match self.cache.get(order.link.as_str()) {
            Some(s) => str_eq(s.as_str(), order.source.as_str()),
            None => false,
        }
    }

    /// The shell script that makes the links in one privileged run, and
    /// the number of links it makes. Links that are known to have been made
    /// are left out.
    pub fn create_symlinks_batch(&self, symlinks: &Vec<LinkOrder>) -> (res: (String, usize))
        requires
            self.cache.wf(),
        ensures
            res.0@ == spec_batch_script(symlinks@, self.cache@, symlinks@.len() as int),
            res.1 == spec_batch_count(symlinks@, self.cache@, symlinks@.len() as int),
    {
        let mut script = "#!/bin/bash\nset -e\n".to_owned();
        let mut count: usize = 0;
        let mut i: usize = 0;
        while i < symlinks.len()
            invariant
                i <= symlinks.len(),
                self.cache.wf(),
                script@ == spec_batch_script(symlinks@, self.cache@, i as int),
                count == spec_batch_count(symlinks@, self.cache@, i as int),
                count <= i,
            decreases symlinks.len() - i,
        {
            let order = &symlinks[i];
            if !self.is_known(order) {
                let block = link_block(order.source.as_str(), order.link.as_str());
                script.append(block.as_str());
                count += 1;
            }
            i += 1;
        }
        (script, count)
    }

    /// Remembers that the links have been made.
    pub fn record_links(&mut self, symlinks: &Vec<LinkOrder>)
        requires
            old(self).cache.wf(),
        ensures
            final(self).cache.wf(),
            final(self).dry_run == old(self).dry_run,
            final(self).max_parallel == old(self).max_parallel,
            final(self).remembered() == spec_recorded(
                symlinks@,
                old(self).remembered(),
                symlinks@.len() as int,
            ),
            forall|i: int|
                0 <= i < symlinks@.len() ==> final(self).cache@.contains_key(
                    (#[trigger] symlinks@[i]).link@,
                ),
    {
        let mut i: usize = 0;
        while i < symlinks.len()
            invariant
                i <= symlinks.len(),
                self.cache.wf(),
                self.dry_run == old(self).dry_run,
                self.max_parallel == old(self).max_parallel,
                self.remembered() == spec_recorded(symlinks@, old(self).remembered(), i as int),
                forall|j: int|
                    0 <= j < i ==> self.cache@.contains_key((#[trigger] symlinks@[j]).link@),
            decreases symlinks.len() - i,
        {
            let ghost before = self.remembered();
            self.cache.insert(symlinks[i].link.clone(), symlinks[i].source.clone());
            assert(self.remembered() =~= before.insert(
                symlinks@[i as int].link@,
                symlinks@[i as int].source@,
            ));
            i += 1;
        }
    }

    /// After the links have been recorded, none of them is made again:
    /// the script for the same links makes nothing.
    pub proof fn lemma_recorded_links_are_known(
        orders: Seq<LinkOrder>,
        cache: Map<Seq<char>, String>,
        k: int,
    )
        requires
            0 <= k <= orders.len(),
            forall|i: int|
                0 <= i < k ==> spec_known(cache, (#[trigger] orders[i]).source@, orders[i].link@),
        ensures
            spec_batch_count(orders, cache, k) == 0,
            spec_batch_script(orders, cache, k) == "#!/bin/bash\nset -e\n"@,
        decreases k,
    {
        if k > 0 {
            assert(spec_known(cache, orders[k - 1].source@, orders[k - 1].link@));
            Self::lemma_recorded_links_are_known(orders, cache, k - 1);
        }
    }

    /// Forgets which links were made.
    pub fn clear_cache(&mut self)
        ensures
            final(self).cache.wf(),
            final(self).cache@ == Map::<Seq<char>, String>::empty(),
            final(self).dry_run == old(self).dry_run,
            final(self).max_parallel == old(self).max_parallel,
    {
        self.cache.clear();
    }
}

/// Which entries of a directory of binaries are programs of a version:
/// the executable files whose names end with one of `version_patterns`.
pub fn discover_gcc_binaries_parallel(entries: &Vec<BinEntry>, version_patterns: &Vec<String>) -> (res:
    Vec<bool>)
    ensures
        res@.len() == entries@.len(),
        forall|i: int|
            0 <= i < entries@.len() ==> (#[trigger] res@[i]) == (entries@[i].is_file
                && entries@[i].executable && spec_ends_with_any(
                entries@[i].name@,
                string_views(version_patterns@),
            )),
{
    let mut out: Vec<bool> = Vec::new();
    let mut i: usize = 0;
    while i < entries.len()
        invariant
            i <= entries.len(),
            out@.len() == i,
            forall|j: int|
                0 <= j < i ==> (#[trigger] out@[j]) == (entries@[j].is_file
                    && entries@[j].executable && spec_ends_with_any(
                    entries@[j].name@,
                    string_views(version_patterns@),
                )),
        decreases entries.len() - i,
    {
        let e = &entries[i];
        out.push(e.is_file && e.executable && ends_with_any(e.name.as_str(), version_patterns));
        i += 1;
    }
    out
}

} // verus!
