use vstd::prelude::*;
use vstd::string::StringExecFns;
use crate::decimal::{push_decimal, spec_decimal};
use crate::error::BuildError;
use crate::text::{push_str, push_string, string_views};

verus! {

/// How long, in seconds, a download waits before it tries the same mirror again.
pub const RETRY_PAUSE_SECS: u64 = 5;

/// How long, in seconds, a download waits before it turns to the next mirror.
pub const FAILOVER_PAUSE_SECS: u64 = 2;

/// How long, in seconds, the connection to a mirror may take.
pub const CONNECT_TIMEOUT_SECS: u64 = 30;

/// The factor by which scores are scaled so that they are whole numbers:
/// seconds per hour times kilobytes per megabyte.
pub const SCORE_SCALE: i128 = 3600000;

/// One server that offers the source archives.
#[derive(Debug)]
pub struct Mirror {
    pub name: String,
    pub base_url: String,
    /// Rank among the mirrors; the lower, the more it is preferred.
    pub priority: u8,
    /// When the mirror last served a download, in seconds since the epoch.
    pub last_success: Option<u64>,
    pub failure_count: usize,
    pub max_failures: usize,
    /// Mean speed of its downloads, in kilobytes per second.
    pub avg_speed_kbps: u64,
}

impl Clone for Mirror {
    fn clone(&self) -> (res: Self)
        ensures
            res.name@ == self.name@,
            res.base_url@ == self.base_url@,
            res.priority == self.priority,
            res.last_success == self.last_success,
            res.failure_count == self.failure_count,
            res.max_failures == self.max_failures,
            res.avg_speed_kbps == self.avg_speed_kbps,
    {
        Mirror {
            name: self.name.clone(),
            base_url: self.base_url.clone(),
            priority: self.priority,
            last_success: self.last_success,
            failure_count: self.failure_count,
            max_failures: self.max_failures,
            avg_speed_kbps: self.avg_speed_kbps,
        }
    }
}

/// The seconds that have passed since a mirror last served a download,
/// counted up to one day.
pub open spec fn spec_recent_secs(last_success: u64, now: u64) -> int {
    let elapsed = if now >= last_success {
        now - last_success
    } else {
        0
    };
    if elapsed > 86400 {
        86400
    } else {
        elapsed
    }
}

impl Mirror {
    /// A mirror is healthy while it has failed less often than it may.
    pub open spec fn spec_healthy(&self) -> bool {
        self.failure_count < self.max_failures
    }

    /// The score of the mirror at time `now`, times `SCORE_SCALE`: a
    /// hundred points, less ten for each rank of priority, plus two for
    /// each hour by which its last success is younger than a day, plus five
    /// for each megabyte per second of speed, less twenty for each failure;
    /// never below zero.
    pub open spec fn spec_score(&self, now: u64) -> int {
        let raw = SCORE_SCALE as int * 100 - SCORE_SCALE as int * 10 * self.priority as int + (
        match self.last_success {
            Some(t) => 2 * 1000 * (86400 - spec_recent_secs(t, now)),
            None => 0,
        }) + 5 * 3600 * self.avg_speed_kbps as int - SCORE_SCALE as int * 20
            * self.failure_count as int;
        if raw < 0 {
            0
        } else {
            raw
        }
    }

    /// Whether the mirror is healthy.
    pub fn is_healthy(&self) -> (res: bool)
        ensures
            res == self.spec_healthy(),
    {
        self.failure_count < self.max_failures
    }

    /// The score of the mirror at time `now`, times `SCORE_SCALE`.
    pub fn score(&self, now: u64) -> (res: i128)
        ensures
            res == self.spec_score(now),
    {
        let recent: i128 = match self.last_success {
            Some(t) => {
                let elapsed: u64 = if now >= t {
                    now - t
                } else {
                    0
                };
                let capped: u64 = if elapsed > 86400 {
                    86400
                } else {
                    elapsed
                };
                2 * 1000 * (86400 - capped as i128)
            },
            None => 0,
        };
        let base: i128 = 360000000 - 36000000 * (self.priority as i128);
        let speed: i128 = 18000 * (self.avg_speed_kbps as i128);
        let penalty: i128 = 72000000 * (self.failure_count as i128);
        let raw: i128 = base + recent + speed - penalty;
        if raw < 0 {
            0
        } else {
            raw
        }
    }
}

/// Figures on the mirrors.
#[derive(Debug)]
pub struct MirrorStats {
    pub total_mirrors: usize,
    pub healthy_mirrors: usize,
    /// Sum of the speeds of the mirrors, divided by their number, in
    /// kilobytes per second.
    pub average_speed_kbps: u64,
    /// The mirror that would be tried first; empty where none is healthy.
    pub best_mirror: String,
}

/// Chooses among the mirrors and keeps account of how they do.
#[derive(Debug)]
pub struct MirrorManager {
    pub mirrors: Vec<Mirror>,
    /// How long, in seconds, one attempt may take.
    pub timeout_secs: u64,
    pub max_retries_per_mirror: usize,
}

/// Whether the mirror at place `i` is tried before the one at place `j`:
/// it scores higher, or as high and stands earlier in the list.
pub open spec fn spec_tried_before(mirrors: Seq<Mirror>, now: u64, i: int, j: int) -> bool {
    mirrors[i].spec_score(now) > mirrors[j].spec_score(now) || (mirrors[i].spec_score(now)
        == mirrors[j].spec_score(now) && i < j)
}

/// Whether `order` is the order in which the mirrors are tried at time
/// `now`: it names the healthy mirrors, each once, the better before the worse.
pub open spec fn spec_is_plan(mirrors: Seq<Mirror>, now: u64, order: Seq<usize>) -> bool {
    &&& forall|k: int|
        0 <= k < order.len() ==> (#[trigger] order[k]) < mirrors.len()
            && mirrors[order[k] as int].spec_healthy()
    &&& forall|a: int, b: int|
        0 <= a < b < order.len() ==> spec_tried_before(mirrors, now, order[a] as int, order[b] as int)
    &&& forall|i: int|
        0 <= i < mirrors.len() && (#[trigger] mirrors[i]).spec_healthy() ==> order.contains(
            i as usize,
        )
}

/// How many of the mirrors are healthy.
pub open spec fn spec_healthy_count(mirrors: Seq<Mirror>) -> nat
    decreases mirrors.len(),
{
    if mirrors.len() == 0 {
        0
    } else {
        spec_healthy_count(mirrors.drop_last()) + (if mirrors.last().spec_healthy() {
            1nat
        } else {
            0nat
        })
    }
}

/// The speeds of the mirrors, added up.
pub open spec fn spec_speed_sum(mirrors: Seq<Mirror>) -> nat
    decreases mirrors.len(),
{
    if mirrors.len() == 0 {
        0
    } else {
        spec_speed_sum(mirrors.drop_last()) + mirrors.last().avg_speed_kbps as nat
    }
}

/// The mean of the old speed and a new reading of `bytes` bytes in
/// `secs` seconds, in kilobytes per second; the old speed where no time was
/// measured.
pub open spec fn spec_speed_after(old_kbps: u64, bytes: u64, secs: u64) -> u64 {
    if secs == 0 {
        old_kbps
    } else {
        ((old_kbps as int + (bytes as int / 1000) / secs as int) / 2) as u64
    }
}

/// The address of `relative_path` on a mirror.
pub open spec fn spec_mirror_url(base_url: Seq<char>, relative_path: Seq<char>) -> Seq<char> {
    base_url + relative_path
}

/// The arguments with which `curl` fetches `url` into `dest`; it takes up
/// a download that was broken off where `resume` says that the file exists.
pub open spec fn spec_curl_arguments(
    url: Seq<char>,
    dest: Seq<char>,
    timeout_secs: u64,
    resume: bool,
) -> Seq<Seq<char>> {
    let head = seq![
        "-fSL"@,
        "--connect-timeout"@,
        "30"@,
        "--max-time"@,
        spec_decimal(timeout_secs as nat),
        "--retry"@,
        "0"@,
        "-o"@,
        dest,
    ];
    if resume {
        head + seq!["-C"@, "-"@, url]
    } else {
        head + seq![url]
    }
}

fn default_mirror(name: &str, base_url: &str, priority: u8) -> (res: Mirror)
    ensures
        res.name@ == name@,
        res.base_url@ == base_url@,
        res.priority == priority,
        res.last_success is None,
        res.failure_count == 0,
        res.max_failures == 3,
        res.avg_speed_kbps == 0,
{
    Mirror {
        name: name.to_owned(),
        base_url: base_url.to_owned(),
        priority,
        last_success: None,
        failure_count: 0,
        max_failures: 3,
        avg_speed_kbps: 0,
    }
}

impl MirrorManager {
    /// A manager of the five usual mirrors, none of which has been tried.
    pub fn new() -> (res: Self)
        ensures
            res.mirrors@.len() == 5,
            res.timeout_secs == 300,
            res.max_retries_per_mirror == 2,
            forall|i: int|
                0 <= i < 5 ==> {
                    &&& (#[trigger] res.mirrors@[i]).priority == i + 1
                    &&& res.mirrors@[i].failure_count == 0
                    &&& res.mirrors@[i].max_failures == 3
                    &&& res.mirrors@[i].last_success is None
                    &&& res.mirrors@[i].avg_speed_kbps == 0
                },
            res.mirrors@[0].base_url@ == "https://ftp.gnu.org/gnu/gcc/"@,
            res.mirrors@[1].base_url@ == "https://mirrors.mit.edu/gnu/gcc/"@,
            res.mirrors@[2].base_url@ == "https://mirrors.kernel.org/gnu/gcc/"@,
            res.mirrors@[3].base_url@ == "ftp://ftp.gnu.org/gnu/gcc/"@,
            res.mirrors@[4].base_url@ == "https://mirror.ctan.org/gnu/gcc/"@,
    {
        let mut mirrors: Vec<Mirror> = Vec::new();
        mirrors.push(default_mirror("GNU Main", "https://ftp.gnu.org/gnu/gcc/", 1));
        mirrors.push(default_mirror("MIT", "https://mirrors.mit.edu/gnu/gcc/", 2));
        mirrors.push(default_mirror("Kernel.org", "https://mirrors.kernel.org/gnu/gcc/", 3));
        mirrors.push(default_mirror("GNU FTP", "ftp://ftp.gnu.org/gnu/gcc/", 4));
        mirrors.push(default_mirror("CTAN", "https://mirror.ctan.org/gnu/gcc/", 5));
        MirrorManager { mirrors, timeout_secs: 300, max_retries_per_mirror: 2 }
    }

    /// The order in which the mirrors are tried at time `now`: the healthy
    /// ones, the better before the worse. Unhealthy mirrors are not tried.
    pub fn plan_download(&self, now: u64) -> (order: Vec<usize>)
        ensures
            spec_is_plan(self.mirrors@, now, order@),
    {
        let n = self.mirrors.len();
        let mut used: Vec<bool> = Vec::new();
        let mut i: usize = 0;
        while i < n
            invariant
                i <= n,
                used@.len() == i,
                forall|j: int| 0 <= j < i ==> !used@[j],
            decreases n - i,
        {
            used.push(false);
            i += 1;
        }
        let mut order: Vec<usize> = Vec::new();
        let ghost ms = self.mirrors@;
        loop
            invariant
                n == self.mirrors@.len(),
                ms == self.mirrors@,
                used@.len() == n,
                forall|k: int|
                    0 <= k < order@.len() ==> (#[trigger] order@[k]) < n && ms[order@[k] as int].spec_healthy()
                        && used@[order@[k] as int],
                forall|j: int| 0 <= j < n && #[trigger] used@[j] ==> order@.contains(j as usize),
                forall|a: int, b: int|
                    0 <= a < b < order@.len() ==> spec_tried_before(
                        ms,
                        now,
                        order@[a] as int,
                        order@[b] as int,
                    ),
                forall|a: int, j: int|
                    0 <= a < order@.len() && 0 <= j < n && !used@[j] && ms[j].spec_healthy()
                        ==> #[trigger] spec_tried_before(ms, now, order@[a] as int, j),
            decreases spec_unset_count(used@),
        {
            let mut best: Option<usize> = None;
            let mut best_score: i128 = 0;
            let mut j: usize = 0;
            while j < n
                invariant
                    j <= n,
                    n == self.mirrors@.len(),
                    ms == self.mirrors@,
                    used@.len() == n,
                    best matches Some(b) ==> b < j && !used@[b as int] && ms[b as int].spec_healthy()
                        && best_score == ms[b as int].spec_score(now),
                    best is None ==> forall|k: int|
                        0 <= k < j ==> used@[k] || !ms[k].spec_healthy(),
                    best matches Some(b) ==> forall|k: int|
                        0 <= k < j && k != b && !used@[k] && ms[k].spec_healthy()
                            ==> spec_tried_before(ms, now, b as int, k),
                decreases n - j,
            {
                if !used[j] && self.mirrors[j].is_healthy() {
                    let s = self.mirrors[j].score(now);
                    match best {
                        Some(b) => {
                            if s > best_score {
                                best = Some(j);
                                best_score = s;
                            }
                        },
                        None => {
                            best = Some(j);
                            best_score = s;
                        },
                    }
                }
                j += 1;
            }
            match best {
                Some(b) => {
                    let ghost old_order = order@;
                    let ghost old_used = used@;
                    proof {
                        lemma_set_flag(old_used, b as int);
                    }
                    used.set(b, true);
                    order.push(b);
                    proof {
                        assert forall|k: int| 0 <= k < n && #[trigger] used@[k] implies order@.contains(
                            k as usize,
                        ) by {
                            if k == b {
                                assert(order@[order@.len() - 1] == b);
                            } else {
                                assert(old_used[k]);
                                let w = choose|w: int|
                                    0 <= w < old_order.len() && old_order[w] == k as usize;
                                assert(order@[w] == k as usize);
                            }
                        }
                        assert forall|a: int, c: int| 0 <= a < c < order@.len() implies spec_tried_before(
                            ms,
                            now,
                            order@[a] as int,
                            order@[c] as int,
                        ) by {
                            if c == order@.len() - 1 {
                                assert(order@[a] == old_order[a]);
                            } else {
                                assert(order@[a] == old_order[a]);
                                assert(order@[c] == old_order[c]);
                            }
                        }
                        assert forall|a: int, k: int|
                            0 <= a < order@.len() && 0 <= k < n && !used@[k] && ms[k].spec_healthy() implies #[trigger] spec_tried_before(
                            ms,
                            now,
                            order@[a] as int,
                            k,
                        ) by {
                            if a < old_order.len() {
                                assert(order@[a] == old_order[a]);
                            }
                        }
                    }
                },
                None => {
                    proof {
                        assert forall|k: int|
                            0 <= k < ms.len() && (#[trigger] ms[k]).spec_healthy() implies order@.contains(
                            k as usize,
                        ) by {
                            assert(used@[k]);
                        }
                    }
                    return order;
                },
            }
        }
    }

    /// The address of `relative_path` on the mirror at place `index`.
    pub fn attempt_url(&self, index: usize, relative_path: &str) -> (res: String)
        requires
            index < self.mirrors@.len(),
        ensures
            res@ == spec_mirror_url(self.mirrors@[index as int].base_url@, relative_path@),
    {
        let mut url = self.mirrors[index].base_url.clone();
        url.append(relative_path);
        url
    }

    /// The arguments with which `curl` makes one attempt.
    pub fn curl_arguments(&self, url: &str, dest: &str, resume: bool) -> (res: Vec<String>)
        ensures
            string_views(res@) == spec_curl_arguments(url@, dest@, self.timeout_secs, resume),
    {
        let mut args: Vec<String> = Vec::new();
        assert(string_views(args@) =~= Seq::<Seq<char>>::empty());
        push_str(&mut args, "-fSL");
        push_str(&mut args, "--connect-timeout");
        push_str(&mut args, "30");
        push_str(&mut args, "--max-time");
        let mut t = String::new();
        push_decimal(&mut t, self.timeout_secs);
        assert(t@ =~= spec_decimal(self.timeout_secs as nat));
        push_string(&mut args, t);
        push_str(&mut args, "--retry");
        push_str(&mut args, "0");
        push_str(&mut args, "-o");
        push_str(&mut args, dest);
        if resume {
            push_str(&mut args, "-C");
            push_str(&mut args, "-");
        }
        push_str(&mut args, url);
        assert(string_views(args@) =~= spec_curl_arguments(url@, dest@, self.timeout_secs, resume));
        args
    }

    /// What follows when attempt number `attempt` at a mirror has failed:
    /// the pause before the next attempt at the same mirror, or nothing
    /// when the mirror has had its attempts.
    pub fn after_failed_attempt(&self, attempt: usize) -> (res: Option<u64>)
        ensures
            res == if attempt < self.max_retries_per_mirror {
                Some(RETRY_PAUSE_SECS)
            } else {
                None
            },
    {
        if attempt < self.max_retries_per_mirror {
            Some(RETRY_PAUSE_SECS)
        } else {
            None
        }
    }

    fn put(&mut self, index: usize, last_success: Option<u64>, failure_count: usize, speed: u64)
        requires
            index < old(self).mirrors@.len(),
        ensures
            final(self).mirrors@.len() == old(self).mirrors@.len(),
            final(self).timeout_secs == old(self).timeout_secs,
            final(self).max_retries_per_mirror == old(self).max_retries_per_mirror,
            forall|i: int|
                0 <= i < old(self).mirrors@.len() && i != index ==> final(self).mirrors@[i] == old(self).mirrors@[i],
            final(self).mirrors@[index as int].name@ == old(self).mirrors@[index as int].name@,
            final(self).mirrors@[index as int].base_url@ == old(self).mirrors@[index as int].base_url@,
            final(self).mirrors@[index as int].priority == old(self).mirrors@[index as int].priority,
            final(self).mirrors@[index as int].max_failures == old(self).mirrors@[index as int].max_failures,
            final(self).mirrors@[index as int].last_success == last_success,
            final(self).mirrors@[index as int].failure_count == failure_count,
            final(self).mirrors@[index as int].avg_speed_kbps == speed,
    {
        let m = &self.mirrors[index];
        let fresh = Mirror {
            name: m.name.clone(),
            base_url: m.base_url.clone(),
            priority: m.priority,
            last_success,
            failure_count,
            max_failures: m.max_failures,
            avg_speed_kbps: speed,
        };
        self.mirrors.set(index, fresh);
    }

    /// Notes that the mirror at place `index` served a download of
    /// `bytes` bytes in `secs` seconds at time `now`: its failures are
    /// forgiven, its last success is `now`, and its speed is the mean of the
    /// old speed and the new reading.
    pub fn record_success(&mut self, index: usize, now: u64, bytes: u64, secs: u64)
        requires
            index < old(self).mirrors@.len(),
        ensures
            final(self).mirrors@.len() == old(self).mirrors@.len(),
            final(self).mirrors@[index as int].failure_count == 0,
            final(self).mirrors@[index as int].last_success == Some(now),
            final(self).mirrors@[index as int].avg_speed_kbps == spec_speed_after(
                old(self).mirrors@[index as int].avg_speed_kbps,
                bytes,
                secs,
            ),
            final(self).mirrors@[index as int].max_failures == old(self).mirrors@[index as int].max_failures,
            final(self).mirrors@[index as int].name@ == old(self).mirrors@[index as int].name@,
            final(self).mirrors@[index as int].base_url@ == old(self).mirrors@[index as int].base_url@,
            final(self).mirrors@[index as int].priority == old(self).mirrors@[index as int].priority,
            final(self).mirrors@[index as int].max_failures > 0 ==> final(self).mirrors@[index as int].spec_healthy(),
            forall|i: int|
                0 <= i < old(self).mirrors@.len() && i != index ==> final(self).mirrors@[i] == old(self).mirrors@[i],
    {
        let old_speed = self.mirrors[index].avg_speed_kbps;
        let speed: u64 = if secs == 0 {
            old_speed
        } else {
            let reading: u64 = (bytes / 1000) / secs;
            ((old_speed as u128 + reading as u128) / 2) as u64
        };
        self.put(index, Some(now), 0, speed);
    }

    /// Notes that the mirror at place `index` failed: it has one failure
    /// more, and is unhealthy once it has failed as often as it may.
    pub fn record_failure(&mut self, index: usize)
        requires
            index < old(self).mirrors@.len(),
        ensures
            final(self).mirrors@.len() == old(self).mirrors@.len(),
            final(self).mirrors@[index as int].failure_count == (if old(self).mirrors@[index as int].failure_count == usize::MAX {
                usize::MAX
            } else {
                (old(self).mirrors@[index as int].failure_count + 1) as usize
            }),
            final(self).mirrors@[index as int].last_success == old(self).mirrors@[index as int].last_success,
            final(self).mirrors@[index as int].avg_speed_kbps == old(self).mirrors@[index as int].avg_speed_kbps,
            final(self).mirrors@[index as int].max_failures == old(self).mirrors@[index as int].max_failures,
            final(self).mirrors@[index as int].name@ == old(self).mirrors@[index as int].name@,
            final(self).mirrors@[index as int].base_url@ == old(self).mirrors@[index as int].base_url@,
            final(self).mirrors@[index as int].priority == old(self).mirrors@[index as int].priority,
            forall|i: int|
                0 <= i < old(self).mirrors@.len() && i != index ==> final(self).mirrors@[i] == old(self).mirrors@[i],
    {
        let m = &self.mirrors[index];
        let count: usize = if m.failure_count == usize::MAX {
            usize::MAX
        } else {
            m.failure_count + 1
        };
        let last = m.last_success;
        let speed = m.avg_speed_kbps;
        self.put(index, last, count, speed);
    }

    /// How many of the mirrors are healthy.
    pub fn healthy_count(&self) -> (res: usize)
        ensures
            res == spec_healthy_count(self.mirrors@),
            res <= self.mirrors@.len(),
    {
        let mut count: usize = 0;
        let mut i: usize = 0;
        while i < self.mirrors.len()
            invariant
                i <= self.mirrors.len(),
                count <= i,
                count == spec_healthy_count(self.mirrors@.take(i as int)),
            decreases self.mirrors.len() - i,
        {
            assert(self.mirrors@.take(i + 1).drop_last() == self.mirrors@.take(i as int));
            if self.mirrors[i].is_healthy() {
                count += 1;
            }
            i += 1;
        }
        assert(self.mirrors@.take(self.mirrors.len() as int) == self.mirrors@);
        count
    }

    /// After the mirrors have been probed: an error where none is healthy.
    pub fn check_any_healthy(&self) -> (res: Result<(), BuildError>)
        ensures
            res is Ok <==> spec_healthy_count(self.mirrors@) > 0,
            res matches Err(e) ==> e matches BuildError::NetworkTimeout { message } && message@
                == "No healthy mirrors available"@,
    {
        if self.healthy_count() == 0 {
            let r: Result<(), BuildError> = Err(
                BuildError::NetworkTimeout { message: "No healthy mirrors available".to_owned() },
            );
            assert(r matches Err(BuildError::NetworkTimeout { message }) && message@
                == "No healthy mirrors available"@);
            r
        } else {
            Ok(())
        }
    }

    /// Figures on the mirrors at time `now`.
    pub fn get_stats(&self, now: u64) -> (res: MirrorStats)
        ensures
            res.total_mirrors == self.mirrors@.len(),
            res.healthy_mirrors == spec_healthy_count(self.mirrors@),
            res.average_speed_kbps == (if self.mirrors@.len() == 0 {
                0
            } else {
                spec_speed_sum(self.mirrors@) / self.mirrors@.len()
            }),
            exists|order: Seq<usize>|
                spec_is_plan(self.mirrors@, now, order) && res.best_mirror@ == (if order.len() == 0 {
                    Seq::<char>::empty()
                } else {
                    self.mirrors@[order[0] as int].name@
                }),
    {
        let n = self.mirrors.len();
        let mut sum: u128 = 0;
        let mut i: usize = 0;
        while i < n
            invariant
                i <= n,
                n == self.mirrors@.len(),
                sum == spec_speed_sum(self.mirrors@.take(i as int)),
                sum <= i * 0xffff_ffff_ffff_ffff,
            decreases n - i,
        {
            assert(self.mirrors@.take(i + 1).drop_last() == self.mirrors@.take(i as int));
            assert((i + 1) * 0xffff_ffff_ffff_ffff == i * 0xffff_ffff_ffff_ffff
                + 0xffff_ffff_ffff_ffff) by (nonlinear_arith);
            assert(i * 0xffff_ffff_ffff_ffff <= 0xffff_ffff_ffff_ffff * 0xffff_ffff_ffff_ffff)
                by (nonlinear_arith)
                requires
                    i <= 0xffff_ffff_ffff_ffff,
            ;
            sum = sum + self.mirrors[i].avg_speed_kbps as u128;
            i += 1;
        }
        assert(self.mirrors@.take(n as int) == self.mirrors@);
        let average: u64 = if n == 0 {
            0
        } else {
            let avg: u128 = sum / (n as u128);
            assert(avg <= 0xffff_ffff_ffff_ffff) by (nonlinear_arith)
                requires
                    avg == sum / (n as u128),
                    sum <= n * 0xffff_ffff_ffff_ffff,
                    n >= 1,
            ;
            avg as u64
        };
        let order = self.plan_download(now);
        let best: String = if order.len() == 0 {
            String::new()
        } else {
            self.mirrors[order[0]].name.clone()
        };
        MirrorStats {
            total_mirrors: n,
            healthy_mirrors: self.healthy_count(),
            average_speed_kbps: average,
            best_mirror: best,
        }
    }

    /// Forgets what is known of how the mirrors did.
    pub fn reset_stats(&mut self)
        ensures
            final(self).mirrors@.len() == old(self).mirrors@.len(),
            forall|i: int|
                0 <= i < old(self).mirrors@.len() ==> {
                    &&& (#[trigger] final(self).mirrors@[i]).failure_count == 0
                    &&& final(self).mirrors@[i].last_success is None
                    &&& final(self).mirrors@[i].avg_speed_kbps == 0
                    &&& final(self).mirrors@[i].name@ == old(self).mirrors@[i].name@
                    &&& final(self).mirrors@[i].base_url@ == old(self).mirrors@[i].base_url@
                    &&& final(self).mirrors@[i].priority == old(self).mirrors@[i].priority
                    &&& final(self).mirrors@[i].max_failures == old(self).mirrors@[i].max_failures
                },
    {
        let n = self.mirrors.len();
        let mut i: usize = 0;
        while i < n
            invariant
                i <= n,
                n == self.mirrors@.len(),
                n == old(self).mirrors@.len(),
                forall|j: int|
                    0 <= j < i ==> {
                        &&& (#[trigger] self.mirrors@[j]).failure_count == 0
                        &&& self.mirrors@[j].last_success is None
                        &&& self.mirrors@[j].avg_speed_kbps == 0
                        &&& self.mirrors@[j].name@ == old(self).mirrors@[j].name@
                        &&& self.mirrors@[j].base_url@ == old(self).mirrors@[j].base_url@
                        &&& self.mirrors@[j].priority == old(self).mirrors@[j].priority
                        &&& self.mirrors@[j].max_failures == old(self).mirrors@[j].max_failures
                    },
                forall|j: int| i <= j < n ==> self.mirrors@[j] == old(self).mirrors@[j],
            decreases n - i,
        {
            self.put(i, None, 0, 0);
            i += 1;
        }
    }
}

/// What follows an attempt at a mirror.
#[derive(Debug, Clone, Copy, PartialEq, Eq, Structural)]
pub enum FailoverStep {
    /// The file is there.
    Done,
    /// The mirror at this place of the order is tried, after the pause.
    TryNext { position: usize, pause_secs: u64 },
    /// Every healthy mirror has failed: the download fails. Unhealthy
    /// mirrors are not tried.
    Exhausted,
}

impl MirrorManager {
    /// Takes in how the download from the mirror at place `position` of
    /// `order` ended, and says what follows. After a success the mirror has
    /// no failures and `now` as its last success. After a failure it has one
    /// failure more, and the next mirror of the order is tried, if there is one.
    pub fn download_with_failover(
        &mut self,
        order: &Vec<usize>,
        position: usize,
        succeeded: bool,
        now: u64,
        bytes: u64,
        secs: u64,
    ) -> (res: FailoverStep)
        requires
            position < order@.len(),
            order@[position as int] < old(self).mirrors@.len(),
        ensures
            final(self).mirrors@.len() == old(self).mirrors@.len(),
            forall|i: int|
                0 <= i < old(self).mirrors@.len() && i != order@[position as int] ==> final(self).mirrors@[i] == old(self).mirrors@[i],
            succeeded ==> res == FailoverStep::Done && final(self).mirrors@[order@[position as int] as int].failure_count == 0 && final(self).mirrors@[order@[position as int] as int].last_success == Some(now),
            !succeeded ==> final(self).mirrors@[order@[position as int] as int].failure_count == (
            if old(self).mirrors@[order@[position as int] as int].failure_count == usize::MAX {
                usize::MAX
            } else {
                (old(self).mirrors@[order@[position as int] as int].failure_count + 1) as usize
            }) && res == (if position + 1 < order@.len() {
                FailoverStep::TryNext {
                    position: (position + 1) as usize,
                    pause_secs: FAILOVER_PAUSE_SECS,
                }
            } else {
                FailoverStep::Exhausted
            }),
    {
        let index = order[position];
        let last: usize = order.len() - 1;
        if succeeded {
            self.record_success(index, now, bytes, secs);
            FailoverStep::Done
        } else {
            self.record_failure(index);
            if position < last {
                FailoverStep::TryNext { position: position + 1, pause_secs: FAILOVER_PAUSE_SECS }
            } else {
                FailoverStep::Exhausted
            }
        }
    }

    /// Takes in how the probes of the mirrors ended: a mirror that
    /// answered has no failures and `now` as its last success; one that did
    /// not has one failure more. It is an error if no mirror is healthy then.
    pub fn test_mirrors(&mut self, answered: &Vec<bool>, now: u64) -> (res: Result<(), BuildError>)
        requires
            answered@.len() == old(self).mirrors@.len(),
        ensures
            final(self).mirrors@.len() == old(self).mirrors@.len(),
            forall|i: int|
                0 <= i < old(self).mirrors@.len() ==> {
                    &&& (#[trigger] final(self).mirrors@[i]).max_failures == old(self).mirrors@[i].max_failures
                    &&& final(self).mirrors@[i].priority == old(self).mirrors@[i].priority
                    &&& final(self).mirrors@[i].base_url@ == old(self).mirrors@[i].base_url@
                    &&& (answered@[i] ==> final(self).mirrors@[i].failure_count == 0 && final(self).mirrors@[i].last_success == Some(now))
                    &&& (!answered@[i] ==> final(self).mirrors@[i].failure_count == (if old(self).mirrors@[i].failure_count == usize::MAX {
                        usize::MAX
                    } else {
                        (old(self).mirrors@[i].failure_count + 1) as usize
                    }) && final(self).mirrors@[i].last_success == old(self).mirrors@[i].last_success)
                },
            res is Ok <==> spec_healthy_count(final(self).mirrors@) > 0,
    {
        let n = self.mirrors.len();
        let mut i: usize = 0;
        while i < n
            invariant
                i <= n,
                n == self.mirrors@.len(),
                n == old(self).mirrors@.len(),
                answered@.len() == n,
                forall|j: int| i <= j < n ==> self.mirrors@[j] == old(self).mirrors@[j],
                forall|j: int|
                    0 <= j < i ==> {
                        &&& (#[trigger] self.mirrors@[j]).max_failures == old(self).mirrors@[j].max_failures
                        &&& self.mirrors@[j].priority == old(self).mirrors@[j].priority
                        &&& self.mirrors@[j].base_url@ == old(self).mirrors@[j].base_url@
                        &&& (answered@[j] ==> self.mirrors@[j].failure_count == 0
                            && self.mirrors@[j].last_success == Some(now))
                        &&& (!answered@[j] ==> self.mirrors@[j].failure_count == (if old(self).mirrors@[j].failure_count == usize::MAX {
                            usize::MAX
                        } else {
                            (old(self).mirrors@[j].failure_count + 1) as usize
                        }) && self.mirrors@[j].last_success == old(self).mirrors@[j].last_success)
                    },
            decreases n - i,
        {
            if answered[i] {
                self.record_success(i, now, 0, 0);
            } else {
                self.record_failure(i);
            }
            i += 1;
        }
        self.check_any_healthy()
    }
}

/// How many of the flags are not set.
pub open spec fn spec_unset_count(flags: Seq<bool>) -> nat
    decreases flags.len(),
{
    if flags.len() == 0 {
        0
    } else {
        spec_unset_count(flags.drop_last()) + (if flags.last() {
            0nat
        } else {
            1nat
        })
    }
}

/// Setting a flag that was not set leaves one unset flag fewer.
pub proof fn lemma_set_flag(flags: Seq<bool>, k: int)
    requires
        0 <= k < flags.len(),
        !flags[k],
    ensures
        spec_unset_count(flags.update(k, true)) + 1 == spec_unset_count(flags),
    decreases flags.len(),
{
    let after = flags.update(k, true);
    if k == flags.len() - 1 {
        assert(after.drop_last() == flags.drop_last());
    } else {
        assert(after.drop_last() == flags.drop_last().update(k, true));
        lemma_set_flag(flags.drop_last(), k);
    }
}

} // verus!
