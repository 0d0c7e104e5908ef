use vstd::prelude::*;
use crate::decimal::{push_decimal, spec_decimal};
use crate::system::DiskType;
use crate::text::{push_str, push_string, string_views};

verus! {

/// The processors of the machine.
#[derive(Debug)]
pub struct CpuInfo {
    pub physical_cores: usize,
    pub logical_cores: usize,
    pub architecture: String,
    pub features: Vec<String>,
}

/// The memory of the machine, in megabytes.
#[derive(Debug, Clone, Copy, PartialEq, Eq, Structural)]
pub struct MemoryInfo {
    pub total_mb: u64,
    pub available_mb: u64,
}

/// The settings that the tuner proposes for a build.
#[derive(Debug)]
pub struct OptimizedConfig {
    pub parallel_jobs: usize,
    pub optimization_level: String,
    pub memory_limit_mb: Option<u64>,
    pub temp_dir: Option<String>,
    pub configure_args: Vec<String>,
    pub make_args: Vec<String>,
    pub environment_vars: Vec<(String, String)>,
    pub rationale: String,
}

/// Where the memory that a build is reckoned to need is known from.
#[derive(Debug, Clone, Copy, PartialEq, Eq, Structural)]
pub enum EstimateSource {
    ExactMatch,
    SimilarBuilds,
    Heuristics,
}

/// The memory, in megabytes, that a build of a release line is reckoned
/// to need where nothing is known of earlier builds.
pub open spec fn spec_base_memory(major: u8) -> u64 {
    if major == 10 {
        2500
    } else if major == 11 {
        2800
    } else if major == 12 {
        3200
    } else if major == 13 {
        3500
    } else if major == 14 {
        3800
    } else if major == 15 {
        4000
    } else {
        3000
    }
}

/// The arguments for `make`: the jobs, a load limit two above them, and silence.
pub open spec fn spec_make_args(jobs: usize) -> Seq<Seq<char>> {
    seq!["-j"@ + spec_decimal(jobs as nat), "-l"@ + spec_decimal((jobs + 2) as nat), "-s"@]
}

/// The memory, in megabytes, that a build of a release line is reckoned to need.
pub fn estimate_base_memory(major: u8) -> (res: u64)
    ensures
        res == spec_base_memory(major),
{
    match major {
        10 => 2500,
        11 => 2800,
        12 => 3200,
        13 => 3500,
        14 => 3800,
        15 => 4000,
        _ => 3000,
    }
}

/// The arguments for `make`.
pub fn optimize_make_args(jobs: usize) -> (res: Vec<String>)
    requires
        jobs + 2 <= usize::MAX,
    ensures
        string_views(res@) == spec_make_args(jobs),
{
    let mut args: Vec<String> = Vec::new();
    assert(string_views(args@) =~= Seq::<Seq<char>>::empty());
    let mut j = "-j".to_owned();
    push_decimal(&mut j, jobs as u64);
    push_string(&mut args, j);
    let mut l = "-l".to_owned();
    push_decimal(&mut l, (jobs + 2) as u64);
    push_string(&mut args, l);
    push_str(&mut args, "-s");
    args
}

/// How many characters two hashes have in common, place by place, and
/// how many places were held against each other.
pub open spec fn spec_matching(a: Seq<char>, b: Seq<char>, k: int) -> nat
    decreases k,
{
    if k <= 0 {
        0
    } else {
        spec_matching(a, b, k - 1) + (if a[k - 1] == b[k - 1] {
            1nat
        } else {
            0nat
        })
    }
}

/// How many characters two hashes have in common, place by place, over
/// the length of the shorter.
pub fn calculate_config_similarity(hash1: &str, hash2: &str) -> (res: (usize, usize))
    ensures
        res.1 == (if hash1@.len() < hash2@.len() {
            hash1@.len()
        } else {
            hash2@.len()
        }),
        res.0 == spec_matching(hash1@, hash2@, res.1 as int),
        res.0 <= res.1,
{
    let a = crate::text::chars_of(hash1);
    let b = crate::text::chars_of(hash2);
    let n: usize = if a.len() < b.len() {
        a.len()
    } else {
        b.len()
    };
    let mut same: usize = 0;
    let mut i: usize = 0;
    while i < n
        invariant
            i <= n,
            n <= a.len(),
            n <= b.len(),
            a@ == hash1@,
            b@ == hash2@,
            same == spec_matching(hash1@, hash2@, i as int),
            same <= i,
        decreases n - i,
    {
        if a[i] == b[i] {
            same += 1;
        }
        i += 1;
    }
    (same, n)
}

/// What the tuner tells the user of the machine, in words. Memory is in
/// megabytes.
pub fn get_recommendations(total_memory_mb: u64, physical_cores: usize, disk: DiskType, major: u8) -> (res:
    Vec<String>)
    ensures
        string_views(res@) == (if total_memory_mb < 8192 {
            seq!["Low memory detected - consider using --preset minimal"@]
        } else {
            Seq::<Seq<char>>::empty()
        }) + (if physical_cores <= 2 {
            seq!["Limited CPU cores - single build recommended"@]
        } else if physical_cores >= 16 {
            seq!["High-end CPU detected - parallel builds will be very efficient"@]
        } else {
            Seq::<Seq<char>>::empty()
        }) + seq![
            match disk {
                DiskType::Hdd => "HDD storage detected - builds will be I/O bound"@,
                DiskType::Ssd => "SSD storage detected - good build performance expected"@,
                DiskType::NvMe => "NVMe storage detected - optimal build performance"@,
                DiskType::Unknown => "Unknown storage type - performance may vary"@,
            },
        ] + (if major >= 13 {
            seq!["Modern GCC version - all optimizations available"@]
        } else {
            Seq::<Seq<char>>::empty()
        }),
{
    let mut out: Vec<String> = Vec::new();
    assert(string_views(out@) =~= Seq::<Seq<char>>::empty());
    if total_memory_mb < 8192 {
        push_str(&mut out, "Low memory detected - consider using --preset minimal");
    }
    let ghost s1 = string_views(out@);
    if physical_cores <= 2 {
        push_str(&mut out, "Limited CPU cores - single build recommended");
    } else if physical_cores >= 16 {
        push_str(&mut out, "High-end CPU detected - parallel builds will be very efficient");
    }
    let ghost s2 = string_views(out@);
    match disk {
        DiskType::Hdd => {
            push_str(&mut out, "HDD storage detected - builds will be I/O bound");
        },
        DiskType::Ssd => {
            push_str(&mut out, "SSD storage detected - good build performance expected");
        },
        DiskType::NvMe => {
            push_str(&mut out, "NVMe storage detected - optimal build performance");
        },
        DiskType::Unknown => {
            push_str(&mut out, "Unknown storage type - performance may vary");
        },
    }
    let ghost s3 = string_views(out@);
    if major >= 13 {
        push_str(&mut out, "Modern GCC version - all optimizations available");
    }
    assert(s1 =~= (if total_memory_mb < 8192 {
        seq!["Low memory detected - consider using --preset minimal"@]
    } else {
        Seq::<Seq<char>>::empty()
    }));
    assert(s2 =~= s1 + (if physical_cores <= 2 {
        seq!["Limited CPU cores - single build recommended"@]
    } else if physical_cores >= 16 {
        seq!["High-end CPU detected - parallel builds will be very efficient"@]
    } else {
        Seq::<Seq<char>>::empty()
    }));
    assert(s3 =~= s2 + seq![
        match disk {
            DiskType::Hdd => "HDD storage detected - builds will be I/O bound"@,
            DiskType::Ssd => "SSD storage detected - good build performance expected"@,
            DiskType::NvMe => "NVMe storage detected - optimal build performance"@,
            DiskType::Unknown => "Unknown storage type - performance may vary"@,
        },
    ]);
    assert(string_views(out@) =~= s3 + (if major >= 13 {
        seq!["Modern GCC version - all optimizations available"@]
    } else {
        Seq::<Seq<char>>::empty()
    }));
    out
}

} // verus!
