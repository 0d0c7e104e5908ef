use vstd::prelude::*;
use vstd::string::StringExecFns;
use crate::config::{DISK_SPACE_MARGIN_GB, DISK_SPACE_PER_VERSION_GB, MIN_RAM_MB};
use crate::decimal::{parse_u64, push_decimal, spec_decimal, spec_parse_u64};
use crate::download::{spec_trim_end, trim_end};
use crate::error::BuildError;
use crate::scan::{lines, spec_lines, spec_trim, spec_words, split_whitespace, trim};
use crate::text::{
    chars_of,
    push_str,
    push_string,
    spec_starts_with,
    starts_with,
    str_starts_with,
    string_of,
    string_views,
    views,
};

verus! {

/// The target triple that is taken where the compiler cannot be asked.
pub const DEFAULT_TARGET_TRIPLE: &'static str = "x86_64-linux-gnu";

/// How long, in seconds, a reading of the machine is used.
pub const PROBE_MAX_AGE_SECS: u64 = 10;

/// The kind of disk that a machine builds on.
#[derive(Debug, Clone, Copy, PartialEq, Eq, Structural)]
pub enum DiskType {
    Hdd,
    Ssd,
    NvMe,
    Unknown,
}

/// What was read of one block device.
#[derive(Debug)]
pub struct BlockDevice {
    pub name: String,
    /// What its `queue/rotational` file holds, where it could be read.
    pub rotational: Option<String>,
}

/// A reading of the machine.
#[derive(Debug)]
pub struct SystemInfo {
    pub total_ram_mb: u64,
    pub avail_ram_mb: u64,
    pub physical_cores: usize,
    pub logical_cores: usize,
    pub disk_type: DiskType,
    pub available_disk_gb: u64,
    /// The load of the last minute, in hundredths.
    pub load_1min: u32,
    pub target_triple: String,
    pub os_release: String,
}

/// How the processors of a machine are laid out.
#[derive(Debug, Clone, Copy, PartialEq, Eq, Structural)]
pub struct CpuTopology {
    pub total_cores: usize,
    pub physical_cores: usize,
    pub numa_nodes: usize,
}

/// What one block device tells of the kind of disk: a device whose name
/// begins with `nvme` is an NVMe disk; one whose name begins with `sd` and
/// whose rotational flag could be read is a solid-state disk where the flag
/// is `0` and a hard disk otherwise; any other tells nothing.
pub open spec fn spec_device_kind(name: Seq<char>, rotational: Option<Seq<char>>) -> Option<DiskType> {
    if spec_starts_with(name, "nvme"@) {
        Some(DiskType::NvMe)
    } else if spec_starts_with(name, "sd"@) {
        match rotational {
            Some(flag) => if spec_trim(flag) == "0"@ {
                Some(DiskType::Ssd)
            } else {
                Some(DiskType::Hdd)
            },
            None => None,
        }
    } else {
        None
    }
}

/// The kind of disk: what the first device among the first `k` that
/// tells anything tells; unknown where none does.
pub open spec fn spec_disk_type(devices: Seq<BlockDevice>, k: int) -> DiskType
    decreases k,
{
    if k <= 0 {
        DiskType::Unknown
    } else {
        match spec_disk_type(devices, k - 1) {
            DiskType::Unknown => match spec_device_kind(
                devices[k - 1].name@,
                match devices[k - 1].rotational {
                    Some(r) => Some(r@),
                    None => None,
                },
            ) {
                Some(t) => t,
                None => DiskType::Unknown,
            },
            t => t,
        }
    }
}

/// What one block device tells of the kind of disk.
pub fn device_kind(device: &BlockDevice) -> (res: Option<DiskType>)
    ensures
        res == spec_device_kind(
            device.name@,
            match device.rotational {
                Some(r) => Some(r@),
                None => None,
            },
        ),
{
    if str_starts_with(device.name.as_str(), "nvme") {
        Some(DiskType::NvMe)
    } else if str_starts_with(device.name.as_str(), "sd") {
        match &device.rotational {
            Some(flag) => {
                let f = chars_of(flag.as_str());
                let t = trim(&f);
                let zero = chars_of("0");
                if crate::text::chars_eq(&t, &zero) {
                    Some(DiskType::Ssd)
                } else {
                    Some(DiskType::Hdd)
                }
            },
            None => None,
        }
    } else {
        None
    }
}

/// The kind of disk that the block devices tell of.
pub fn classify_disk(devices: &Vec<BlockDevice>) -> (res: DiskType)
    ensures
        res == spec_disk_type(devices@, devices@.len() as int),
{
    let mut found = DiskType::Unknown;
    let mut i: usize = 0;
    while i < devices.len()
        invariant
            i <= devices.len(),
            found == spec_disk_type(devices@, i as int),
        decreases devices.len() - i,
    {
        if found == DiskType::Unknown {
            match device_kind(&devices[i]) {
                Some(t) => {
                    found = t;
                },
                None => {},
            }
        }
        i += 1;
    }
    found
}

/// The target triple: what `gcc -dumpmachine` printed, else what
/// `cc -dumpmachine` printed, white space at the ends left off and blank
/// answers passed over; the usual triple where neither answered.
pub open spec fn spec_target_triple(gcc: Option<Seq<char>>, cc: Option<Seq<char>>) -> Seq<char> {
    if gcc is Some && spec_trim(gcc->0).len() > 0 {
        spec_trim(gcc->0)
    } else if cc is Some && spec_trim(cc->0).len() > 0 {
        spec_trim(cc->0)
    } else {
        DEFAULT_TARGET_TRIPLE@
    }
}

/// The target triple of the machine, from what the compilers printed.
pub fn get_target_arch(gcc_output: Option<&str>, cc_output: Option<&str>) -> (res: String)
    ensures
        res@ == spec_target_triple(
            match gcc_output {
                Some(s) => Some(s@),
                None => None,
            },
            match cc_output {
                Some(s) => Some(s@),
                None => None,
            },
        ),
{
    match gcc_output {
        Some(s) => {
            let t = trim(&chars_of(s));
            if t.len() > 0 {
                return string_of(&t);
            }
        },
        None => {},
    }
    match cc_output {
        Some(s) => {
            let t = trim(&chars_of(s));
            if t.len() > 0 {
                return string_of(&t);
            }
        },
        None => {},
    }
    DEFAULT_TARGET_TRIPLE.to_owned()
}

/// The disk space, in gigabytes, that building `count` versions requires.
pub open spec fn spec_required_disk_gb(count: int) -> int {
    count * DISK_SPACE_PER_VERSION_GB as int + DISK_SPACE_MARGIN_GB as int
}

/// What is wrong with the machine, if anything: too little memory, or
/// too little disk space where the free space is known.
pub open spec fn spec_resource_complaint(
    total_ram_mb: u64,
    available_disk_gb: Option<u64>,
    num_versions: usize,
) -> Option<Seq<char>> {
    if total_ram_mb < MIN_RAM_MB {
        Some(
            "Insufficient RAM. Required: "@ + spec_decimal(MIN_RAM_MB as nat) + "MB, Available: "@
                + spec_decimal(total_ram_mb as nat) + "MB"@,
        )
    } else if available_disk_gb is Some && (available_disk_gb->0 as int) < spec_required_disk_gb(
        num_versions as int,
    ) {
        Some(
            "Insufficient disk space. Required: "@ + spec_decimal(
                spec_required_disk_gb(num_versions as int) as nat,
            ) + "GB for "@ + spec_decimal(num_versions as nat) + " version(s), Available: "@
                + spec_decimal(available_disk_gb->0 as nat) + "GB"@,
        )
    } else {
        None
    }
}

/// Checks that the machine has the memory and the disk space to build
/// `num_versions` versions.
pub fn check_system_resources(
    total_ram_mb: u64,
    available_disk_gb: Option<u64>,
    num_versions: usize,
) -> (res: Result<(), BuildError>)
    requires
        spec_required_disk_gb(num_versions as int) <= u64::MAX,
    ensures
        res is Ok <==> spec_resource_complaint(total_ram_mb, available_disk_gb, num_versions)
            is None,
        res matches Err(e) ==> e matches BuildError::InsufficientResources { message } && Some(
            message@,
        ) == spec_resource_complaint(total_ram_mb, available_disk_gb, num_versions),
{
    if total_ram_mb < MIN_RAM_MB {
        let mut m = "Insufficient RAM. Required: ".to_owned();
        push_decimal(&mut m, MIN_RAM_MB);
        m.append("MB, Available: ");
        push_decimal(&mut m, total_ram_mb);
        m.append("MB");
        let r: Result<(), BuildError> = Err(BuildError::InsufficientResources { message: m });
        assert(r matches Err(BuildError::InsufficientResources { message }) && Some(message@)
            == spec_resource_complaint(total_ram_mb, available_disk_gb, num_versions));
        return r;
    }
    match available_disk_gb {
        Some(avail) => {
            let required: u64 = (num_versions as u64) * DISK_SPACE_PER_VERSION_GB
                + DISK_SPACE_MARGIN_GB;
            if avail < required {
                let mut m = "Insufficient disk space. Required: ".to_owned();
                push_decimal(&mut m, required);
                m.append("GB for ");
                push_decimal(&mut m, num_versions as u64);
                m.append(" version(s), Available: ");
                push_decimal(&mut m, avail);
                m.append("GB");
                let r: Result<(), BuildError> = Err(
                    BuildError::InsufficientResources { message: m },
                );
                assert(r matches Err(BuildError::InsufficientResources { message }) && Some(
                    message@,
                ) == spec_resource_complaint(total_ram_mb, available_disk_gb, num_versions));
                return r;
            }
        },
        None => {},
    }
    Ok(())
}

/// The free space, in gigabytes, that the second line of the output of
/// `df -BG` gives in its fourth column.
pub open spec fn spec_df_available(output: Seq<char>) -> Option<u64> {
    let all = spec_lines(output);
    if all.len() < 2 {
        None
    } else {
        let words = spec_words(all[1]);
        if words.len() < 4 {
            None
        } else {
            spec_parse_u64(spec_trim_end(words[3], "G"@))
        }
    }
}

/// The free space, in gigabytes, that the output of `df -BG` gives.
pub fn parse_df_available(output: &str) -> (res: Option<u64>)
    ensures
        res == spec_df_available(output@),
{
    let text = chars_of(output);
    let all = lines(&text);
    assert(views(all@).len() == all@.len());
    if all.len() < 2 {
        return None;
    }
    assert(views(all@)[1] == all@[1]@);
    let words = split_whitespace(&all[1]);
    assert(views(words@).len() == words@.len());
    if words.len() < 4 {
        return None;
    }
    assert(views(words@)[3] == words@[3]@);
    let w = string_of(&words[3]);
    let t = trim_end(w.as_str(), "G");
    parse_u64(&chars_of(t.as_str()))
}

/// The number of make threads: two fewer than the machine can run at
/// once, and at least two; four are assumed where the machine does not tell.
pub open spec fn spec_make_threads(available: Option<usize>) -> int {
    let n: int = match available {
        Some(a) => a as int,
        None => 4,
    };
    if n - 2 < 2 {
        2
    } else {
        n - 2
    }
}

/// The number of make threads.
pub fn get_make_threads(available: Option<usize>) -> (res: usize)
    ensures
        res == spec_make_threads(available),
{
    let n: usize = match available {
        Some(a) => a,
        None => 4,
    };
    if n < 4 {
        2
    } else {
        n - 2
    }
}

/// Refuses to run for the superuser.
pub fn check_not_root(uid: u32) -> (res: Result<(), BuildError>)
    ensures
        res is Ok <==> uid != 0,
        res matches Err(e) ==> e is RunningAsRoot,
{
    if uid == 0 {
        Err(BuildError::RunningAsRoot)
    } else {
        Ok(())
    }
}

/// The file whose lock keeps a user from running two builds at once.
pub fn lock_file_path(uid: u32) -> (res: String)
    ensures
        res@ == "/tmp/build-gcc-"@ + spec_decimal(uid as nat) + ".lock"@,
{
    let mut p = "/tmp/build-gcc-".to_owned();
    push_decimal(&mut p, uid as u64);
    p.append(".lock");
    p
}

/// The arguments of `sudo` that run `program` with `args`.
pub fn run_sudo_command(program: &str, args: &Vec<String>) -> (res: Vec<String>)
    ensures
        string_views(res@) == seq![program@] + string_views(args@),
{
    let mut full: Vec<String> = Vec::new();
    assert(string_views(full@) =~= Seq::<Seq<char>>::empty());
    push_str(&mut full, program);
    let mut i: usize = 0;
    while i < args.len()
        invariant
            i <= args.len(),
            string_views(full@) == seq![program@] + string_views(args@).take(i as int),
        decreases args.len() - i,
    {
        push_string(&mut full, args[i].clone());
        assert(string_views(args@).take(i + 1) =~= string_views(args@).take(i as int).push(
            args@[i as int]@,
        ));
        i += 1;
    }
    assert(string_views(args@).take(args.len() as int) == string_views(args@));
    full
}

/// Whether a reading of the machine that is `age_secs` old has to be taken anew.
pub fn probe_is_stale(age_secs: u64) -> (res: bool)
    ensures
        res == (age_secs > PROBE_MAX_AGE_SECS),
{
    age_secs > PROBE_MAX_AGE_SECS
}

/// The number that the last word of a line says, if the line begins with `label`.
pub open spec fn spec_labelled_number(line: Seq<char>, label: Seq<char>) -> Option<u64> {
    if spec_starts_with(line, label) && spec_words(line).len() > 0 {
        spec_parse_u64(spec_words(line).last())
    } else {
        None
    }
}

/// The number that the last word of a line says, if the line begins with `label`.
pub fn labelled_number(line: &Vec<char>, label: &str) -> (res: Option<u64>)
    ensures
        res == spec_labelled_number(line@, label@),
{
    let l = chars_of(label);
    if !starts_with(line, &l) {
        return None;
    }
    let words = split_whitespace(line);
    assert(views(words@).len() == words@.len());
    if words.len() == 0 {
        return None;
    }
    assert(views(words@)[words@.len() - 1] == words@[words@.len() - 1]@);
    parse_u64(&words[words.len() - 1])
}

/// The first number that a line of the first `k` lines gives under
/// `label`, if one does.
pub open spec fn spec_first_labelled(all: Seq<Seq<char>>, label: Seq<char>, k: int) -> Option<u64>
    decreases k,
{
    if k <= 0 {
        None
    } else {
        match spec_first_labelled(all, label, k - 1) {
            Some(n) => Some(n),
            None => spec_labelled_number(all[k - 1], label),
        }
    }
}

/// The first number that a line gives under `label`.
pub fn first_labelled(all: &Vec<Vec<char>>, label: &str) -> (res: Option<u64>)
    ensures
        res == spec_first_labelled(views(all@), label@, all@.len() as int),
{
    let mut found: Option<u64> = None;
    let mut i: usize = 0;
    while i < all.len()
        invariant
            i <= all.len(),
            found == spec_first_labelled(views(all@), label@, i as int),
        decreases all.len() - i,
    {
        assert(views(all@)[i as int] == all@[i as int]@);
        if found.is_none() {
            found = labelled_number(&all[i], label);
        }
        i += 1;
    }
    found
}

/// The layout of the processors as `lscpu` tells it: the physical cores
/// are the cores per socket times the sockets, and each socket is a NUMA
/// node. Where `lscpu` does not tell both, or the product does not fit,
/// half the logical cores count as physical, on one node.
pub open spec fn spec_topology(output: Option<Seq<char>>, total_cores: usize) -> CpuTopology {
    let fallback = CpuTopology {
        total_cores,
        physical_cores: total_cores / 2,
        numa_nodes: 1,
    };
    match output {
        None => fallback,
        Some(text) => {
            let all = spec_lines(text);
            match (
                spec_first_labelled(all, "Core(s) per socket:"@, all.len() as int),
                spec_first_labelled(all, "Socket(s):"@, all.len() as int),
            ) {
                (Some(cores), Some(sockets)) => if cores * sockets <= usize::MAX && sockets
                    <= usize::MAX {
                    CpuTopology {
                        total_cores,
                        physical_cores: (cores * sockets) as usize,
                        numa_nodes: sockets as usize,
                    }
                } else {
                    fallback
                },
                _ => fallback,
            }
        },
    }
}

/// The layout of the processors, from what `lscpu` printed.
pub fn detect_cpu_topology(lscpu_output: Option<&str>, total_cores: usize) -> (res: CpuTopology)
    ensures
        res == spec_topology(
            match lscpu_output {
                Some(s) => Some(s@),
                None => None,
            },
            total_cores,
        ),
{
    let fallback = CpuTopology { total_cores, physical_cores: total_cores / 2, numa_nodes: 1 };
    match lscpu_output {
        None => fallback,
        Some(text) => {
            let all = lines(&chars_of(text));
            let cores = first_labelled(&all, "Core(s) per socket:");
            let sockets = first_labelled(&all, "Socket(s):");
            match (cores, sockets) {
                (Some(c), Some(s)) => {
                    assert(c * s <= 0xffff_ffff_ffff_ffff * 0xffff_ffff_ffff_ffff) by (nonlinear_arith)
                        requires
                            c <= 0xffff_ffff_ffff_ffff,
                            s <= 0xffff_ffff_ffff_ffff,
                    ;
                    let product: u128 = (c as u128) * (s as u128);
                    if product <= usize::MAX as u128 && s <= usize::MAX as u64 {
                        CpuTopology {
                            total_cores,
                            physical_cores: product as usize,
                            numa_nodes: s as usize,
                        }
                    } else {
                        fallback
                    }
                },
                _ => fallback,
            }
        },
    }
}

/// The lock that keeps a user from running two builds at once.
#[derive(Debug)]
pub struct LockFile {
    pub path: String,
}

impl LockFile {
    /// Takes the lock for the user `uid`. `locked_by_other` tells whether
    /// another process holds the lock on the file.
    pub fn acquire(uid: u32, locked_by_other: bool) -> (res: Result<LockFile, BuildError>)
        ensures
            res is Ok <==> !locked_by_other,
            res matches Ok(l) ==> l.path@ == "/tmp/build-gcc-"@ + spec_decimal(uid as nat)
                + ".lock"@,
            res matches Err(e) ==> e is LockFailed,
    {
        if locked_by_other {
            Err(BuildError::LockFailed)
        } else {
            Ok(LockFile { path: lock_file_path(uid) })
        }
    }
}

/// The configure option for offloading to CUDA devices, where the CUDA
/// compiler is on the path and answers.
pub fn check_cuda(nvcc_on_path: bool, nvcc_answers: bool) -> (res: Option<String>)
    ensures
        res is Some <==> nvcc_on_path && nvcc_answers,
        res matches Some(o) ==> o@ == "--enable-offload-targets=nvptx-none"@,
{
    if nvcc_on_path && nvcc_answers {
        Some("--enable-offload-targets=nvptx-none".to_owned())
    } else {
        None
    }
}

} // verus!
