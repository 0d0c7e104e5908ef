use gcc_builder::auto_tuner::{
    calculate_config_similarity, estimate_base_memory, get_recommendations, optimize_make_args,
};
use gcc_builder::build_cache::{extract_number, BuildCache, CacheType};
use gcc_builder::directories::{
    create_build_directories, DirAction, DirObservation, DirectoryOperations, SpaceUnit,
};
use gcc_builder::error::BuildError;
use gcc_builder::memory_monitor::{
    extract_kb_value, pressure_of, reaches, AdaptiveThresholds, MemoryInfo, MemoryMonitor,
    MemoryPressure, MonitorConfig, PressureResponse,
};
use gcc_builder::system::{
    check_cuda, check_not_root, check_system_resources, classify_disk, detect_cpu_topology,
    get_make_threads, get_target_arch, lock_file_path, parse_df_available, probe_is_stale,
    run_sudo_command, BlockDevice, DiskType, LockFile,
};

fn dev(name: &str, rotational: Option<&str>) -> BlockDevice {
    BlockDevice { name: name.to_string(), rotational: rotational.map(|s| s.to_string()) }
}

fn reading(used_mb: u64, total_mb: u64) -> MemoryInfo {
    MemoryInfo {
        total_mb,
        available_mb: total_mb - used_mb,
        used_mb,
        cached_mb: 0,
        buffers_mb: 0,
        swap_total_mb: 0,
        swap_used_mb: 0,
        timestamp: 0,
    }
}

#[test]
fn kinds_of_disk() {
    assert_eq!(classify_disk(&vec![]), DiskType::Unknown);
    assert_eq!(classify_disk(&vec![dev("loop0", None), dev("nvme0n1", None)]), DiskType::NvMe);
    assert_eq!(classify_disk(&vec![dev("sda", Some("0\n"))]), DiskType::Ssd);
    assert_eq!(classify_disk(&vec![dev("sda", Some("1\n"))]), DiskType::Hdd);
    assert_eq!(classify_disk(&vec![dev("sda", None), dev("sdb", Some("1"))]), DiskType::Hdd);
    assert_eq!(classify_disk(&vec![dev("sda", Some("0")), dev("nvme0n1", None)]), DiskType::Ssd);
    assert_eq!(classify_disk(&vec![dev("vda", Some("0"))]), DiskType::Unknown);
}

#[test]
fn target_triple() {
    assert_eq!(get_target_arch(Some("aarch64-linux-gnu\n"), Some("x")), "aarch64-linux-gnu");
    assert_eq!(get_target_arch(Some("  \n"), Some(" riscv64-linux-gnu ")), "riscv64-linux-gnu");
    assert_eq!(get_target_arch(None, Some("")), "x86_64-linux-gnu");
    assert_eq!(get_target_arch(None, None), "x86_64-linux-gnu");
}

#[test]
fn system_requirements() {
    assert!(check_system_resources(2000, Some(30), 1).is_ok());
    assert!(check_system_resources(2000, None, 100).is_ok());
    assert!(check_system_resources(64000, Some(55), 2).is_ok());
    match check_system_resources(1999, Some(1000), 1) {
        Err(BuildError::InsufficientResources { message }) => {
            assert_eq!(message, "Insufficient RAM. Required: 2000MB, Available: 1999MB")
        }
        other => panic!("{:?}", other),
    }
    match check_system_resources(64000, Some(54), 2) {
        Err(BuildError::InsufficientResources { message }) => assert_eq!(
            message,
            "Insufficient disk space. Required: 55GB for 2 version(s), Available: 54GB"
        ),
        other => panic!("{:?}", other),
    }
    assert!(check_system_resources(64000, Some(4), 0).is_err());
    assert!(check_system_resources(64000, Some(5), 0).is_ok());
}

#[test]
fn free_space_from_df() {
    let out = "Filesystem     1G-blocks  Used Available Use% Mounted on\n/dev/sda1           458G  201G      234G  47% /\n";
    assert_eq!(parse_df_available(out), Some(234));
    assert_eq!(parse_df_available("Filesystem\n"), None);
    assert_eq!(parse_df_available("h\na b c\n"), None);
    assert_eq!(parse_df_available("h\na b c GG\n"), None);
    assert_eq!(parse_df_available("h\na b c 12GG\n"), Some(12));
    assert_eq!(parse_df_available("h\na b c 7\n"), Some(7));
    assert_eq!(parse_df_available(""), None);
}

#[test]
fn make_threads_and_lock() {
    assert_eq!(get_make_threads(Some(16)), 14);
    assert_eq!(get_make_threads(Some(4)), 2);
    assert_eq!(get_make_threads(Some(1)), 2);
    assert_eq!(get_make_threads(Some(0)), 2);
    assert_eq!(get_make_threads(None), 2);
    assert_eq!(lock_file_path(1000), "/tmp/build-gcc-1000.lock");
    assert!(check_not_root(1000).is_ok());
    assert!(matches!(check_not_root(0), Err(BuildError::RunningAsRoot)));
    assert_eq!(LockFile::acquire(1000, false).unwrap().path, "/tmp/build-gcc-1000.lock");
    assert!(matches!(LockFile::acquire(1000, true), Err(BuildError::LockFailed)));
    assert!(!probe_is_stale(10));
    assert!(probe_is_stale(11));
    assert_eq!(check_cuda(true, true), Some("--enable-offload-targets=nvptx-none".to_string()));
    assert_eq!(check_cuda(true, false), None);
    assert_eq!(check_cuda(false, true), None);
    assert_eq!(
        run_sudo_command("make", &vec!["install-strip".to_string()]),
        vec!["make", "install-strip"]
    );
}

#[test]
fn processor_topology() {
    let out = "Architecture: x86_64\nCore(s) per socket:  8\nSocket(s):           2\n";
    let t = detect_cpu_topology(Some(out), 32);
    assert_eq!((t.total_cores, t.physical_cores, t.numa_nodes), (32, 16, 2));
    let t = detect_cpu_topology(Some("Core(s) per socket: 8\n"), 32);
    assert_eq!((t.physical_cores, t.numa_nodes), (16, 1));
    let t = detect_cpu_topology(None, 7);
    assert_eq!((t.total_cores, t.physical_cores, t.numa_nodes), (7, 3, 1));
    let t = detect_cpu_topology(Some("Core(s) per socket: many\nSocket(s): 2\n"), 8);
    assert_eq!(t.physical_cores, 4);
}

#[test]
fn directories() {
    let d = DirectoryOperations::new(false);
    assert_eq!(d.create_directory(false, false), DirAction::Create);
    assert_eq!(d.create_directory(false, true), DirAction::CreateWithSudo);
    assert_eq!(d.create_directory(true, true), DirAction::Nothing);
    let dry = DirectoryOperations::new(true);
    assert_eq!(dry.create_directory(false, false), DirAction::Nothing);
    assert!(d.remove_directory(true) && !d.remove_directory(false) && !dry.remove_directory(true));
    assert_eq!(
        create_build_directories(&vec![true, false, false], false),
        vec![DirAction::Nothing, DirAction::Create, DirAction::Create]
    );
    assert_eq!(create_build_directories(&vec![false], true), vec![DirAction::Nothing]);
    let ok = DirObservation { exists: true, is_dir: true, writable: true };
    let ro = DirObservation { exists: true, is_dir: true, writable: false };
    let file = DirObservation { exists: true, is_dir: false, writable: true };
    let none = DirObservation { exists: false, is_dir: false, writable: false };
    assert_eq!(d.check_directory_writable("/d", "build directory", ok).unwrap(), DirAction::Nothing);
    assert_eq!(d.check_directory_writable("/d", "build directory", none).unwrap(), DirAction::Create);
    match d.check_directory_writable("/d", "build directory", ro) {
        Err(BuildError::DirectoryOperation { reason, .. }) => {
            assert_eq!(reason, "build directory exists but is not writable")
        }
        other => panic!("{:?}", other),
    }
    assert_eq!(d.ensure_directory("/d", "prefix", true, ok).unwrap(), DirAction::Nothing);
    assert_eq!(d.ensure_directory("/d", "prefix", true, none).unwrap(), DirAction::Create);
    match d.ensure_directory("/d", "prefix", false, none) {
        Err(BuildError::DirectoryOperation { reason, path, .. }) => {
            assert_eq!((reason.as_str(), path.as_str()), ("prefix does not exist", "/d"))
        }
        other => panic!("{:?}", other),
    }
    match d.ensure_directory("/d", "prefix", true, file) {
        Err(BuildError::DirectoryOperation { reason, .. }) => {
            assert_eq!(reason, "prefix exists but is not a directory")
        }
        other => panic!("{:?}", other),
    }
}

#[test]
fn free_space_in_units() {
    let d = DirectoryOperations::new(false);
    assert_eq!(d.get_available_space(1000, 4096, SpaceUnit::Bytes), 4_096_000);
    assert_eq!(d.get_available_space(1000, 4096, SpaceUnit::KB), 4000);
    assert_eq!(d.get_available_space(1000, 4096, SpaceUnit::MB), 3);
    assert_eq!(d.get_available_space(1 << 20, 4096, SpaceUnit::GB), 4);
    assert_eq!(d.get_available_space(u64::MAX, u64::MAX, SpaceUnit::Bytes), u64::MAX);
    assert_eq!(d.get_available_space(u64::MAX, 1 << 30, SpaceUnit::GB), u64::MAX);
    assert_eq!(d.get_directory_size(&vec![]), 0);
    assert_eq!(d.get_directory_size(&vec![1, 2, 3]), 6);
    assert_eq!(d.get_directory_size(&vec![u64::MAX, 1]), u64::MAX);
}

#[test]
fn compiler_cache() {
    assert_eq!(BuildCache::detect_cache_type(true, true), CacheType::Sccache);
    assert_eq!(BuildCache::detect_cache_type(false, true), CacheType::Ccache);
    assert_eq!(BuildCache::detect_cache_type(false, false), CacheType::Absent);
    let c = BuildCache::new("/b", false, true);
    assert_eq!(c.cache_dir, "/b/cache");
    assert!(c.init());
    let env: Vec<(&str, &str)> = c.get_env_vars().iter().map(|(k, v)| (k.as_str(), v.as_str())).collect();
    assert_eq!(
        env,
        vec![
            ("CCACHE_DIR", "/b/cache"),
            ("CCACHE_MAXSIZE", "10G"),
            ("CCACHE_COMPRESS", "1"),
            ("CCACHE_COMPRESSLEVEL", "6"),
            ("CC", "ccache gcc"),
            ("CXX", "ccache g++"),
            ("CCACHE_STATS", "1"),
        ]
    );
    let s = BuildCache::new("/b", true, false);
    assert_eq!(s.get_env_vars().len(), 5);
    assert_eq!(s.get_env_vars()[1], ("SCCACHE_CACHE_SIZE".to_string(), "10G".to_string()));
    let n = BuildCache::new("/b", false, false);
    assert!(n.get_env_vars().is_empty() && !n.init());
    assert_eq!(extract_number("cache hit (direct)     123"), Some(123));
    assert_eq!(extract_number("files in cache 7 of 9 max"), Some(9));
    assert_eq!(extract_number("cache size 1.2 GB"), None);
    assert_eq!(extract_number(""), None);
}

#[test]
fn pressure_levels() {
    let t = AdaptiveThresholds { low: 700, medium: 800, high: 900, critical: 950 };
    assert_eq!(pressure_of(0, 1000, &t), MemoryPressure::Normal);
    assert_eq!(pressure_of(699, 1000, &t), MemoryPressure::Normal);
    assert_eq!(pressure_of(700, 1000, &t), MemoryPressure::Low);
    assert_eq!(pressure_of(799, 1000, &t), MemoryPressure::Low);
    assert_eq!(pressure_of(800, 1000, &t), MemoryPressure::Medium);
    assert_eq!(pressure_of(900, 1000, &t), MemoryPressure::High);
    assert_eq!(pressure_of(949, 1000, &t), MemoryPressure::High);
    assert_eq!(pressure_of(950, 1000, &t), MemoryPressure::Critical);
    assert_eq!(pressure_of(0, 0, &t), MemoryPressure::Normal);
    assert_eq!(pressure_of(1, 0, &t), MemoryPressure::Critical);
    assert!(reaches(7, 10, 700));
    assert!(!reaches(6, 10, 700));
    assert_eq!(pressure_of(u64::MAX, u64::MAX, &t), MemoryPressure::Critical);
}

#[test]
fn monitor_follows_the_readings() {
    let mut m = MemoryMonitor::new(MonitorConfig::default_config());
    assert_eq!(m.get_pressure_level(), MemoryPressure::Normal);
    assert!(m.start_monitoring());
    assert!(!m.start_monitoring());
    assert!(!m.evaluate_pressure(reading(100, 1000)));
    assert!(m.evaluate_pressure(reading(910, 1000)));
    assert_eq!(m.get_pressure_level(), MemoryPressure::High);
    assert_eq!(m.handle_pressure_changes(), PressureResponse::Cleanup);
    assert!(!m.evaluate_pressure(reading(920, 1000)));
    assert!(m.evaluate_pressure(reading(960, 1000)));
    assert_eq!(m.handle_pressure_changes(), PressureResponse::Emergency);
    assert_eq!(m.get_memory_info().used_mb, 960);
    assert_eq!(m.pressure_history.len(), 4);
    m.stop_monitoring();
    assert!(!m.monitoring_active);
    let quiet = MonitorConfig { emergency_actions: false, ..MonitorConfig::default_config() };
    let mut q = MemoryMonitor::new(quiet);
    q.evaluate_pressure(reading(999, 1000));
    assert_eq!(q.handle_pressure_changes(), PressureResponse::Nothing);
}

#[test]
fn high_mark_adapts_to_lasting_pressure() {
    let mut m = MemoryMonitor::new(MonitorConfig::default_config());
    for _ in 0..11 {
        m.evaluate_pressure(reading(910, 1000));
        assert_eq!(m.thresholds.high, 900);
    }
    m.evaluate_pressure(reading(910, 1000));
    assert_eq!(m.thresholds.high, 890);
    assert_eq!(m.pressure_history.len(), 12);
    for _ in 0..20 {
        m.evaluate_pressure(reading(940, 1000));
    }
    assert_eq!(m.thresholds.high, 800);
    assert_eq!(m.pressure_history.len(), 12);
    m.evaluate_pressure(reading(100, 1000));
    assert_eq!(m.thresholds.high, 800);
    assert_eq!(m.thresholds.low, 700);
}

#[test]
fn allocation_and_cleanup_cooldown() {
    let mut m = MemoryMonitor::new(MonitorConfig::default_config());
    m.evaluate_pressure(reading(5000, 10000));
    assert!(m.can_allocate_memory(3999));
    assert!(!m.can_allocate_memory(4000));
    assert!(!m.can_allocate_memory(5000));
    assert!(m.request_emergency_cleanup(100));
    assert!(!m.request_emergency_cleanup(129));
    assert_eq!(m.last_gc_trigger, Some(100));
    assert!(m.request_emergency_cleanup(130));
    assert_eq!(m.last_gc_trigger, Some(130));
    assert!(!m.request_emergency_cleanup(5));
}

#[test]
fn memory_figures() {
    let line: Vec<char> = "Cached:         8123456 kB".chars().collect();
    assert_eq!(extract_kb_value(&line), Some(8123456));
    let other: Vec<char> = "Cached:".chars().collect();
    assert_eq!(extract_kb_value(&other), None);
    let i = MemoryInfo::from_kilobytes(16 * 1024 * 1024, 4 * 1024 * 1024, 2048, 1024, 3000, 500, 77);
    assert_eq!((i.total_mb, i.available_mb, i.used_mb), (16384, 4096, 12288));
    assert_eq!((i.swap_total_mb, i.swap_used_mb, i.cached_mb, i.buffers_mb, i.timestamp), (2, 1, 2, 0, 77));
    assert_eq!(MemoryInfo::from_kilobytes(1, 2, 1, 2, 0, 0, 0).used_mb, 0);
}

#[test]
fn tuning() {
    assert_eq!(estimate_base_memory(10), 2500);
    assert_eq!(estimate_base_memory(13), 3500);
    assert_eq!(estimate_base_memory(15), 4000);
    assert_eq!(estimate_base_memory(9), 3000);
    assert_eq!(optimize_make_args(8), vec!["-j8", "-l10", "-s"]);
    assert_eq!(calculate_config_similarity("abcd", "abxd"), (3, 4));
    assert_eq!(calculate_config_similarity("abcd", "ab"), (2, 2));
    assert_eq!(calculate_config_similarity("", "ab"), (0, 0));
    assert_eq!(
        get_recommendations(4096, 2, DiskType::Hdd, 13),
        vec![
            "Low memory detected - consider using --preset minimal",
            "Limited CPU cores - single build recommended",
            "HDD storage detected - builds will be I/O bound",
            "Modern GCC version - all optimizations available",
        ]
    );
    assert_eq!(
        get_recommendations(8192, 8, DiskType::Unknown, 12),
        vec!["Unknown storage type - performance may vary"]
    );
    assert_eq!(get_recommendations(65536, 16, DiskType::NvMe, 10).len(), 2);
}
