use gcc_builder::build_state::BuildPhase;
use gcc_builder::cli::Args;
use gcc_builder::commands::{
    check_download, command_line, command_result, execute_parallel, CommandExecutor,
};
use gcc_builder::config::{BuildConfig, LibraryDirs};
use gcc_builder::dependencies::{
    check_build_tools, install_arguments, install_dependencies, installation_result,
    missing_packages, required_packages, required_tools, update_result, InstallPlan,
};
use gcc_builder::environment::{
    ccache_settings, get_build_env, pkg_config_dirs, setup_path, setup_pkg_config_path,
};
use gcc_builder::error::{kind_name, BuildError, BuildStatus, ErrorKind};
use gcc_builder::layout::{
    artifact_cache_dir, build_root, layout_of, prereq_cache_dir, relative_path, state_dir,
    version_cache_file,
};
use gcc_builder::packages::check_packages_installed;
use gcc_builder::pipeline::{
    after_make, after_post_install_step, already_installed_outcome, build_outcome,
    cache_hit_outcome, cancelled_outcome, compile_result, configure_result, continues_after_phase,
    group_bounds, install_result, load_phase, make_jobs_argument, make_report, outcome_status,
    phases_to_run, post_install_error, run_exit_code, runs_in_dry_run, step_name, BuildOutcome,
    CompileStep, StepFollowUp,
};
use gcc_builder::post_install::PostInstallStep;
use gcc_builder::retry::is_oom_report;
use gcc_builder::version::GccVersion;
use gcc_builder::prerequisites::{
    after_download_attempt, construct_download_url, download_failure, fetch_arguments,
    parse_prerequisites, requirements_from, text_less, AttemptFollowUp, DownloadClaim,
    PrerequisiteCache, PrerequisiteInfo,
};
use gcc_builder::scheduler::BuildPhase as LoadPhase;
use gcc_builder::strmap::StrMap;
use gcc_builder::suggestions::{
    display_suggestions, get_suggestions, SuggestionEngine, SuggestionSeverity,
};
use gcc_builder::summary::{format_duration, path_export_line, print_status, BuildSummary};

fn strs(v: &[&str]) -> Vec<String> {
    v.iter().map(|s| s.to_string()).collect()
}

#[test]
fn durations() {
    assert_eq!(format_duration(0), "00:00:00");
    assert_eq!(format_duration(59), "00:00:59");
    assert_eq!(format_duration(3661), "01:01:01");
    assert_eq!(format_duration(86399), "23:59:59");
    assert_eq!(format_duration(360000), "100:00:00");
    assert_eq!(
        print_status("GCC", "13.2.0", "DOWNLOAD_START"),
        "STATUS: Package: GCC, Version: 13.2.0, Stage: DOWNLOAD_START"
    );
}

#[test]
fn summary_of_a_run() {
    let mut s = BuildSummary::new();
    assert_eq!(s.total_builds(), 0);
    assert_eq!(s.success_rate(), 0);
    assert_eq!(s.exit_code(), 0);
    s.add_success("13.2.0".to_string());
    s.add_skipped("14.2.0".to_string(), "cache_hit".to_string());
    assert_eq!(s.exit_code(), 0);
    s.add_failure("12.4.0".to_string(), "ChecksumMismatch".to_string());
    assert_eq!(s.total_builds(), 3);
    assert_eq!(s.success_rate(), 333);
    assert_eq!(s.exit_code(), 1);
    assert_eq!(
        s.print_summary(),
        vec![
            "GCC 13.2.0 - SUCCESS",
            "GCC 12.4.0 - FAILED: ChecksumMismatch",
            "GCC 14.2.0 - SKIPPED: cache_hit",
        ]
    );
    assert_eq!(
        path_export_line("/usr/local/programs/gcc-13.2.0"),
        "export PATH=\"/usr/local/programs/gcc-13.2.0/bin:$PATH\""
    );
}

#[test]
fn recording_results() {
    let mut s = BuildSummary::new();
    s.record("13.2.0".to_string(), BuildStatus::Success);
    s.record("12.4.0".to_string(), BuildStatus::DryRun);
    s.record("11.5.0".to_string(), BuildStatus::Failed("boom".to_string()));
    s.record("10.5.0".to_string(), BuildStatus::Skipped("cache_hit".to_string()));
    s.record("15.2.0".to_string(), BuildStatus::Building);
    assert_eq!(s.successful, vec!["13.2.0"]);
    assert_eq!(s.failed, vec![("11.5.0".to_string(), "boom".to_string())]);
    assert_eq!(
        s.skipped,
        vec![
            ("12.4.0".to_string(), "Dry run".to_string()),
            ("10.5.0".to_string(), "cache_hit".to_string())
        ]
    );
    let mut all = BuildSummary::new();
    all.add_success("a".to_string());
    assert_eq!(all.success_rate(), 1000);
}

#[test]
fn search_paths() {
    assert_eq!(setup_path("/w", "/usr/bin:/bin"), "/usr/lib/ccache:/w/bin:/usr/bin:/bin");
    assert_eq!(setup_path("/w/", ""), "/usr/lib/ccache:/w/bin:");
    assert_eq!(pkg_config_dirs("aarch64-linux-gnu").len(), 11);
    assert_eq!(pkg_config_dirs("aarch64-linux-gnu")[10], "/usr/lib/aarch64-linux-gnu/pkgconfig");
    assert_eq!(pkg_config_dirs("x86_64-linux-gnu").len(), 14);
    let p = setup_pkg_config_path("riscv64-linux-gnu", "");
    assert!(p.starts_with("/usr/local/lib/pkgconfig:/usr/local/lib64/pkgconfig:"));
    assert!(p.ends_with(":/usr/lib/riscv64-linux-gnu/pkgconfig"));
    let q = setup_pkg_config_path("riscv64-linux-gnu", "/mine");
    assert_eq!(q, format!("{}:/mine", p));
    assert_eq!(
        ccache_settings(),
        vec![
            ("CCACHE_MAXSIZE".to_string(), "10G".to_string()),
            ("CCACHE_COMPRESS".to_string(), "1".to_string())
        ]
    );
}

#[test]
fn environment_of_a_build() {
    let args = Args {
        versions: None,
        debug: false,
        dry_run: false,
        enable_multilib: false,
        static_build: true,
        generic: true,
        keep_build_dir: false,
        log_file: None,
        optimization: "2".to_string(),
        prefix: None,
        save: false,
        verbose: false,
        parallel: 1,
    };
    let c = BuildConfig::from_args(&args, "/b".to_string(), "x86_64-linux-gnu".to_string());
    let dirs = LibraryDirs { arch_lib: false, lib64: false, lib: false };
    let env = get_build_env(&c, dirs, Some("/usr/bin"), None);
    let names: Vec<&str> = env.iter().map(|(k, _)| k.as_str()).collect();
    assert_eq!(names, vec!["CC", "CXX", "CFLAGS", "CXXFLAGS", "CPPFLAGS", "LDFLAGS", "PATH"]);
    assert_eq!(env[2].1, "-O2 -pipe -fstack-protector-strong");
    assert_eq!(env[5].1, "-static -Wl,-z,relro -Wl,-z,now");
    assert_eq!(env[6].1, "/usr/bin");
    assert_eq!(get_build_env(&c, dirs, None, Some("/p")).last().unwrap().0, "PKG_CONFIG_PATH");
    assert_eq!(get_build_env(&c, dirs, None, None).len(), 6);
}

#[test]
fn phases_of_a_build() {
    assert!(phases_to_run(true, false, None).is_empty());
    assert!(phases_to_run(true, false, Some(BuildPhase::Compile)).is_empty());
    assert_eq!(phases_to_run(false, false, None), BuildPhase::all_phases());
    assert_eq!(phases_to_run(true, true, None), BuildPhase::all_phases());
    assert_eq!(
        phases_to_run(false, false, Some(BuildPhase::Install)),
        vec![BuildPhase::Install, BuildPhase::PostInstall]
    );
    assert_eq!(load_phase(BuildPhase::Compile), Some(LoadPhase::Compile));
    assert_eq!(load_phase(BuildPhase::Configure), Some(LoadPhase::Configure));
    assert_eq!(load_phase(BuildPhase::Download), None);
    assert!(matches!(cache_hit_outcome(), BuildOutcome::Skipped(r) if r == "cache_hit"));
    assert!(matches!(
        cancelled_outcome(),
        BuildOutcome::Failed(ErrorKind::Cancelled, r) if r == "cancelled"
    ));
    assert!(continues_after_phase(false) && !continues_after_phase(true));
}

#[test]
fn after_make_has_run() {
    assert_eq!(after_make(true, false, false), CompileStep::Done);
    assert_eq!(after_make(false, false, false), CompileStep::RetrySerial);
    assert_eq!(after_make(false, false, true), CompileStep::Failed);
    assert_eq!(after_make(false, true, false), CompileStep::OutOfMemory);
    assert_eq!(after_make(false, true, true), CompileStep::OutOfMemory);
    assert_eq!(make_jobs_argument(13), "-j13");
}

#[test]
fn exit_codes_and_groups() {
    assert_eq!(run_exit_code(None, 0), 0);
    assert_eq!(run_exit_code(None, 2), 1);
    assert_eq!(run_exit_code(Some(ErrorKind::SystemRequirements), 0), 2);
    assert_eq!(run_exit_code(Some(ErrorKind::LockHeld), 0), 3);
    assert_eq!(run_exit_code(Some(ErrorKind::Usage), 0), 1);
    assert_eq!(group_bounds(0, 2), vec![]);
    assert_eq!(group_bounds(5, 2), vec![(0, 2), (2, 4), (4, 5)]);
    assert_eq!(group_bounds(4, 2), vec![(0, 2), (2, 4)]);
    assert_eq!(group_bounds(3, 10), vec![(0, 3)]);
    assert_eq!(group_bounds(3, 1), vec![(0, 1), (1, 2), (2, 3)]);
}

#[test]
fn commands() {
    let e = CommandExecutor::new(true, false);
    assert!(!e.execute());
    assert!(!e.execute_with_output("curl", &strs(&["-fsSL", "https://ftp.gnu.org/gnu/gcc/"])));
    assert!(e.execute_with_output("bash", &strs(&["-c", "curl -fsSL https://ftp.gnu.org/gnu/gcc/ | grep x"])));
    assert!(!e.execute_with_output("bash", &strs(&["-c", "ls"])));
    let real = CommandExecutor::new(false, true)
        .with_env_vars(vec![("A".to_string(), "1".to_string())])
        .with_working_dir("/w");
    assert!(real.execute() && real.execute_with_output("ls", &vec![]));
    assert_eq!(real.env_vars.len(), 1);
    assert_eq!(real.working_dir, Some("/w".to_string()));
    assert!(real.verbose && !real.dry_run);
    assert!(real.execute_with_retry(1, 2) && !real.execute_with_retry(2, 2));
    assert_eq!(command_line("make", &strs(&["-j4", "all"])), "make -j4 all");
    assert_eq!(command_line("make", &vec![]), "make ");
    let i = real.execute_as("sudo", "make", &strs(&["install-strip"]));
    assert_eq!((i.program.as_str(), i.args), ("sudo", strs(&["make", "install-strip"])));
    let i = real.execute_as("root", "ldconfig", &vec![]);
    assert_eq!((i.program.as_str(), i.args), ("sudo", strs(&["ldconfig"])));
    let i = real.execute_as("", "ls", &strs(&["-l"]));
    assert_eq!((i.program.as_str(), i.args), ("ls", strs(&["-l"])));
    let i = real.execute_as("user", "ls", &vec![]);
    assert_eq!((i.program.as_str(), i.args.len()), ("ls", 0));
    let i = real.execute_as("builder", "ls", &strs(&["-l"]));
    assert_eq!((i.program.as_str(), i.args), ("sudo", strs(&["-u", "builder", "ls", "-l"])));
    assert_eq!(
        real.download_file("http://u", "/f"),
        strs(&["--progress=bar:force:noscroll", "--timeout=60", "--continue", "--output-document", "/f", "http://u"])
    );
}

#[test]
fn results_of_commands() {
    assert!(command_result("ls", Some(0)).is_ok());
    assert!(matches!(command_result("ls", Some(2)), Err(BuildError::CommandFailed { command }) if command == "ls"));
    assert!(command_result("ls", None).is_err());
    assert!(check_download("u", Some(10_000_001)).is_ok());
    assert!(matches!(
        check_download("u", Some(10_000_000)),
        Err(BuildError::Download { message, .. }) if message == "Downloaded file too small"
    ));
    assert!(matches!(
        check_download("u", None),
        Err(BuildError::Download { message, .. }) if message == "Downloaded file is missing"
    ));
    assert!(execute_parallel(&vec![]).is_ok());
    assert!(execute_parallel(&vec![true, true]).is_ok());
    assert!(execute_parallel(&vec![true, false]).is_err());
}

#[test]
fn tools_and_packages() {
    assert_eq!(required_tools(), vec!["gcc", "g++", "make", "tar", "wget", "curl"]);
    assert!(check_build_tools(&vec![true; 6]).is_ok());
    match check_build_tools(&vec![true, true, false, true, false, true]) {
        Err(BuildError::MissingDependency { package }) => assert_eq!(package, "make"),
        other => panic!("{:?}", other),
    }
    assert_eq!(required_packages(false, "x86_64-linux-gnu").len(), 19);
    assert_eq!(required_packages(true, "aarch64-linux-gnu").len(), 19);
    let with = required_packages(true, "x86_64-linux-gnu");
    assert_eq!(with.len(), 20);
    assert_eq!(with[19], "libc6-dev-i386");
    assert_eq!(with[0], "build-essential");
    let db = "flex\tinstall ok installed\nbison\tdeinstall ok config-files\nm4\tinstall ok installed\n";
    assert_eq!(missing_packages(&strs(&["flex", "bison", "m4", "gawk"]), db), vec!["bison", "gawk"]);
    assert_eq!(missing_packages(&strs(&["fle", "m"]), db), vec!["fle", "m"]);
    assert_eq!(
        install_arguments(&strs(&["bison", "gawk"])),
        vec!["install", "-y", "--no-install-recommends", "bison", "gawk"]
    );
    assert_eq!(install_dependencies(0, false), InstallPlan::NothingMissing);
    assert_eq!(install_dependencies(2, true), InstallPlan::DryRun);
    assert_eq!(install_dependencies(2, false), InstallPlan::Install);
    let out = "flex install ok installed\nbison deinstall ok config-files\nflexible install ok installed\n";
    let st = check_packages_installed(&strs(&["flex", "bison", "gawk", "flexible"]), out);
    assert_eq!(st.installed, vec!["flex", "flexible"]);
    assert_eq!(st.missing, vec!["bison", "gawk"]);
}

#[test]
fn libraries_from_the_build_script() {
    let script = "# versions\nGMP=gmp-6.2.1\nMPFR=mpfr-4.1.0\nMPC=mpc-1.2.1\nISL=isl-0.24.1\nGMP=gmp-9.9.9\n";
    let r = parse_prerequisites(script);
    let got: Vec<(&str, &str, &str)> =
        r.iter().map(|q| (q.name.as_str(), q.version.as_str(), q.url.as_str())).collect();
    assert_eq!(
        got,
        vec![
            ("gmp", "6.2.1", "https://ftp.gnu.org/gnu/gmp/gmp-6.2.1.tar.xz"),
            ("mpfr", "4.1.0", "https://ftp.gnu.org/gnu/mpfr/mpfr-4.1.0.tar.xz"),
            ("mpc", "1.2.1", "https://ftp.gnu.org/gnu/mpc/mpc-1.2.1.tar.gz"),
            ("isl", "0.24.1", "https://libisl.sourceforge.io/isl-0.24.1.tar.xz"),
        ]
    );
    let only = parse_prerequisites("x\nMPC=mpc-1.3.1 \n");
    assert_eq!(only.len(), 1);
    assert_eq!(only[0].version, "1.3.1");
    let fallback = parse_prerequisites("nothing here, ISL=isl-0.24\n");
    let names: Vec<&str> = fallback.iter().map(|q| q.name.as_str()).collect();
    assert_eq!(names, vec!["gmp", "mpfr", "mpc"]);
    assert_eq!(fallback[1].version, "4.1.0");
    assert_eq!(requirements_from(None, None, None, Some("0.26".to_string())).len(), 1);
    assert_eq!(construct_download_url("zstd", "1.5"), "https://ftp.gnu.org/gnu/zstd/zstd-1.5.tar.xz");
    let c = PrerequisiteCache::new("/c".to_string());
    assert!(c.get_prerequisites("/s/contrib/download_prerequisites", None).is_err());
    assert_eq!(c.get_prerequisites("/s/contrib/download_prerequisites", Some(script)).unwrap().len(), 4);
}

fn info(name: &str, version: &str) -> PrerequisiteInfo {
    PrerequisiteInfo {
        name: name.to_string(),
        version: version.to_string(),
        tarball_path: String::new(),
        extracted_path: String::new(),
        checksum: String::new(),
        download_url: String::new(),
        size_bytes: 2_500_000,
    }
}

#[test]
fn shared_downloads_of_libraries() {
    let mut c = PrerequisiteCache::new("/c".to_string());
    assert!(!c.is_cached("gmp", "6.2.1"));
    assert_eq!(c.begin_download("gmp"), DownloadClaim::Proceed);
    assert_eq!(c.begin_download("gmp"), DownloadClaim::Wait);
    assert_eq!(c.begin_download("mpfr"), DownloadClaim::Proceed);
    c.finish_download("gmp", Some(info("gmp", "6.2.1")));
    assert!(c.is_cached("gmp", "6.2.1"));
    assert!(!c.is_cached("gmp", "6.2.0"));
    assert_eq!(c.begin_download("mpfr"), DownloadClaim::Wait);
    assert_eq!(c.begin_download("gmp"), DownloadClaim::Proceed);
    c.finish_download("gmp", None);
    c.finish_download("mpfr", None);
    assert!(c.state.downloads_in_progress.is_empty());
    assert_eq!(c.state.prerequisites.len(), 1);
    assert_eq!(c.extracted_path("gmp", "6.2.1"), "/c/gmp-6.2.1");
    assert_eq!(PrerequisiteCache::link_path("/s/gcc-13.2.0", "gmp"), "/s/gcc-13.2.0/gmp");
    assert_eq!(c.get_stats().total_prerequisites, 1);
    assert_eq!(c.get_stats().total_size_mb, 2);
}

#[test]
fn only_the_latest_versions_of_a_library_stay() {
    let mut c = PrerequisiteCache::new("/c".to_string());
    for (n, v) in [("gmp", "6.1.0"), ("mpc", "1.2.1"), ("gmp", "6.3.0"), ("gmp", "6.2.1"), ("gmp", "6.2.0"), ("gmp", "6.3.0")] {
        c.finish_download(n, Some(info(n, v)));
    }
    assert_eq!(c.cleanup_old(3), vec![false, true, true, true, false, true]);
    assert_eq!(c.cleanup_old(1), vec![false, true, true, false, false, false]);
    assert_eq!(c.cleanup_old(0), vec![false; 6]);
    assert_eq!(c.cleanup_old(10), vec![true; 6]);
    for (a, b) in [("6.2.1", "6.3.0"), ("6.10.0", "6.9.0"), ("a", "ab"), ("", "a"), ("b", "a"), ("a", "a"), ("é", "z")] {
        assert_eq!(text_less(a, b), a < b, "{:?} {:?}", a, b);
    }
}

#[test]
fn advice_for_failures() {
    let e = SuggestionEngine::new();
    assert_eq!(e.patterns.len(), 10);
    assert_eq!(e.patterns[3].name, "out_of_memory");
    let oom = e.analyze_text("cc1plus: out of memory allocating 65536 bytes");
    let titles: Vec<&str> = oom.iter().map(|s| s.title.as_str()).collect();
    assert_eq!(titles, vec!["Reduce parallel jobs", "Add swap space"]);
    assert_eq!(oom[0].severity, SuggestionSeverity::Error);
    assert_eq!(oom[1].commands.len(), 5);
    let two = e.analyze_text("configure: error: libgmp not found; No space left on device");
    let titles: Vec<&str> = two.iter().map(|s| s.title.as_str()).collect();
    assert_eq!(titles, vec!["Install GMP development package", "Free up disk space", "Check configure log"]);
    let none = e.analyze_text("something else entirely");
    assert_eq!(none.len(), 1);
    assert_eq!(none[0].title, "Check build logs");
    assert_eq!(none[0].severity, SuggestionSeverity::Info);
    let by_error = get_suggestions(&BuildError::Io { message: "Permission Denied".to_string() });
    assert_eq!(by_error[0].title, "Check directory permissions");
}

#[test]
fn advice_as_shown() {
    assert_eq!(SuggestionEngine::format_suggestions(&vec![]), "");
    let e = SuggestionEngine::new();
    let text = SuggestionEngine::format_suggestions(&e.analyze_text("ENOSPC"));
    let rule = "-".repeat(50);
    let expected = format!(
        "\nSuggestions to resolve this issue:\n{}\n\n[critical] 1. Free up disk space\n   The build requires significant disk space (25GB+ per version)\n\n   Commands:\n   # Check disk usage:\n   df -h\n   # Clean build directory:\n   rm -rf /tmp/gcc-build-*\n   # Use different build directory:\n   ./gcc-builder --build-dir /path/with/space ...\n{}",
        rule, rule
    );
    assert_eq!(text, expected);
    let shown = display_suggestions(&BuildError::Make {
        version: "13.2.0".to_string(),
        message: "virtual memory exhausted".to_string(),
    });
    assert!(shown.contains("[error] 1. Reduce parallel jobs\n"));
    assert!(shown.contains("[warning] 2. Add swap space\n"));
}

#[test]
fn maps_keyed_by_text() {
    let mut m: StrMap<u32> = StrMap::new();
    assert_eq!(m.len(), 0);
    assert_eq!(m.get("a"), None);
    m.insert("a".to_string(), 1);
    m.insert("b".to_string(), 2);
    m.insert("a".to_string(), 3);
    assert_eq!(m.len(), 2);
    assert_eq!(m.get("a"), Some(&3));
    assert_eq!(m.position("b"), Some(1));
    assert!(m.contains_key("b") && !m.contains_key("c"));
    m.set_value(1, 20);
    assert_eq!(m.get("b"), Some(&20));
    assert_eq!(m.remove("a"), Some(3));
    assert_eq!(m.remove("a"), None);
    assert_eq!(m.len(), 1);
    assert_eq!(m.remove_at(0), ("b".to_string(), 20));
    m.insert("z".to_string(), 0);
    m.clear();
    assert_eq!(m.len(), 0);
}

#[test]
fn how_make_ended() {
    assert_eq!(make_report(Some(2), None), "make left with status 2");
    assert_eq!(make_report(Some(0), None), "make left with status 0");
    assert_eq!(make_report(Some(-1), None), "make left with status -1");
    assert_eq!(make_report(Some(i32::MIN), None), "make left with status -2147483648");
    assert_eq!(make_report(None, Some(9)), "make was ended by signal 9");
    assert_eq!(make_report(Some(1), Some(15)), "make was ended by signal 15");
    assert_eq!(make_report(None, None), "make left without a status");
}

#[test]
fn what_the_compile_phase_comes_to() {
    let v = GccVersion::new(13, 2, 0).unwrap();
    assert!(matches!(compile_result(&v, true, false, false, "r"), Ok(CompileStep::Done)));
    assert!(matches!(compile_result(&v, true, true, true, "r"), Ok(CompileStep::Done)));
    assert!(matches!(compile_result(&v, false, false, false, "r"), Ok(CompileStep::RetrySerial)));
    match compile_result(&v, false, false, true, "make left with status 2") {
        Err(BuildError::Make { version, message }) => {
            assert_eq!(version, "13.2.0");
            assert_eq!(message, "make left with status 2");
        }
        other => panic!("{:?}", other),
    }
    match compile_result(&v, false, true, false, "make was ended by signal 9") {
        Err(e @ BuildError::OutOfMemory { .. }) => {
            assert_eq!(e.kind(), ErrorKind::OutOfMemory);
            assert_eq!(
                e.message(),
                "Out of memory while building GCC 13.2.0: make was ended by signal 9"
            );
        }
        other => panic!("{:?}", other),
    }
    // a report of a killed run tells of a lack of memory; a plain failure does not
    assert!(is_oom_report(&make_report(None, Some(9))));
    assert!(is_oom_report("cc1plus: out of memory allocating 65536 bytes"));
    assert!(is_oom_report("Virtual Memory Exhausted: Cannot allocate memory"));
    assert!(!is_oom_report(&make_report(Some(2), None)));
}

#[test]
fn what_configure_and_install_come_to() {
    let v = GccVersion::new(14, 2, 0).unwrap();
    assert!(configure_result(&v, true, "/b/gcc-14.2.0/build-gcc").is_ok());
    match configure_result(&v, false, "/b/gcc-14.2.0/build-gcc") {
        Err(e @ BuildError::Configure { .. }) => {
            assert_eq!(e.kind(), ErrorKind::Configure);
            assert_eq!(
                e.message(),
                "Configure failed for GCC 14.2.0: Configure failed. Check /b/gcc-14.2.0/build-gcc/config.log for details (see output above)"
            );
        }
        other => panic!("{:?}", other),
    }
    assert!(install_result(&v, true, "").is_ok());
    match install_result(&v, false, "make: *** [install] Error 1") {
        Err(BuildError::Install { version, message }) => {
            assert_eq!(version, "14.2.0");
            assert_eq!(message, "make: *** [install] Error 1");
        }
        other => panic!("{:?}", other),
    }
}

#[test]
fn failed_steps_after_the_installation() {
    for step in [
        PostInstallStep::LibtoolFinish,
        PostInstallStep::TrimBinaries,
        PostInstallStep::SaveStaticBinaries,
    ] {
        assert_eq!(after_post_install_step(step, false, 0), StepFollowUp::Proceed);
        assert_eq!(after_post_install_step(step, false, 5), StepFollowUp::Proceed);
        assert_eq!(after_post_install_step(step, true, 0), StepFollowUp::Proceed);
    }
    for step in [PostInstallStep::Symlinks, PostInstallStep::Ldconfig] {
        assert_eq!(after_post_install_step(step, true, 0), StepFollowUp::Proceed);
        assert_eq!(after_post_install_step(step, true, 1), StepFollowUp::Proceed);
        assert_eq!(after_post_install_step(step, false, 0), StepFollowUp::Again);
        assert_eq!(after_post_install_step(step, false, 1), StepFollowUp::Fail);
        assert_eq!(after_post_install_step(step, false, 2), StepFollowUp::Fail);
    }
    assert_eq!(step_name(PostInstallStep::Ldconfig), "ldconfig");
    assert_eq!(step_name(PostInstallStep::SaveStaticBinaries), "save static binaries");
    match post_install_error(PostInstallStep::Symlinks, "sudo failed") {
        e @ BuildError::PostInstall { .. } => {
            assert_eq!(e.kind(), ErrorKind::PostInstall);
            assert_eq!(e.message(), "Post-install task failed: symlinks: sudo failed");
        }
        other => panic!("{:?}", other),
    }
}

#[test]
fn installing_packages_that_fail() {
    assert!(update_result(true).is_ok());
    match update_result(false) {
        Err(e @ BuildError::DependencyInstall { .. }) => {
            assert_eq!(e.kind(), ErrorKind::SystemRequirements);
            assert_eq!(
                e.message(),
                "Failed to install dependencies: Failed to update package lists (apt-get update)"
            );
        }
        other => panic!("{:?}", other),
    }
    let missing = vec!["flex".to_string(), "bison".to_string()];
    assert!(installation_result(true, &missing, "x").is_ok());
    match installation_result(false, &missing, "E: Unable to locate package") {
        Err(BuildError::DependencyInstall { message }) => assert_eq!(
            message,
            "Failed to install packages: flex, bison. Error: E: Unable to locate package"
        ),
        other => panic!("{:?}", other),
    }
}

#[test]
fn prerequisites_by_name_and_size() {
    let mut c = PrerequisiteCache::new("/cache".to_string());
    assert_eq!(c.get_stats().unique_versions, 0);
    assert_eq!(c.get_stats().total_size_mb, 0);
    let held = |name: &str, version: &str, size: u64| PrerequisiteInfo {
        name: name.to_string(),
        version: version.to_string(),
        tarball_path: format!("/cache/{}-{}.tar.xz", name, version),
        extracted_path: format!("/cache/{}-{}", name, version),
        checksum: "c".to_string(),
        download_url: "u".to_string(),
        size_bytes: size,
    };
    c.state.prerequisites.push(held("gmp", "6.2.1", 1_500_000));
    c.state.prerequisites.push(held("mpfr", "4.1.0", 700_000));
    c.state.prerequisites.push(held("gmp", "6.3.0", 900_000));
    let stats = c.get_stats();
    assert_eq!(stats.total_prerequisites, 3);
    assert_eq!(stats.unique_versions, 2);
    assert_eq!(stats.total_size_mb, 3);
    assert!(!c.name_seen_before(0));
    assert!(!c.name_seen_before(1));
    assert!(c.name_seen_before(2));
    c.state.prerequisites.push(held("mpc", "1.2.1", u64::MAX));
    c.state.prerequisites.push(held("isl", "0.24", u64::MAX));
    let big = c.get_stats();
    assert_eq!(big.unique_versions, 4);
    assert_eq!(big.total_size_mb, ((2 * (u64::MAX as u128) + 3_100_000) / 1_000_000) as u64);
}

#[test]
fn outcomes_of_builds() {
    assert!(matches!(build_outcome(false, None), BuildOutcome::Success));
    match build_outcome(true, None) {
        BuildOutcome::Skipped(reason) => assert_eq!(reason, "Dry run"),
        other => panic!("{:?}", other),
    }
    let e = BuildError::ChecksumMismatch {
        file: "f".to_string(),
        expected: "a".to_string(),
        actual: "b".to_string(),
    };
    for dry_run in [false, true] {
        match build_outcome(dry_run, Some(&e)) {
            BuildOutcome::Failed(kind, text) => {
                assert_eq!(kind, ErrorKind::ChecksumMismatch);
                assert_eq!(text, "Checksum verification failed for f: expected a, got b");
            }
            other => panic!("{:?}", other),
        }
    }
    match already_installed_outcome() {
        BuildOutcome::Skipped(reason) => assert_eq!(reason, "already installed"),
        other => panic!("{:?}", other),
    }
    for phase in BuildPhase::all_phases() {
        assert_eq!(runs_in_dry_run(phase), phase == BuildPhase::Download);
    }
}

#[test]
fn outcomes_in_the_report() {
    assert_eq!(outcome_status(BuildOutcome::Success).text(), "SUCCESS");
    assert_eq!(outcome_status(cache_hit_outcome()).text(), "SKIPPED: cache_hit");
    assert_eq!(
        outcome_status(BuildOutcome::Failed(ErrorKind::ChecksumMismatch, "no match".to_string())).text(),
        "FAILED: ChecksumMismatch: no match"
    );
    assert_eq!(outcome_status(cancelled_outcome()).text(), "FAILED: Cancelled: cancelled");
    let mut s = BuildSummary::new();
    s.record("14.2.0".to_string(), outcome_status(cache_hit_outcome()));
    s.record("13.2.0".to_string(), outcome_status(BuildOutcome::Success));
    s.record(
        "12.3.0".to_string(),
        outcome_status(BuildOutcome::Failed(ErrorKind::OutOfMemory, "killed".to_string())),
    );
    assert_eq!(
        s.print_summary(),
        vec![
            "GCC 13.2.0 - SUCCESS",
            "GCC 12.3.0 - FAILED: OutOfMemory: killed",
            "GCC 14.2.0 - SKIPPED: cache_hit"
        ]
    );
    let names: Vec<&str> = [
        ErrorKind::SystemRequirements,
        ErrorKind::Download,
        ErrorKind::ChecksumMismatch,
        ErrorKind::Extraction,
        ErrorKind::Configure,
        ErrorKind::BuildFailed,
        ErrorKind::OutOfMemory,
        ErrorKind::Install,
        ErrorKind::PostInstall,
        ErrorKind::VersionLookup,
        ErrorKind::LockHeld,
        ErrorKind::Cancelled,
        ErrorKind::Usage,
        ErrorKind::Other,
    ]
    .iter()
    .map(|k| kind_name(*k))
    .collect();
    assert_eq!(
        names,
        vec![
            "SystemRequirements", "Download", "ChecksumMismatch", "Extraction", "Configure",
            "BuildFailed", "OutOfMemory", "Install", "PostInstall", "VersionLookup", "LockHeld",
            "Cancelled", "Usage", "Other"
        ]
    );
}

#[test]
fn places_of_a_build() {
    let args = Args {
        versions: None,
        debug: false,
        dry_run: false,
        enable_multilib: false,
        static_build: false,
        generic: false,
        keep_build_dir: false,
        log_file: None,
        optimization: "2".to_string(),
        prefix: None,
        save: false,
        verbose: false,
        parallel: 1,
    };
    let config = BuildConfig::from_args(&args, "/tmp/b".to_string(), "x86_64-linux-gnu".to_string());
    let v = GccVersion::new(13, 2, 0).unwrap();
    let l = layout_of(&config, &v);
    assert_eq!(l.packages, "/tmp/b/packages");
    assert_eq!(l.workspace, "/tmp/b/workspace");
    assert_eq!(l.tarball, "/tmp/b/packages/gcc-13.2.0.tar.xz");
    assert_eq!(l.relative_path, "gcc-13.2.0/gcc-13.2.0.tar.xz");
    assert_eq!(l.source_dir, "/tmp/b/workspace/gcc-13.2.0");
    assert_eq!(l.build_dir, "/tmp/b/workspace/gcc-13.2.0/build-gcc");
    assert_eq!(l.install_prefix, "/usr/local/programs/gcc-13.2.0");
    assert_eq!(relative_path(&v), "gcc-13.2.0/gcc-13.2.0.tar.xz");
    assert_eq!(build_root(None), "/tmp/gcc-build-script");
    assert_eq!(build_root(Some("/srv/gcc")), "/srv/gcc");
    assert_eq!(prereq_cache_dir("/srv/gcc"), "/srv/gcc/prereq-cache");
    assert_eq!(artifact_cache_dir("/srv/gcc/"), "/srv/gcc/artifact-cache");
    assert_eq!(version_cache_file("/srv/gcc"), "/srv/gcc/.gcc_version_cache");
    assert_eq!(state_dir("/srv/gcc"), "/srv/gcc/state");
}

#[test]
fn advice_by_the_patterns_that_matched() {
    let e = SuggestionEngine::new();
    let n = e.patterns.len();
    assert_eq!(n, 10);
    let titles = |hits: &Vec<bool>| -> Vec<String> {
        e.advice_for(hits).into_iter().map(|s| s.title).collect()
    };
    let of_pattern =
        |i: usize| -> Vec<String> { e.patterns[i].suggestions.iter().map(|s| s.title.clone()).collect() };
    // no pattern matched: the generic advice
    assert_eq!(titles(&vec![false; n]), vec!["Check build logs"]);
    // one pattern matched: its advice
    for i in 0..n {
        let mut hits = vec![false; n];
        hits[i] = true;
        assert_eq!(titles(&hits), of_pattern(i));
        assert!(!of_pattern(i).is_empty());
    }
    // two matched: the advice of both, in the order of the patterns
    let mut hits = vec![false; n];
    hits[7] = true;
    hits[2] = true;
    let mut both = of_pattern(2);
    both.extend(of_pattern(7));
    assert_eq!(titles(&hits), both);
    // all matched
    let all: Vec<String> = (0..n).flat_map(|i| of_pattern(i)).collect();
    assert_eq!(titles(&vec![true; n]), all);
}

#[test]
fn only_the_latest_libraries_stay() {
    let held = |name: &str, version: &str| PrerequisiteInfo {
        name: name.to_string(),
        version: version.to_string(),
        tarball_path: format!("/cache/{}-{}.tar.xz", name, version),
        extracted_path: format!("/cache/{}-{}", name, version),
        checksum: "c".to_string(),
        download_url: "u".to_string(),
        size_bytes: 1,
    };
    let fill = || {
        let mut c = PrerequisiteCache::new("/cache".to_string());
        for (name, version) in
            [("gmp", "6.1.0"), ("gmp", "6.3.0"), ("mpfr", "4.1.0"), ("gmp", "6.2.1"), ("mpfr", "4.2.0")]
        {
            c.state.prerequisites.push(held(name, version));
        }
        c.state.downloads_in_progress.push("isl".to_string());
        c
    };
    let names = |v: &Vec<PrerequisiteInfo>| -> Vec<String> {
        v.iter().map(|p| format!("{}-{}", p.name, p.version)).collect()
    };
    let mut c = fill();
    let gone = c.retain_latest(1);
    assert_eq!(names(&c.state.prerequisites), vec!["gmp-6.3.0", "mpfr-4.2.0"]);
    assert_eq!(names(&gone), vec!["gmp-6.1.0", "mpfr-4.1.0", "gmp-6.2.1"]);
    assert_eq!(c.state.downloads_in_progress, vec!["isl"]);
    assert_eq!(c.cache_dir, "/cache");
    assert_eq!(gone[0].tarball_path, "/cache/gmp-6.1.0.tar.xz");

    let mut c = fill();
    let gone = c.retain_latest(2);
    assert_eq!(names(&c.state.prerequisites), vec!["gmp-6.3.0", "mpfr-4.1.0", "gmp-6.2.1", "mpfr-4.2.0"]);
    assert_eq!(names(&gone), vec!["gmp-6.1.0"]);

    let mut c = fill();
    assert!(c.retain_latest(3).is_empty());
    assert_eq!(c.state.prerequisites.len(), 5);

    let mut c = fill();
    assert_eq!(c.retain_latest(0).len(), 5);
    assert!(c.state.prerequisites.is_empty());
    // what the method does is what `cleanup_old` says
    let c = fill();
    assert_eq!(c.cleanup_old(1), vec![false, true, false, false, true]);
}

#[test]
fn fetching_a_library() {
    assert_eq!(after_download_attempt(1, true), AttemptFollowUp::Done);
    assert_eq!(after_download_attempt(3, true), AttemptFollowUp::Done);
    assert_eq!(after_download_attempt(1, false), AttemptFollowUp::Again { pause_secs: 5 });
    assert_eq!(after_download_attempt(2, false), AttemptFollowUp::Again { pause_secs: 5 });
    assert_eq!(after_download_attempt(3, false), AttemptFollowUp::GiveUp);
    assert_eq!(after_download_attempt(4, false), AttemptFollowUp::GiveUp);
    assert_eq!(
        fetch_arguments("/cache/gmp-6.2.1.tar.bz2", "https://gcc.gnu.org/pub/gcc/infrastructure/gmp-6.2.1.tar.bz2"),
        vec![
            "-fSL",
            "-o",
            "/cache/gmp-6.2.1.tar.bz2",
            "https://gcc.gnu.org/pub/gcc/infrastructure/gmp-6.2.1.tar.bz2"
        ]
    );
    match download_failure("https://x/y.tar.gz") {
        e @ BuildError::Download { .. } => {
            assert_eq!(e.kind(), ErrorKind::Download);
            assert_eq!(
                e.message(),
                "Failed to download https://x/y.tar.gz: prerequisite download failed: all attempts exhausted"
            );
        }
        other => panic!("{:?}", other),
    }
    let c = PrerequisiteCache::new("/cache".to_string());
    assert_eq!(c.tarball_path("https://x/infra/mpc-1.2.1.tar.gz"), "/cache/mpc-1.2.1.tar.gz");
    assert_eq!(c.tarball_path("mpc.tar.gz"), "/cache/mpc.tar.gz");
    assert_eq!(c.tarball_path("https://x/"), "/cache/");
    let info = c.downloaded("mpc", "1.2.1", "https://x/infra/mpc-1.2.1.tar.gz", "abc".to_string(), 838_279);
    assert_eq!(info.name, "mpc");
    assert_eq!(info.version, "1.2.1");
    assert_eq!(info.tarball_path, "/cache/mpc-1.2.1.tar.gz");
    assert_eq!(info.extracted_path, "/cache/mpc-1.2.1");
    assert_eq!(info.checksum, "abc");
    assert_eq!(info.download_url, "https://x/infra/mpc-1.2.1.tar.gz");
    assert_eq!(info.size_bytes, 838_279);
}
