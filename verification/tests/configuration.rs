use gcc_builder::cli::Args;
use gcc_builder::config::{BuildConfig, LibraryDirs};
use gcc_builder::gcc_config::{
    format_command, get_build_environment, get_configure_options, offload_option,
    validate_options, GccConfigGenerator,
};
use gcc_builder::error::BuildError;
use gcc_builder::options::{Args as FullArgs, BuildPreset, OptimizationLevel};
use gcc_builder::version::GccVersion;

fn args() -> Args {
    Args {
        versions: Some("13".to_string()),
        debug: false,
        dry_run: false,
        enable_multilib: false,
        static_build: false,
        generic: false,
        keep_build_dir: false,
        log_file: None,
        optimization: "3".to_string(),
        prefix: None,
        save: false,
        verbose: false,
        parallel: 1,
    }
}

fn config() -> BuildConfig {
    BuildConfig::from_args(&args(), "/tmp/b".to_string(), "x86_64-linux-gnu".to_string())
}

fn full_args() -> FullArgs {
    FullArgs {
        debug: false,
        dry_run: false,
        enable_multilib: false,
        static_build: false,
        generic: false,
        keep_build_dir: false,
        log_file: None,
        optimization: OptimizationLevel::O2,
        prefix: None,
        save_binaries: false,
        verbose: false,
        versions: Some("11,13".to_string()),
        latest: false,
        all_supported: false,
        preset: None,
        jobs: None,
        build_dir: None,
        max_retries: 3,
        download_timeout: 300,
        skip_checksum: false,
        force_rebuild: false,
    }
}

const NO_DIRS: LibraryDirs = LibraryDirs { arch_lib: false, lib64: false, lib: false };

#[test]
fn from_args_copies_the_settings() {
    let c = config();
    assert_eq!(c.workspace, "/tmp/b/workspace");
    assert_eq!(c.build_dir, "/tmp/b");
    assert_eq!(c.target_arch, "x86_64-linux-gnu");
    assert_eq!(c.optimization, "3");
    assert_eq!(c.parallel, 1);
    assert!(!c.dry_run && !c.save_binaries && !c.force_rebuild && !c.skip_checksum);
    assert_eq!(c.max_retries, 3);
}

#[test]
fn compiler_flags() {
    let mut c = config();
    assert_eq!(c.optimization_flag(), "-O3");
    assert_eq!(c.cflags(), "-O3 -pipe -fstack-protector-strong -march=native");
    assert_eq!(c.cxxflags(), c.cflags());
    assert_eq!(c.cppflags(), "-D_FORTIFY_SOURCE=2");
    c.generic = true;
    c.optimization = "fast".to_string();
    assert_eq!(c.cflags(), "-Ofast -pipe -fstack-protector-strong");
    assert_eq!(c.optimization_level(), Some(OptimizationLevel::Fast));
}

#[test]
fn linker_flags() {
    let mut c = config();
    assert_eq!(c.ldflags(NO_DIRS), "-Wl,-z,relro -Wl,-z,now");
    assert_eq!(
        c.ldflags(LibraryDirs { arch_lib: true, lib64: true, lib: true }),
        "-Wl,-z,relro -Wl,-z,now -L/usr/lib/x86_64-linux-gnu"
    );
    assert_eq!(
        c.ldflags(LibraryDirs { arch_lib: false, lib64: true, lib: true }),
        "-Wl,-z,relro -Wl,-z,now -L/usr/lib64"
    );
    assert_eq!(
        c.ldflags(LibraryDirs { arch_lib: false, lib64: false, lib: true }),
        "-Wl,-z,relro -Wl,-z,now -L/usr/lib"
    );
    c.static_build = true;
    assert_eq!(c.ldflags(NO_DIRS), "-static -Wl,-z,relro -Wl,-z,now");
    c.target_arch = "i686-linux-gnu".to_string();
    assert_eq!(
        c.ldflags(LibraryDirs { arch_lib: false, lib64: true, lib: true }),
        "-static -Wl,-z,relro -Wl,-z,now -L/usr/lib"
    );
}

#[test]
fn configure_options_for_gcc_13() {
    let v = GccVersion::new(13, 2, 0).unwrap();
    let options = get_configure_options(&v, &config());
    assert_eq!(
        options,
        vec![
            "--prefix=/usr/local/programs/gcc-13.2.0",
            "--build=x86_64-linux-gnu",
            "--host=x86_64-linux-gnu",
            "--target=x86_64-linux-gnu",
            "--enable-languages=all",
            "--disable-bootstrap",
            "--enable-checking=release",
            "--disable-nls",
            "--enable-shared",
            "--enable-threads=posix",
            "--with-system-zlib",
            "--program-suffix=-13",
            "--with-gcc-major-version-only",
            "--disable-multilib",
            "--enable-default-pie",
            "--enable-gnu-unique-object",
            "--with-link-serialization=2",
            "--enable-cet",
        ]
    );
}

#[test]
fn configure_options_depend_on_the_release_line() {
    let tail = |major: u8| -> Vec<String> {
        let v = GccVersion::new(major, 1, 0).unwrap();
        get_configure_options(&v, &config())[14..].to_vec()
    };
    assert_eq!(tail(10), vec!["--enable-default-pie", "--enable-gnu-unique-object"]);
    assert_eq!(tail(11), tail(10));
    assert_eq!(
        tail(12),
        vec!["--enable-default-pie", "--enable-gnu-unique-object", "--with-link-serialization=2"]
    );
    assert_eq!(tail(14), tail(13));
    assert_eq!(tail(15), tail(13));
    assert_eq!(tail(13).len(), 4);
}

#[test]
fn configure_options_with_multilib_tuning_prefix_and_cuda() {
    let mut c = config();
    c.enable_multilib = true;
    c.generic = true;
    c.prefix = Some("/opt/compilers".to_string());
    let v = GccVersion::new(10, 5, 0).unwrap();
    let g = GccConfigGenerator::with_cuda(Some(" /usr/local/cuda/bin/nvcc\n"));
    let options = g.get_gcc_configure_options(&v, &c);
    assert_eq!(options[0], "--prefix=/opt/compilers/gcc-10.5.0");
    assert_eq!(options[11], "--program-suffix=-10");
    assert_eq!(options[13], "--enable-multilib");
    assert_eq!(options[14], "--with-tune=generic");
    assert_eq!(options.last().unwrap(), "--enable-offload-targets=nvptx-none=/usr/local/cuda");
    assert_eq!(options.iter().filter(|o| o.contains("multilib")).count(), 1);
    assert!(g.validate_configure_options(&v, &c).is_ok());
}

#[test]
fn offload_option_from_the_compiler_path() {
    assert_eq!(offload_option("  "), None);
    assert_eq!(offload_option("/opt/tools/nvcc").unwrap(), "--enable-offload-targets=nvptx-none");
    assert_eq!(
        offload_option("/usr/bin/nvcc-12").unwrap(),
        "--enable-offload-targets=nvptx-none=/usr"
    );
    assert_eq!(
        offload_option("/a/bin/nvcc/bin/nvcc").unwrap(),
        "--enable-offload-targets=nvptx-none=/a/bin/nvcc"
    );
    assert!(GccConfigGenerator::new().offload.is_none());
    assert!(GccConfigGenerator::with_cuda(None).offload.is_none());
}

#[test]
fn validation_of_option_lists() {
    let ok: Vec<String> = ["--prefix=/x", "--build=a", "--host=a", "--target=a", "--enable-languages=c"]
        .iter()
        .map(|s| s.to_string())
        .collect();
    assert!(validate_options(&ok).is_ok());
    let mut both = ok.clone();
    both.push("--enable-multilib".to_string());
    both.push("--disable-multilib".to_string());
    match validate_options(&both) {
        Err(BuildError::Configuration { message }) => {
            assert_eq!(message, "Conflicting multilib options detected")
        }
        other => panic!("{:?}", other),
    }
    let missing: Vec<String> = ok[..3].to_vec();
    match validate_options(&missing) {
        Err(BuildError::Configuration { message }) => {
            assert_eq!(message, "Missing required configure option: --target=")
        }
        other => panic!("{:?}", other),
    }
    match validate_options(&vec![]) {
        Err(BuildError::Configuration { message }) => {
            assert_eq!(message, "Missing required configure option: --prefix=")
        }
        other => panic!("{:?}", other),
    }
}

#[test]
fn configure_command_as_logged() {
    assert_eq!(format_command(&vec![]), "../configure");
    assert_eq!(
        format_command(&vec!["--a".to_string(), "--b".to_string()]),
        "../configure \\\n    --a \\\n    --b"
    );
    let v = GccVersion::new(12, 4, 0).unwrap();
    let text = GccConfigGenerator::new().format_configure_command(&v, &config());
    assert!(text.starts_with("../configure \\\n    --prefix=/usr/local/programs/gcc-12.4.0 \\\n"));
    assert!(text.ends_with("--with-link-serialization=2"));
}

#[test]
fn build_environment() {
    let env = get_build_environment(&config(), NO_DIRS, 8);
    let expect = [
        ("CC", "gcc"),
        ("CXX", "g++"),
        ("CFLAGS", "-O3 -pipe -fstack-protector-strong -march=native"),
        ("CXXFLAGS", "-O3 -pipe -fstack-protector-strong -march=native"),
        ("CPPFLAGS", "-D_FORTIFY_SOURCE=2"),
        ("LDFLAGS", "-Wl,-z,relro -Wl,-z,now"),
        ("MAKEFLAGS", "-j8"),
    ];
    assert_eq!(env.len(), expect.len());
    for (got, want) in env.iter().zip(expect.iter()) {
        assert_eq!((got.0.as_str(), got.1.as_str()), *want);
    }
}

#[test]
fn language_and_extra_options() {
    let g = GccConfigGenerator::new();
    assert_eq!(g.get_language_options(&vec![]), vec!["--enable-languages=all"]);
    assert_eq!(
        g.get_language_options(&vec!["c".to_string(), "all".to_string()]),
        vec!["--enable-languages=all"]
    );
    assert_eq!(
        g.get_language_options(&vec!["c".to_string(), "c++".to_string(), "fortran".to_string()]),
        vec!["--enable-languages=c,c++,fortran"]
    );
    assert_eq!(
        g.get_optimization_options(&config()),
        vec!["--enable-lto", "--enable-plugin", "--enable-libgomp"]
    );
    assert_eq!(g.get_security_options(), vec!["--enable-default-ssp", "--enable-default-pie"]);
}

#[test]
fn optimization_levels() {
    let table = [
        ("0", OptimizationLevel::O0, "-O0"),
        ("1", OptimizationLevel::O1, "-O1"),
        ("2", OptimizationLevel::O2, "-O2"),
        ("3", OptimizationLevel::O3, "-O3"),
        ("fast", OptimizationLevel::Fast, "-Ofast"),
        ("g", OptimizationLevel::Debug, "-Og"),
        ("s", OptimizationLevel::Size, "-Os"),
    ];
    for (word, level, flag) in table {
        assert_eq!(OptimizationLevel::from_word(word), Some(level));
        assert_eq!(level.as_str(), flag);
    }
    assert_eq!(OptimizationLevel::from_word("O2"), None);
    assert_eq!(OptimizationLevel::from_word(""), None);
}

#[test]
fn full_options_validation() {
    assert!(full_args().validate().is_ok());
    let mut a = full_args();
    a.save_binaries = true;
    assert_eq!(
        a.validate().unwrap_err(),
        "The --save-binaries option can only be used with --static-build"
    );
    a.static_build = true;
    assert!(a.validate().is_ok());
    a.prefix = Some("rel".to_string());
    assert_eq!(a.validate().unwrap_err(), "Prefix must be an absolute path");
    a.prefix = Some("/abs".to_string());
    a.build_dir = Some("b".to_string());
    assert_eq!(a.validate().unwrap_err(), "Build directory must be an absolute path");
    a.build_dir = Some("/b".to_string());
    a.jobs = Some(0);
    assert_eq!(a.validate().unwrap_err(), "Number of jobs must be greater than 0");
    a.jobs = Some(4);
    assert!(a.validate().is_ok());
}

#[test]
fn versions_string_by_flags() {
    let mut a = full_args();
    assert_eq!(a.get_versions_string(), "11,13");
    a.versions = None;
    assert_eq!(a.get_versions_string(), "");
    a.all_supported = true;
    assert_eq!(a.get_versions_string(), "10-15");
    a.latest = true;
    assert_eq!(a.get_versions_string(), "latest");
    a.preset = Some(BuildPreset::Cross);
    assert_eq!(a.get_versions_string(), "13-15");
    a.preset = Some(BuildPreset::Ci);
    assert_eq!(a.get_versions_string(), "latest");
}

#[test]
fn presets_fix_their_settings() {
    let run = |p: BuildPreset| {
        let mut a = full_args();
        a.optimization = OptimizationLevel::Size;
        a.static_build = true;
        a.preset = Some(p);
        a.apply_preset();
        (a.enable_multilib, a.optimization, a.static_build, a.generic, a.verbose)
    };
    assert_eq!(run(BuildPreset::Minimal), (false, OptimizationLevel::O2, false, false, false));
    assert_eq!(run(BuildPreset::Development), (true, OptimizationLevel::Debug, false, false, true));
    assert_eq!(run(BuildPreset::Production), (false, OptimizationLevel::O3, true, true, false));
    assert_eq!(run(BuildPreset::Ci), (false, OptimizationLevel::O1, false, false, false));
    assert_eq!(run(BuildPreset::Cross), (true, OptimizationLevel::O2, true, true, false));
    let mut plain = full_args();
    plain.generic = true;
    plain.apply_preset();
    assert!(plain.generic && !plain.enable_multilib);
    assert_eq!(plain.optimization, OptimizationLevel::O2);
    assert_eq!(plain.versions, Some("11,13".to_string()));
}
