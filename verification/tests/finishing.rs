use gcc_builder::files::{
    is_executable_mode, verify_checksum, ExtractMethod, FileObservation, FileOperations,
    FileValidationType, LinkAction, LinkPlace, SizeUnit,
};
use gcc_builder::post_install::{
    create_symlinks, ends_with_any, ld_conf_path, link_order, run_libtool_finish,
    run_post_install, save_static_binaries, step_is_critical, symlink_action, trim_binaries,
    trim_start, update_ldconfig, version_suffixes, BinEntry, InstalledLibs, LinkState,
    PostInstallStep, SymlinkAction,
};
use gcc_builder::symlink_optimizer::{
    discover_gcc_binaries_parallel, file_name, link_block, SymlinkOptimizer,
};
use gcc_builder::error::BuildError;
use gcc_builder::version::GccVersion;

fn entry(name: &str, is_file: bool, executable: bool) -> BinEntry {
    BinEntry { name: name.to_string(), is_file, executable }
}

fn v() -> GccVersion {
    GccVersion::new(13, 2, 0).unwrap()
}

#[test]
fn endings_of_versioned_programs() {
    assert_eq!(version_suffixes(&v()), vec!["-13", "-13.2", "-13.2.0"]);
    let e = version_suffixes(&v());
    assert!(ends_with_any("gcc-13", &e));
    assert!(ends_with_any("x86_64-linux-gnu-gcc-13.2.0", &e));
    assert!(ends_with_any("cpp-13.2", &e));
    assert!(!ends_with_any("gcc", &e));
    assert!(!ends_with_any("gcc-12", &e));
    assert!(!ends_with_any("gcc13", &e));
    assert!(!ends_with_any("x", &vec![]));
}

#[test]
fn decision_for_one_link() {
    let e = version_suffixes(&v());
    let src = "/p/bin/gcc-13";
    let gcc = entry("gcc-13", true, true);
    assert_eq!(symlink_action(&gcc, &e, src, &LinkState::Absent), SymlinkAction::Create);
    assert_eq!(
        symlink_action(&gcc, &e, src, &LinkState::SymlinkTo("/p/bin/gcc-13".to_string())),
        SymlinkAction::AlreadyCorrect
    );
    assert_eq!(
        symlink_action(&gcc, &e, src, &LinkState::SymlinkTo("/old/bin/gcc-13".to_string())),
        SymlinkAction::Create
    );
    assert_eq!(symlink_action(&gcc, &e, src, &LinkState::OtherFile), SymlinkAction::Conflict);
    assert_eq!(
        symlink_action(&entry("gcc-13", false, true), &e, src, &LinkState::Absent),
        SymlinkAction::NotCandidate
    );
    assert_eq!(
        symlink_action(&entry("gcc-13", true, false), &e, src, &LinkState::Absent),
        SymlinkAction::NotCandidate
    );
    assert_eq!(
        symlink_action(&entry("gcc", true, true), &e, "/p/bin/gcc", &LinkState::Absent),
        SymlinkAction::NotCandidate
    );
}

#[test]
fn making_the_links_twice_makes_them_once() {
    let entries = vec![
        entry("gcc-13", true, true),
        entry("g++-13", true, true),
        entry("README", true, false),
        entry("gcov-13", true, true),
        entry("lto-dump-13.2.0", true, true),
    ];
    let mut links = vec![
        LinkState::Absent,
        LinkState::SymlinkTo("/elsewhere/g++-13".to_string()),
        LinkState::Absent,
        LinkState::OtherFile,
        LinkState::SymlinkTo("/p/bin/lto-dump-13.2.0".to_string()),
    ];
    let first = create_symlinks(&v(), "/p/bin", &entries, &links);
    assert_eq!(
        first,
        vec![
            SymlinkAction::Create,
            SymlinkAction::Create,
            SymlinkAction::NotCandidate,
            SymlinkAction::Conflict,
            SymlinkAction::AlreadyCorrect,
        ]
    );
    // carry the orders out
    for (i, action) in first.iter().enumerate() {
        if *action == SymlinkAction::Create {
            links[i] = LinkState::SymlinkTo(link_order("/p/bin", &entries[i].name).source);
        }
    }
    let second = create_symlinks(&v(), "/p/bin", &entries, &links);
    assert!(second.iter().all(|a| *a != SymlinkAction::Create));
    assert_eq!(second[0], SymlinkAction::AlreadyCorrect);
    assert_eq!(second[1], SymlinkAction::AlreadyCorrect);
    assert_eq!(second[3], SymlinkAction::Conflict);
    let o = link_order("/p/bin", "gcc-13");
    assert_eq!((o.source.as_str(), o.link.as_str()), ("/p/bin/gcc-13", "/usr/local/bin/gcc-13"));
}

#[test]
fn trimming_the_triple() {
    let t = "x86_64-linux-gnu";
    assert_eq!(trim_binaries("x86_64-linux-gnu-gcc-13", t, false), Some("gcc-13".to_string()));
    assert_eq!(trim_binaries("x86_64-linux-gnu-gcc-13", t, true), None);
    assert_eq!(trim_binaries("gcc-13", t, false), None);
    assert_eq!(trim_binaries("x86_64-linux-gnu", t, false), None);
    assert_eq!(trim_binaries("x86_64-linux-gnu-gcc-13", "", false), None);
    assert_eq!(
        trim_binaries("x86_64-linux-gnu-x86_64-linux-gnu-ar", t, false),
        Some("ar".to_string())
    );
    for (name, prefix) in [("aab", "a"), ("abab", "ab"), ("x", ""), ("", "a"), ("ba", "a")] {
        assert_eq!(trim_start(name, prefix), name.trim_start_matches(prefix));
    }
}

#[test]
fn linker_configuration() {
    assert_eq!(ld_conf_path(&v()), "/etc/ld.so.conf.d/gcc-13.2.0.conf");
    let all = InstalledLibs { lib: true, lib64: true, lib32: true, gcc_lib: true };
    let (content, run) = update_ldconfig(&v(), "/p", "x86_64-linux-gnu", all);
    assert_eq!(content, "/p/lib\n/p/lib64\n/p/lib32\n/p/lib/gcc/x86_64-linux-gnu/13.2.0\n");
    assert!(run);
    let some = InstalledLibs { lib: false, lib64: true, lib32: false, gcc_lib: false };
    assert_eq!(update_ldconfig(&v(), "/p", "t", some), ("/p/lib64\n".to_string(), true));
    let none = InstalledLibs { lib: false, lib64: false, lib32: false, gcc_lib: false };
    assert_eq!(update_ldconfig(&v(), "/p", "t", none), (String::new(), false));
}

#[test]
fn libtool_and_static_binaries() {
    assert_eq!(run_libtool_finish(&v(), "/p", "t", false), None);
    assert_eq!(
        run_libtool_finish(&v(), "/p", "x86_64-linux-gnu", true),
        Some(vec!["--finish".to_string(), "/p/libexec/gcc/x86_64-linux-gnu/13.2.0".to_string()])
    );
    let (dir, programs) = save_static_binaries(&v(), "/p", "/save");
    assert_eq!(dir, "/save/gcc-13.2.0");
    assert_eq!(programs, vec!["/p/bin/gcc-13", "/p/bin/g++-13"]);
}

#[test]
fn linker_cache_comes_last() {
    let plain = run_post_install(false, false);
    assert_eq!(
        plain,
        vec![
            PostInstallStep::LibtoolFinish,
            PostInstallStep::Symlinks,
            PostInstallStep::TrimBinaries,
            PostInstallStep::Ldconfig,
        ]
    );
    assert_eq!(run_post_install(true, false), plain);
    assert_eq!(run_post_install(false, true), plain);
    let saving = run_post_install(true, true);
    assert_eq!(saving.len(), 5);
    assert_eq!(saving[3], PostInstallStep::SaveStaticBinaries);
    assert_eq!(*saving.last().unwrap(), PostInstallStep::Ldconfig);
    assert!(step_is_critical(PostInstallStep::Ldconfig));
    assert!(step_is_critical(PostInstallStep::Symlinks));
    assert!(!step_is_critical(PostInstallStep::TrimBinaries));
}

#[test]
fn batch_script() {
    assert_eq!(file_name("/usr/local/bin/gcc-13"), "gcc-13");
    assert_eq!(file_name("gcc-13"), "gcc-13");
    assert_eq!(file_name("/a/b/"), "");
    assert_eq!(
        link_block("/p/bin/gcc-13", "/usr/local/bin/gcc-13"),
        "if [ ! -L \"/usr/local/bin/gcc-13\" ] || [ \"$(readlink -f \"/usr/local/bin/gcc-13\")\" != \"/p/bin/gcc-13\" ]; then\n  rm -f \"/usr/local/bin/gcc-13\"\n  ln -sf \"/p/bin/gcc-13\" \"/usr/local/bin/gcc-13\"\n  echo \"Linked: gcc-13\"\nfi\n"
    );
    let mut o = SymlinkOptimizer::new(false, 64);
    assert_eq!(o.max_parallel, 32);
    assert_eq!(SymlinkOptimizer::new(true, 8).max_parallel, 8);
    let orders = vec![link_order("/p/bin", "gcc-13"), link_order("/p/bin", "g++-13")];
    let (script, count) = o.create_symlinks_batch(&orders);
    assert_eq!(count, 2);
    assert!(script.starts_with("#!/bin/bash\nset -e\nif [ ! -L \"/usr/local/bin/gcc-13\" ]"));
    assert_eq!(script.matches("ln -sf").count(), 2);
    o.record_links(&vec![link_order("/p/bin", "gcc-13")]);
    let (script, count) = o.create_symlinks_batch(&orders);
    assert_eq!(count, 1);
    assert!(!script.contains("\"/usr/local/bin/gcc-13\""));
    assert!(script.contains("g++-13"));
    o.record_links(&orders);
    assert_eq!(o.create_symlinks_batch(&orders), ("#!/bin/bash\nset -e\n".to_string(), 0));
    // a link that now points elsewhere is made again
    let moved = vec![gcc_builder::post_install::LinkOrder {
        source: "/q/bin/gcc-13".to_string(),
        link: "/usr/local/bin/gcc-13".to_string(),
    }];
    assert_eq!(o.create_symlinks_batch(&moved).1, 1);
    o.clear_cache();
    assert_eq!(o.create_symlinks_batch(&orders).1, 2);
}

#[test]
fn discovering_programs() {
    let entries = vec![
        entry("gcc-13", true, true),
        entry("gcc-12", true, true),
        entry("g++-13", true, false),
        entry("dir-13", false, true),
    ];
    assert_eq!(
        discover_gcc_binaries_parallel(&entries, &vec!["-13".to_string()]),
        vec![true, false, false, false]
    );
    assert_eq!(discover_gcc_binaries_parallel(&entries, &vec![]), vec![false; 4]);
}

#[test]
fn file_sizes_and_modes() {
    let f = FileOperations::new(false);
    assert_eq!(f.get_file_size(None, SizeUnit::MB), 0);
    assert_eq!(f.get_file_size(Some(5 * 1024 * 1024 + 1), SizeUnit::MB), 5);
    assert_eq!(f.get_file_size(Some(2047), SizeUnit::KB), 1);
    assert_eq!(f.get_file_size(Some(2047), SizeUnit::Bytes), 2047);
    assert_eq!(f.get_file_size(Some(u64::MAX), SizeUnit::GB), 17179869183);
    assert!(is_executable_mode(0o755));
    assert!(is_executable_mode(0o001));
    assert!(is_executable_mode(0o100644 | 0o010));
    assert!(!is_executable_mode(0o644));
    assert!(!is_executable_mode(0o100666));
}

#[test]
fn validating_files() {
    let f = FileOperations::new(false);
    let seen = FileObservation {
        exists: true,
        readonly: false,
        writable: false,
        mode: 0o755,
        tarball_ok: true,
        checksum: "ABC".to_string(),
    };
    assert_eq!(f.validate_file("/f", &FileValidationType::Exists, &seen).unwrap(), true);
    assert_eq!(f.validate_file("/f", &FileValidationType::Readable, &seen).unwrap(), true);
    assert_eq!(f.validate_file("/f", &FileValidationType::Writable, &seen).unwrap(), false);
    assert_eq!(f.validate_file("/f", &FileValidationType::Executable, &seen).unwrap(), true);
    assert_eq!(f.validate_file("/f", &FileValidationType::Tarball, &seen).unwrap(), true);
    assert_eq!(
        f.validate_file("/f", &FileValidationType::Checksum("abc".to_string()), &seen).unwrap(),
        true
    );
    assert_eq!(
        f.validate_file("/f", &FileValidationType::Checksum("abd".to_string()), &seen).unwrap(),
        false
    );
    let gone = FileObservation { exists: false, ..seen };
    assert_eq!(f.validate_file("/f", &FileValidationType::Exists, &gone).unwrap(), false);
    match f.validate_file("/f", &FileValidationType::Tarball, &gone) {
        Err(BuildError::FileOperation { operation, path, reason }) => {
            assert_eq!((operation.as_str(), path.as_str(), reason.as_str()), ("validate", "/f", "File does not exist"))
        }
        other => panic!("{:?}", other),
    }
}

#[test]
fn links_by_file_operations() {
    let f = FileOperations::new(false);
    let here = LinkPlace::Link("/t".to_string());
    let there = LinkPlace::Link("/u".to_string());
    assert_eq!(f.create_symlink("/t", "/l", &LinkPlace::Free, false).unwrap(), LinkAction::Create);
    assert_eq!(f.create_symlink("/t", "/l", &here, false).unwrap(), LinkAction::Nothing);
    assert_eq!(f.create_symlink("/t", "/l", &there, false).unwrap(), LinkAction::Create);
    assert_eq!(f.create_symlink("/t", "/l", &here, true).unwrap(), LinkAction::Replace);
    assert_eq!(f.create_symlink("/t", "/l", &LinkPlace::Other, true).unwrap(), LinkAction::Replace);
    assert!(matches!(
        f.create_symlink("/t", "/l", &LinkPlace::Other, false),
        Err(BuildError::FileOperation { .. })
    ));
    let dry = FileOperations::new(true);
    assert_eq!(dry.create_symlink("/t", "/l", &LinkPlace::Other, false).unwrap(), LinkAction::Nothing);
    assert!(!dry.remove_path(true) && !dry.write_file());
    assert!(f.remove_path(true) && !f.remove_path(false) && f.write_file());
}

#[test]
fn unpacking_methods_and_checksums() {
    let f = FileOperations::new(false);
    assert_eq!(f.extract_archive("a.tar.xz").unwrap(), ExtractMethod::SystemTar);
    assert_eq!(f.extract_archive("a.tar.gz").unwrap(), ExtractMethod::GzipInProcess);
    assert_eq!(f.extract_archive("a.tar").unwrap(), ExtractMethod::TarInProcess);
    assert!(f.extract_archive("a.zip").is_err());
    assert_eq!(FileOperations::new(true).extract_archive("a.zip").unwrap(), ExtractMethod::Nothing);
    let sum = f.calculate_checksum(b"abc");
    assert!(sum.starts_with("ddaf35a193617aba"));
    assert!(f.validate_checksum(&sum, &sum.to_uppercase()));
    assert!(verify_checksum("/f", &sum, &sum.to_uppercase(), false).is_ok());
    assert!(verify_checksum("/f", "aa", "bb", true).is_ok());
    match verify_checksum("/f", "aa", "bb", false) {
        Err(BuildError::ChecksumMismatch { file, expected, actual }) => {
            assert_eq!((file.as_str(), expected.as_str(), actual.as_str()), ("/f", "bb", "aa"))
        }
        other => panic!("{:?}", other),
    }
}
