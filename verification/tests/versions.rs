use gcc_builder::version::{get_known_version, is_available, path_join, GccVersion};

#[test]
fn new_writes_the_canonical_text() {
    let v = GccVersion::new(13, 2, 0).unwrap();
    assert_eq!(v.full, "13.2.0");
    assert_eq!((v.major, v.minor, v.patch), (13, 2, 0));
    assert!(GccVersion::new(9, 5, 0).is_none());
    assert!(GccVersion::new(16, 0, 0).is_none());
    assert!(GccVersion::new(10, 0, 0).is_some());
    assert!(GccVersion::new(15, 255, 255).is_some());
}

#[test]
fn parse_reads_three_numbers() {
    let v = GccVersion::parse("14.2.0").unwrap();
    assert_eq!((v.major, v.minor, v.patch), (14, 2, 0));
    assert_eq!(v.full, "14.2.0");
    let w = GccVersion::parse("13.02.007").unwrap();
    assert_eq!(w.full, "13.2.7");
    for bad in ["", "13", "13.2", "13.2.0.1", "9.5.0", "16.1.0", "13.x.0", "13.2.256", "+13.2.0", "13..0", " 13.2.0"] {
        assert!(GccVersion::parse(bad).is_none(), "text {:?}", bad);
    }
}

#[test]
fn order_is_by_the_numbers_not_the_text() {
    let a = GccVersion::parse("13.9.0").unwrap();
    let b = GccVersion::parse("13.10.0").unwrap();
    assert!(a.precedes(&b));
    assert!(!b.precedes(&a));
    assert!(!a.precedes(&a));
    assert!(GccVersion::parse("12.9.9").unwrap().precedes(&a));
    assert!(GccVersion::parse("13.9.0").unwrap().precedes(&GccVersion::parse("13.9.1").unwrap()));
    assert!(a == GccVersion::new(13, 9, 0).unwrap());
    assert!(a != b);
    assert!(a.same_release(&a.clone()));
}

#[test]
fn latest_marker_needs_resolution() {
    let v = GccVersion::latest_of(13).unwrap();
    assert!(v.is_unresolved());
    assert_eq!(v.full, "13.0.0");
    assert!(!GccVersion::new(13, 0, 1).unwrap().is_unresolved());
    assert!(!GccVersion::new(13, 1, 0).unwrap().is_unresolved());
    assert!(GccVersion::latest_of(9).is_none());
}

#[test]
fn names_derived_from_a_version() {
    let v = GccVersion::new(13, 2, 0).unwrap();
    assert_eq!(v.tarball_name(), "gcc-13.2.0.tar.xz");
    assert_eq!(v.display_name(), "GCC 13.2.0");
    assert_eq!(v.install_prefix(None), "/usr/local/programs/gcc-13.2.0");
    assert_eq!(v.install_prefix(Some(&"/opt".to_string())), "/opt/gcc-13.2.0");
    assert_eq!(v.install_prefix(Some(&"/opt/".to_string())), "/opt/gcc-13.2.0");
}

#[test]
fn path_join_follows_the_standard_library() {
    for (base, name) in [("/opt", "x"), ("/opt/", "x"), ("", "x"), ("/", "bin"), ("a/b", "c/d")] {
        let expected = std::path::Path::new(base).join(name);
        assert_eq!(path_join(base, name), expected.to_str().unwrap());
    }
}

#[test]
fn known_versions_table() {
    let expected = [(10, "10.5.0"), (11, "11.5.0"), (12, "12.4.0"), (13, "13.3.0"), (14, "14.2.0"), (15, "15.2.0")];
    for (major, full) in expected {
        assert_eq!(get_known_version(major).unwrap().full, full);
    }
    assert!(get_known_version(9).is_none());
    assert!(get_known_version(16).is_none());
    assert!(is_available(10) && is_available(15) && !is_available(9) && !is_available(16));
}
