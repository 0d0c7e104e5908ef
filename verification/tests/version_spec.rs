use gcc_builder::error::BuildError;
use gcc_builder::version_spec::parse_version_spec;

#[test]
fn test_parse_single_version() {
    let result = parse_version_spec("13").unwrap();
    assert_eq!(result, vec![13]);
}

#[test]
fn test_parse_multiple_versions() {
    let result = parse_version_spec("11,13,14").unwrap();
    assert_eq!(result, vec![11, 13, 14]);
}

#[test]
fn test_parse_range() {
    let result = parse_version_spec("11-14").unwrap();
    assert_eq!(result, vec![11, 12, 13, 14]);
}

#[test]
fn test_parse_mixed() {
    let result = parse_version_spec("10,12-14").unwrap();
    assert_eq!(result, vec![10, 12, 13, 14]);
}

#[test]
fn test_parse_with_spaces() {
    let result = parse_version_spec("11, 13, 14").unwrap();
    assert_eq!(result, vec![11, 13, 14]);
}

#[test]
fn test_parse_invalid() {
    assert!(parse_version_spec("abc").is_err());
}

#[test]
fn test_parse_unavailable_version() {
    let result = parse_version_spec("5,13");
    assert!(result.is_ok());
    assert_eq!(result.unwrap(), vec![13]);
}

#[test]
fn full_range_is_accepted() {
    assert_eq!(parse_version_spec("10-15").unwrap(), vec![10, 11, 12, 13, 14, 15]);
}

#[test]
fn duplicates_are_dropped() {
    assert_eq!(parse_version_spec("12,12").unwrap(), vec![12]);
    assert_eq!(parse_version_spec("14,12-14,13").unwrap(), vec![12, 13, 14]);
}

#[test]
fn result_is_sorted_whatever_the_order() {
    assert_eq!(parse_version_spec("15,10,13").unwrap(), vec![10, 13, 15]);
}

#[test]
fn majors_out_of_range_alone_leave_nothing() {
    assert!(matches!(parse_version_spec("9"), Err(BuildError::NoVersionsSelected)));
    assert!(matches!(parse_version_spec("16"), Err(BuildError::NoVersionsSelected)));
    assert!(matches!(parse_version_spec("1-9"), Err(BuildError::NoVersionsSelected)));
    assert!(matches!(parse_version_spec("16-4000000000"), Err(BuildError::NoVersionsSelected)));
}

#[test]
fn range_overlapping_the_available_majors_is_cut() {
    assert_eq!(parse_version_spec("8-11").unwrap(), vec![10, 11]);
    assert_eq!(parse_version_spec("14-20").unwrap(), vec![14, 15]);
    assert_eq!(parse_version_spec("0-4294967295").unwrap(), vec![10, 11, 12, 13, 14, 15]);
}

#[test]
fn reversed_range_asks_for_nothing() {
    assert!(matches!(parse_version_spec("14-11"), Err(BuildError::NoVersionsSelected)));
    assert_eq!(parse_version_spec("14-11,12").unwrap(), vec![12]);
}

#[test]
fn invalid_part_is_named() {
    match parse_version_spec("13,x4,zz") {
        Err(BuildError::InvalidVersionSpec { spec }) => assert_eq!(spec, "x4"),
        other => panic!("{:?}", other),
    }
    match parse_version_spec("11-12-13") {
        Err(BuildError::InvalidVersionSpec { spec }) => assert_eq!(spec, "11-12-13"),
        other => panic!("{:?}", other),
    }
    match parse_version_spec("12-") {
        Err(BuildError::InvalidVersionSpec { spec }) => assert_eq!(spec, "12-"),
        other => panic!("{:?}", other),
    }
    match parse_version_spec("") {
        Err(BuildError::InvalidVersionSpec { spec }) => assert_eq!(spec, ""),
        other => panic!("{:?}", other),
    }
    match parse_version_spec("13,") {
        Err(BuildError::InvalidVersionSpec { spec }) => assert_eq!(spec, ""),
        other => panic!("{:?}", other),
    }
    match parse_version_spec("4294967296") {
        Err(BuildError::InvalidVersionSpec { spec }) => assert_eq!(spec, "4294967296"),
        other => panic!("{:?}", other),
    }
}

#[test]
fn plus_sign_is_read_as_the_standard_parser_reads_it() {
    assert_eq!(parse_version_spec("+13").unwrap(), vec![13]);
    assert_eq!("+13".parse::<u32>().unwrap(), 13);
    assert!(parse_version_spec("-13").is_err());
    assert!(parse_version_spec("+").is_err());
    assert_eq!(parse_version_spec("013").unwrap(), vec![13]);
}
