use gcc_builder::cli::{Args, ArgsError};

fn base_args() -> Args {
    Args {
        versions: None,
        debug: false,
        dry_run: false,
        enable_multilib: false,
        static_build: false,
        generic: false,
        keep_build_dir: false,
        log_file: None,
        optimization: "3".to_string(),
        prefix: None,
        save: false,
        verbose: false,
        parallel: 1,
    }
}

#[test]
fn test_optimization_validation() {
    let args = Args {
        versions: None,
        debug: false,
        dry_run: false,
        enable_multilib: false,
        static_build: false,
        generic: false,
        keep_build_dir: false,
        log_file: None,
        optimization: "3".to_string(),
        prefix: None,
        save: false,
        verbose: false,
        parallel: 1,
    };
    assert!(args.validate().is_ok());
}

#[test]
fn test_invalid_optimization() {
    let args = Args {
        versions: None,
        debug: false,
        dry_run: false,
        enable_multilib: false,
        static_build: false,
        generic: false,
        keep_build_dir: false,
        log_file: None,
        optimization: "invalid".to_string(),
        prefix: None,
        save: false,
        verbose: false,
        parallel: 1,
    };
    assert!(args.validate().is_err());
}

#[test]
fn test_save_requires_static() {
    let args = Args {
        versions: None,
        debug: false,
        dry_run: false,
        enable_multilib: false,
        static_build: false,
        generic: false,
        keep_build_dir: false,
        log_file: None,
        optimization: "3".to_string(),
        prefix: None,
        save: true,
        verbose: false,
        parallel: 1,
    };
    assert!(args.validate().is_err());
}

#[test]
fn every_listed_optimization_level_is_accepted() {
    for level in ["0", "1", "2", "3", "fast", "g", "s"] {
        let mut args = base_args();
        args.optimization = level.to_string();
        assert!(args.validate().is_ok(), "level {}", level);
    }
}

#[test]
fn other_optimization_levels_are_refused() {
    for level in ["", "4", "O2", "-O2", "Fast", "3 ", "gs", "size"] {
        let mut args = base_args();
        args.optimization = level.to_string();
        match args.validate() {
            Err(ArgsError::InvalidOptimization { level: l }) => assert_eq!(l, level),
            other => panic!("level {:?} gave {:?}", level, other),
        }
    }
}

#[test]
fn save_with_static_is_accepted() {
    let mut args = base_args();
    args.save = true;
    args.static_build = true;
    assert!(args.validate().is_ok());
}

#[test]
fn save_without_static_names_its_reason() {
    let mut args = base_args();
    args.save = true;
    assert!(matches!(args.validate(), Err(ArgsError::SaveWithoutStatic)));
    assert_eq!(
        ArgsError::SaveWithoutStatic.message(),
        "The --save option can only be used with --static"
    );
}

#[test]
fn relative_prefix_is_refused() {
    let mut args = base_args();
    args.prefix = Some("opt/gcc".to_string());
    assert!(matches!(args.validate(), Err(ArgsError::RelativePrefix { .. })));
    args.prefix = Some("/opt/gcc".to_string());
    assert!(args.validate().is_ok());
    args.prefix = Some(String::new());
    assert!(args.validate().is_err());
}

#[test]
fn zero_parallel_is_refused() {
    let mut args = base_args();
    args.parallel = 0;
    assert!(matches!(args.validate(), Err(ArgsError::ZeroParallel)));
}

#[test]
fn first_complaint_wins() {
    let mut args = base_args();
    args.optimization = "9".to_string();
    args.save = true;
    args.parallel = 0;
    assert!(matches!(args.validate(), Err(ArgsError::InvalidOptimization { .. })));
}
