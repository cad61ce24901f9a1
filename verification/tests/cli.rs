use disp_writer::cli::{parse_args, ArgsError, CliCommand};

fn args(list: &[&str]) -> Vec<String> {
    list.iter().map(|s| s.to_string()).collect()
}

#[test]
fn no_arguments_run_with_defaults() {
    assert!(matches!(parse_args(&args(&[])), Ok(CliCommand::Run(None))));
}

#[test]
fn config_path_is_taken() {
    match parse_args(&args(&["--config", "/etc/disp-writer/config.toml"])) {
        Ok(CliCommand::Run(Some(p))) => assert_eq!(p, "/etc/disp-writer/config.toml"),
        other => panic!("unexpected: {:?}", other),
    }
}

#[test]
fn later_config_replaces_earlier() {
    match parse_args(&args(&["--config", "a.toml", "--config", "b.toml"])) {
        Ok(CliCommand::Run(Some(p))) => assert_eq!(p, "b.toml"),
        other => panic!("unexpected: {:?}", other),
    }
}

#[test]
fn config_value_is_taken_verbatim() {
    match parse_args(&args(&["--config", "--help"])) {
        Ok(CliCommand::Run(Some(p))) => assert_eq!(p, "--help"),
        other => panic!("unexpected: {:?}", other),
    }
}

#[test]
fn config_without_path_is_refused() {
    let r = parse_args(&args(&["--config"]));
    match r {
        Err(e @ ArgsError::MissingConfigPath) => {
            assert_eq!(e.message(), "--config にパスが必要です")
        }
        other => panic!("unexpected: {:?}", other),
    }
    assert!(matches!(
        parse_args(&args(&["--config", "a.toml", "--config"])),
        Err(ArgsError::MissingConfigPath)
    ));
}

#[test]
fn help_flags() {
    assert!(matches!(parse_args(&args(&["-h"])), Ok(CliCommand::Help)));
    assert!(matches!(parse_args(&args(&["--help"])), Ok(CliCommand::Help)));
    assert!(matches!(parse_args(&args(&["--config", "a.toml", "-h", "junk"])), Ok(CliCommand::Help)));
}

#[test]
fn unknown_argument_is_refused() {
    match parse_args(&args(&["--verbose", "-h"])) {
        Err(e @ ArgsError::UnknownArgument(_)) => {
            assert_eq!(e.message(), "不明な引数: --verbose（--config PATH のみ対応）")
        }
        other => panic!("unexpected: {:?}", other),
    }
    assert!(matches!(
        parse_args(&args(&["--config", "a.toml", "x"])),
        Err(ArgsError::UnknownArgument(a)) if a == "x"
    ));
}
