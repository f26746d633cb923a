use hop_cli::cli::{parse_args, Command};

#[test]
fn parse_args_accepts_lowercase_direct_target() {
    let options = parse_args(vec!["b1".to_owned()], true).expect("parse direct target");

    assert_eq!(options.command, Command::Jump);
    assert_eq!(options.target.as_deref(), Some("b1"));
}

#[test]
fn parse_args_accepts_frequent_view_and_numeric_target() {
    let options = parse_args(vec!["--frequent".to_owned(), "2".to_owned()], true)
        .expect("parse frequent target");

    assert_eq!(options.command, Command::Jump);
    assert!(options.frequent);
    assert_eq!(options.target.as_deref(), Some("2"));
}

#[test]
fn parse_args_accepts_non_interactive_list_views() {
    let options = parse_args(vec!["list".to_owned()], true).expect("parse list");

    assert_eq!(options.command, Command::List);
    assert!(!options.frequent);
    assert_eq!(options.target, None);

    let options = parse_args(vec!["list".to_owned(), "--frequent".to_owned()], true)
        .expect("parse frequent list");

    assert_eq!(options.command, Command::List);
    assert!(options.frequent);
    assert_eq!(options.target, None);
}

#[test]
fn parse_args_rejects_a_target_for_list() {
    let error = parse_args(vec!["list".to_owned(), "A1".to_owned()], true)
        .expect_err("list target should fail");

    assert_eq!(error, "unexpected argument: A1");
}

#[test]
fn parse_args_accepts_internal_jump_recording() {
    let options = parse_args(
        vec![
            "--record-jump".to_owned(),
            "/work/hop".to_owned(),
            "--no-color".to_owned(),
        ],
        true,
    )
    .expect("parse jump recording");

    assert_eq!(options.command, Command::RecordJump);
    assert_eq!(options.target.as_deref(), Some("/work/hop"));
    assert!(!options.color);
}

#[test]
fn parse_args_reads_root_forms_and_flags() {
    let options = parse_args(
        vec!["--root".to_owned(), "/srv".to_owned(), "--copy-path".to_owned(), "-V".to_owned()],
        false,
    )
    .expect("parse root");
    assert_eq!(options.command, Command::Version);
    assert_eq!(options.root.as_deref(), Some("/srv"));
    assert!(options.copy_path);
    assert!(!options.color);

    let options = parse_args(vec!["--root=/work".to_owned(), "config".to_owned()], true).expect("parse root=");
    assert_eq!(options.command, Command::Config);
    assert_eq!(options.root.as_deref(), Some("/work"));
    assert!(options.color);

    let options = parse_args(vec!["--shell-init".to_owned()], true).expect("shell init");
    assert_eq!(options.command, Command::ShellInit);
    let options = parse_args(vec!["-h".to_owned()], true).expect("help");
    assert_eq!(options.command, Command::Help);
    let options = parse_args(vec!["update".to_owned()], true).expect("update");
    assert_eq!(options.command, Command::Update);
    let options = parse_args(Vec::new(), true).expect("no arguments");
    assert_eq!(options.command, Command::Jump);
    assert_eq!(options.target, None);
    assert_eq!(options.root, None);
}

#[test]
fn parse_args_reports_each_error() {
    assert_eq!(parse_args(vec!["--root".to_owned()], true).unwrap_err(), "--root requires a directory");
    assert_eq!(parse_args(vec!["--root=".to_owned()], true).unwrap_err(), "--root requires a directory");
    assert_eq!(
        parse_args(vec!["--record-jump".to_owned()], true).unwrap_err(),
        "--record-jump requires a project path"
    );
    assert_eq!(parse_args(vec!["--bogus".to_owned()], true).unwrap_err(), "unknown argument: --bogus");
    assert_eq!(parse_args(vec!["-".to_owned()], true).unwrap_err(), "unknown argument: -");
    assert_eq!(
        parse_args(vec!["A1".to_owned(), "B2".to_owned()], true).unwrap_err(),
        "unexpected argument: B2"
    );
    assert_eq!(
        parse_args(vec!["list".to_owned(), "config".to_owned()], true).unwrap_err(),
        "unexpected argument: config"
    );
    assert_eq!(
        parse_args(vec!["A1".to_owned(), "--record-jump".to_owned(), "/x".to_owned()], true).unwrap_err(),
        "unexpected argument: --record-jump"
    );
    assert_eq!(
        parse_args(vec!["--record-jump".to_owned(), "/x".to_owned(), "extra".to_owned()], true).unwrap_err(),
        "unexpected argument: extra"
    );
}

#[test]
fn parse_args_takes_a_command_word_after_a_target_as_target_text() {
    // "list" after a target is no command word any more and is refused as a second target.
    assert_eq!(
        parse_args(vec!["A1".to_owned(), "list".to_owned()], true).unwrap_err(),
        "unexpected argument: list"
    );
}
