use hop_cli::cli::{parse_args, Command};
use hop_cli::quote::shell_quote;
use hop_cli::render::render_frequent;
use hop_cli::select::{frequent_path_for_target, RankedProject};

#[test]
fn every_shown_position_selects_its_row() {
    let projects: Vec<RankedProject> = (0..12)
        .map(|i| RankedProject { path: format!("/work/p{i}"), jumps: (12 - i) as u64 })
        .collect();
    let lines = render_frequent("/work", &projects, false, "hop", "1.0.0");
    for (i, project) in projects.iter().enumerate() {
        let row = &lines[i + 5];
        let label = row.trim_start().split(')').next().unwrap().to_owned();
        assert_eq!(frequent_path_for_target(&projects, &label), Ok(project.path.as_str()));
        // positions are right-aligned to the widest one
        assert_eq!(row.find(')'), Some(4));
    }
}

#[test]
fn list_config_and_update_never_carry_a_target() {
    for word in ["list", "config", "update"] {
        let options = parse_args(vec![word.to_owned(), "--frequent".to_owned()], true).expect("command word");
        assert_eq!(options.target, None);
        assert!(parse_args(vec![word.to_owned(), "A1".to_owned()], true).is_err());
        assert!(parse_args(vec![word.to_owned(), "--record-jump".to_owned(), "/x".to_owned()], true).is_err());
    }
    let options = parse_args(vec!["--record-jump".to_owned(), "/x".to_owned(), "-h".to_owned()], true).unwrap();
    assert_eq!(options.command, Command::Help);
    assert_eq!(options.target.as_deref(), Some("/x"));
    let options = parse_args(vec!["--record-jump".to_owned(), "/x".to_owned()], false).unwrap();
    assert!(!options.color);
}

#[test]
fn quoted_words_read_back_as_the_value() {
    // A POSIX shell reads '...' literally and "'" as a quote; undoing that gives the value back.
    fn read_back(word: &str) -> String {
        let mut out = String::new();
        let mut mode = 0;
        for c in word.chars() {
            match (mode, c) {
                (0, '\'') => mode = 1,
                (0, '"') => mode = 2,
                (1, '\'') => mode = 0,
                (2, '"') => mode = 0,
                (_, c) => out.push(c),
            }
        }
        out
    }
    for value in ["/tmp/alex's/hop", "", "''", "a b", "x\"y"] {
        assert_eq!(read_back(&shell_quote(value)), value);
    }
}

#[test]
fn root_spellings_parse_alike() {
    let prefixes: Vec<Vec<String>> = vec![vec![], vec!["--frequent".to_owned()], vec!["list".to_owned()]];
    let suffixes: Vec<Vec<String>> = vec![vec![], vec!["A1".to_owned()], vec!["--root".to_owned(), "/z".to_owned()]];
    for p in &prefixes {
        for q in &suffixes {
            let mut spaced = p.clone();
            spaced.extend(["--root".to_owned(), "/srv".to_owned()]);
            spaced.extend(q.iter().cloned());
            let mut joined = p.clone();
            joined.push("--root=/srv".to_owned());
            joined.extend(q.iter().cloned());
            let a = parse_args(spaced, true);
            let b = parse_args(joined, true);
            match (a, b) {
                (Ok(a), Ok(b)) => {
                    assert_eq!(a.command, b.command);
                    assert_eq!(a.root, b.root);
                    assert_eq!(a.target, b.target);
                    assert_eq!((a.copy_path, a.frequent, a.color), (b.copy_path, b.frequent, b.color));
                }
                (Err(a), Err(b)) => assert_eq!(a, b),
                _ => panic!("the two spellings of --root disagree"),
            }
        }
    }
}

#[test]
fn unknown_options_are_refused_anywhere() {
    for p in [vec![], vec!["A1".to_owned()], vec!["--root".to_owned(), "/srv".to_owned()]] {
        let mut args = p.clone();
        args.push("--verbose".to_owned());
        args.push("list".to_owned());
        assert_eq!(parse_args(args, true).unwrap_err(), "unknown argument: --verbose");
    }
}
