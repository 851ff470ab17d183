use grep_args::{parse, Command, Output};

fn argv(items: &[&str]) -> Vec<String> {
    items.iter().map(|s| s.to_string()).collect()
}

fn grep(items: &[&str]) -> grep_args::Args {
    match parse(&argv(items)) {
        Ok(Command::Grep(a)) => a,
        other => panic!("expected a search request, got {:?}", other),
    }
}

#[test]
fn pattern_alone_defaults_files_to_stdin() {
    let a = grep(&["foo"]);
    assert_eq!(a.pattern, "foo");
    assert_eq!(a.files, vec!["-".to_string()]);
    assert!(!a.options.inverse);
    assert!(!a.options.case_insensitive);
    assert_eq!(a.options.output, Output::FileName);
}

#[test]
fn flags_without_files_default_files_to_stdin() {
    let a = grep(&["-v", "-i", "foo"]);
    assert_eq!(a.files, vec!["-".to_string()]);
}

#[test]
fn file_operands_are_kept_in_order() {
    let a = grep(&["foo", "a.txt", "b.txt", "c.txt"]);
    assert_eq!(
        a.files,
        vec!["a.txt".to_string(), "b.txt".to_string(), "c.txt".to_string()]
    );
}

#[test]
fn scenario_ignore_case_two_files() {
    let a = grep(&["-i", "foo", "a.txt", "b.txt"]);
    assert!(!a.options.inverse);
    assert!(a.options.case_insensitive);
    assert_eq!(a.options.output, Output::FileName);
    assert_eq!(a.pattern, "foo");
    assert_eq!(a.files, vec!["a.txt".to_string(), "b.txt".to_string()]);
}

#[test]
fn scenario_files_without_matches() {
    let a = grep(&["-L", "foo"]);
    assert!(a.options.inverse);
    assert!(!a.options.case_insensitive);
    assert_eq!(a.options.output, Output::FileName);
    assert_eq!(a.pattern, "foo");
    assert_eq!(a.files, vec!["-".to_string()]);
}

#[test]
fn scenario_cluster_later_flag_wins() {
    let a = grep(&["-ob", "foo", "x.txt"]);
    assert_eq!(a.options.output, Output::Offset);
    assert_eq!(a.files, vec!["x.txt".to_string()]);
}

#[test]
fn cluster_later_flag_wins_other_order() {
    let a = grep(&["-bo", "foo"]);
    assert_eq!(a.options.output, Output::Bytes);
}

#[test]
fn later_output_flag_wins_across_tokens() {
    assert_eq!(grep(&["-o", "--byte-offset", "foo"]).options.output, Output::Offset);
    assert_eq!(grep(&["--byte-offset", "-o", "foo"]).options.output, Output::Bytes);
    assert_eq!(grep(&["-l", "-o", "foo"]).options.output, Output::Bytes);
    assert_eq!(grep(&["-b", "-l", "foo"]).options.output, Output::FileName);
}

#[test]
fn later_output_flag_wins_mixing_spellings() {
    let a = grep(&["--only-matching", "-L", "foo"]);
    assert_eq!(a.options.output, Output::FileName);
    assert!(a.options.inverse);
}

#[test]
fn overridden_files_without_matches_no_longer_inverts() {
    let a = grep(&["-L", "-l", "foo"]);
    assert!(!a.options.inverse);
    assert_eq!(a.options.output, Output::FileName);
    let b = grep(&["-L", "-b", "foo"]);
    assert!(!b.options.inverse);
    assert_eq!(b.options.output, Output::Offset);
}

#[test]
fn output_flags_each_pick_their_mode() {
    assert_eq!(grep(&["-o", "foo"]).options.output, Output::Bytes);
    assert_eq!(grep(&["-b", "foo"]).options.output, Output::Offset);
    assert_eq!(grep(&["-l", "foo"]).options.output, Output::FileName);
    assert_eq!(grep(&["-L", "foo"]).options.output, Output::FileName);
}

#[test]
fn inverse_truth_table() {
    assert!(!grep(&["foo"]).options.inverse);
    assert!(grep(&["-v", "foo"]).options.inverse);
    assert!(grep(&["-L", "foo"]).options.inverse);
    assert!(!grep(&["-v", "-L", "foo"]).options.inverse);
}

#[test]
fn long_spellings_set_matching_flags() {
    let a = grep(&["--invert-match", "--ignore-case", "foo"]);
    assert!(a.options.inverse);
    assert!(a.options.case_insensitive);
}

#[test]
fn clustered_short_flags_all_apply() {
    let a = grep(&["-vi", "foo"]);
    assert!(a.options.inverse);
    assert!(a.options.case_insensitive);
}

#[test]
fn lone_dash_is_an_operand() {
    let a = grep(&["foo", "-"]);
    assert_eq!(a.files, vec!["-".to_string()]);
    let b = grep(&["-"]);
    assert_eq!(b.pattern, "-");
    assert_eq!(b.files, vec!["-".to_string()]);
}

#[test]
fn missing_pattern_is_an_error() {
    assert!(parse(&argv(&[])).is_err());
    assert!(parse(&argv(&["-v"])).is_err());
    assert!(parse(&argv(&["-i", "-o"])).is_err());
}

#[test]
fn empty_pattern_is_an_error() {
    assert!(parse(&argv(&[""])).is_err());
    assert!(parse(&argv(&["", "a.txt"])).is_err());
}

#[test]
fn unknown_flags_are_an_error() {
    assert!(parse(&argv(&["--frobnicate", "foo"])).is_err());
    assert!(parse(&argv(&["-x", "foo"])).is_err());
    assert!(parse(&argv(&["-vx", "foo"])).is_err());
    assert!(parse(&argv(&["--invert-match=yes", "foo"])).is_err());
    assert!(parse(&argv(&["--", "foo"])).is_err());
}

#[test]
fn error_messages_name_the_problem() {
    match parse(&argv(&["--frobnicate", "foo"])) {
        Err(e) => assert!(e.message.contains("--frobnicate")),
        other => panic!("expected an error, got {:?}", other),
    }
    match parse(&argv(&[])) {
        Err(e) => assert!(!e.message.is_empty()),
        other => panic!("expected an error, got {:?}", other),
    }
}

#[test]
fn help_anywhere_wins() {
    assert!(matches!(parse(&argv(&["--help"])), Ok(Command::Help(_))));
    assert!(matches!(parse(&argv(&["foo", "--help"])), Ok(Command::Help(_))));
    assert!(matches!(parse(&argv(&["-v", "--help", "x.txt"])), Ok(Command::Help(_))));
    assert!(matches!(parse(&argv(&["-h"])), Ok(Command::Help(_))));
    assert!(matches!(parse(&argv(&["-vh", "foo"])), Ok(Command::Help(_))));
    assert!(matches!(parse(&argv(&["--frobnicate", "--help"])), Ok(Command::Help(_))));
}

#[test]
fn help_text_shows_usage() {
    match parse(&argv(&["--help"])) {
        Ok(Command::Help(text)) => {
            assert!(text.contains("USAGE"));
            assert!(text.contains("--files-without-matches"));
        }
        other => panic!("expected help, got {:?}", other),
    }
}

#[test]
fn version_requests_are_answered() {
    assert!(matches!(parse(&argv(&["--version"])), Ok(Command::Version(_))));
    assert!(matches!(parse(&argv(&["-V", "foo"])), Ok(Command::Version(_))));
    match parse(&argv(&["--version"])) {
        Ok(Command::Version(text)) => assert_eq!(text, "grep 0.1.0"),
        other => panic!("expected a version request, got {:?}", other),
    }
}

#[test]
fn help_beats_version() {
    assert!(matches!(parse(&argv(&["--version", "--help"])), Ok(Command::Help(_))));
}
