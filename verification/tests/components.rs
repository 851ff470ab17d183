use grep_args::{assemble, resolve_tokens, Options, Output, OutputFlag, RawMatches};

fn argv(items: &[&str]) -> Vec<String> {
    items.iter().map(|s| s.to_string()).collect()
}

#[test]
fn default_output_mode_is_file_name() {
    assert_eq!(Output::default(), Output::FileName);
}

#[test]
fn default_options_are_plain() {
    let o = Options::default();
    assert!(!o.inverse);
    assert!(!o.case_insensitive);
    assert_eq!(o.output, Output::FileName);
}

#[test]
fn resolver_reports_raw_matches() {
    let m = resolve_tokens(&argv(&["-v", "pat", "-L", "a.txt"])).unwrap();
    assert!(m.invert);
    assert!(!m.ignore_case);
    assert_eq!(m.output_flag, Some(OutputFlag::FilesWithout));
    assert_eq!(m.operands, vec!["pat".to_string(), "a.txt".to_string()]);
}

#[test]
fn resolver_rejects_unknown_tokens() {
    assert!(resolve_tokens(&argv(&["--nope", "pat"])).is_err());
}

#[test]
fn assembler_applies_the_xor_rule() {
    let a = assemble(RawMatches {
        invert: true,
        ignore_case: false,
        output_flag: Some(OutputFlag::FilesWithout),
        operands: argv(&["pat"]),
    });
    assert!(!a.options.inverse);
    assert_eq!(a.options.output, Output::FileName);
    assert_eq!(a.pattern, "pat");
    assert_eq!(a.files, vec!["-".to_string()]);
}

#[test]
fn assembler_keeps_given_files() {
    let a = assemble(RawMatches {
        invert: false,
        ignore_case: true,
        output_flag: Some(OutputFlag::OnlyMatching),
        operands: argv(&["pat", "x", "y"]),
    });
    assert!(a.options.case_insensitive);
    assert_eq!(a.options.output, Output::Bytes);
    assert_eq!(a.files, vec!["x".to_string(), "y".to_string()]);
}
