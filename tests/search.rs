use rg_browse::{
    classify_exit, parse_results, run_rg, search_args, ExitClass, Match, Outcome, SearchError,
    JSON_FLAG, SEARCH_COMMAND,
};

fn m(file: &str, line_number: u16) -> Match {
    Match { file: file.to_string(), line_number }
}

fn record(file: &str, line: &str) -> String {
    format!(
        "{{\"type\":\"match\",\"data\":{{\"path\":{{\"text\":\"{}\"}},\"line_number\":{}}}}}",
        file, line
    )
}

#[test]
fn parse_round_trip_skips_other_kinds() {
    let text = [
        "{\"type\":\"match\",\"data\":{\"path\":{\"text\":\"a.rs\"},\"line_number\":5}}",
        "{\"type\":\"begin\",\"data\":{\"path\":{\"text\":\"b.rs\"}}}",
        "{\"type\":\"match\",\"data\":{\"path\":{\"text\":\"b.rs\"},\"line_number\":1}}",
    ]
    .join("\n");
    let got = parse_results(&text).unwrap();
    assert_eq!(got, vec![m("a.rs", 5), m("b.rs", 1)]);
}

#[test]
fn parse_empty_input_gives_nothing() {
    assert_eq!(parse_results("").unwrap(), Vec::<Match>::new());
}

#[test]
fn parse_trailing_newline_is_no_record() {
    let text = format!("{}\n", record("x.rs", "3"));
    assert_eq!(parse_results(&text).unwrap(), vec![m("x.rs", 3)]);
}

#[test]
fn parse_skips_blank_lines_between_records() {
    let text = format!("{}\n\n{}\n", record("x.rs", "3"), record("y.rs", "4"));
    assert_eq!(parse_results(&text).unwrap(), vec![m("x.rs", 3), m("y.rs", 4)]);
}

#[test]
fn parse_keeps_order_and_duplicates() {
    let text = format!("{}\n{}\n{}", record("z.rs", "9"), record("a.rs", "1"), record("z.rs", "9"));
    assert_eq!(parse_results(&text).unwrap(), vec![m("z.rs", 9), m("a.rs", 1), m("z.rs", 9)]);
}

#[test]
fn parse_summary_only_gives_nothing() {
    let text = "{\"type\":\"summary\",\"data\":{}}\n{\"type\":\"end\"}\n[1,2]\n";
    assert_eq!(parse_results(text).unwrap(), Vec::<Match>::new());
}

#[test]
fn parse_bad_json_is_parse_error() {
    let text = format!("{}\nnot json\n", record("x.rs", "3"));
    assert!(matches!(parse_results(&text), Err(SearchError::ResultsParseError { .. })));
}

#[test]
fn parse_missing_path_names_field() {
    let text = "{\"type\":\"match\",\"data\":{\"line_number\":2}}";
    match parse_results(text) {
        Err(SearchError::MissingField { field }) => assert_eq!(field, "data.path.text"),
        other => panic!("unexpected {:?}", other),
    }
}

#[test]
fn parse_path_of_wrong_kind_names_field() {
    let text = "{\"type\":\"match\",\"data\":{\"path\":{\"text\":7},\"line_number\":2}}";
    match parse_results(text) {
        Err(SearchError::MissingField { field }) => assert_eq!(field, "data.path.text"),
        other => panic!("unexpected {:?}", other),
    }
}

#[test]
fn parse_missing_line_number_names_field() {
    let text = "{\"type\":\"match\",\"data\":{\"path\":{\"text\":\"a.rs\"}}}";
    match parse_results(text) {
        Err(SearchError::MissingField { field }) => assert_eq!(field, "data.line_number"),
        other => panic!("unexpected {:?}", other),
    }
}

#[test]
fn parse_negative_line_number_names_field() {
    match parse_results(&record("a.rs", "-4")) {
        Err(SearchError::MissingField { field }) => assert_eq!(field, "data.line_number"),
        other => panic!("unexpected {:?}", other),
    }
}

#[test]
fn parse_zero_line_number_names_field() {
    match parse_results(&record("a.rs", "0")) {
        Err(SearchError::MissingField { field }) => assert_eq!(field, "data.line_number"),
        other => panic!("unexpected {:?}", other),
    }
}

#[test]
fn parse_line_number_bounds() {
    assert_eq!(parse_results(&record("a.rs", "65535")).unwrap(), vec![m("a.rs", 65535)]);
    match parse_results(&record("a.rs", "65536")) {
        Err(SearchError::MissingField { field }) => assert_eq!(field, "data.line_number"),
        other => panic!("unexpected {:?}", other),
    }
}

#[test]
fn parse_line_number_as_text_names_field() {
    match parse_results(&record("a.rs", "\"5\"")) {
        Err(SearchError::MissingField { field }) => assert_eq!(field, "data.line_number"),
        other => panic!("unexpected {:?}", other),
    }
}

#[test]
fn parse_unicode_path() {
    assert_eq!(parse_results(&record("dir/é.rs", "2")).unwrap(), vec![m("dir/é.rs", 2)]);
}

#[test]
fn exit_codes_classified() {
    assert_eq!(classify_exit(Some(0)), ExitClass::Success);
    assert_eq!(classify_exit(Some(1)), ExitClass::EmptySuccess);
    assert_eq!(classify_exit(Some(2)), ExitClass::Failure);
    assert_eq!(classify_exit(Some(127)), ExitClass::Failure);
    assert_eq!(classify_exit(Some(-1)), ExitClass::Failure);
    assert_eq!(classify_exit(None), ExitClass::Failure);
}

#[test]
fn search_args_append_json_flag() {
    let args = vec!["-i".to_string(), "needle".to_string()];
    assert_eq!(search_args(args), vec!["-i".to_string(), "needle".to_string(), "--json".to_string()]);
    assert_eq!(search_args(Vec::new()), vec![JSON_FLAG.to_string()]);
    assert_eq!(SEARCH_COMMAND, "rg");
}

fn exited(code: Option<i32>, stdout: &[u8], stderr: &[u8]) -> Outcome {
    Outcome::Exited { code, stdout: stdout.to_vec(), stderr: stderr.to_vec() }
}

#[test]
fn run_exit_zero_gives_records() {
    let out = format!("{}\n{}\n", record("a.rs", "10"), record("a.rs", "20"));
    let got = run_rg(vec!["x".to_string()], exited(Some(0), out.as_bytes(), b"")).unwrap();
    assert_eq!(got, vec![m("a.rs", 10), m("a.rs", 20)]);
}

#[test]
fn run_exit_one_is_empty_success() {
    let got = run_rg(vec!["x".to_string()], exited(Some(1), b"garbage", b"oops")).unwrap();
    assert!(got.is_empty());
}

#[test]
fn run_other_exit_is_run_failure() {
    match run_rg(vec!["x".to_string()], exited(Some(2), b"out", b"err")) {
        Err(SearchError::CommandResultError { command, args, stdout, stderr }) => {
            assert_eq!(command, "rg");
            assert_eq!(args, vec!["x".to_string(), "--json".to_string()]);
            assert_eq!(stdout, b"out".to_vec());
            assert_eq!(stderr, b"err".to_vec());
        }
        other => panic!("unexpected {:?}", other),
    }
}

#[test]
fn run_signal_exit_is_run_failure() {
    assert!(matches!(
        run_rg(Vec::new(), exited(None, b"", b"")),
        Err(SearchError::CommandResultError { .. })
    ));
}

#[test]
fn run_not_started_is_launch_failure() {
    let got = run_rg(Vec::new(), Outcome::NotStarted { reason: "not found".to_string() });
    match got {
        Err(SearchError::CommandError { command, reason }) => {
            assert_eq!(command, "rg");
            assert_eq!(reason, "not found");
        }
        other => panic!("unexpected {:?}", other),
    }
}

#[test]
fn run_non_utf8_output_is_decode_failure() {
    let got = run_rg(Vec::new(), exited(Some(0), &[0x7b, 0xff, 0xfe, 0x0a], b""));
    assert!(matches!(got, Err(SearchError::NonUtf8Results { .. })));
}

#[test]
fn run_exit_zero_bad_record_is_parse_failure() {
    let got = run_rg(Vec::new(), exited(Some(0), b"{oops\n", b""));
    assert!(matches!(got, Err(SearchError::ResultsParseError { .. })));
}
