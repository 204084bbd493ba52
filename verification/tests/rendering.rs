//! Behavioural tests for argument construction and output validation.

use git_glimpse::{
    branch_list_args, choose_format, config_value, last_tag_args, log_args, merge_base_args,
    merge_base_from_lines, show_current_args, Error,
};

fn strings(items: &[&str]) -> Vec<String> {
    items.iter().map(|s| s.to_string()).collect()
}

#[test]
fn fixed_query_argument_lists() {
    assert_eq!(
        branch_list_args(),
        strings(&["branch", "--list", "--format=%(refname:short)"])
    );
    assert_eq!(show_current_args(), strings(&["branch", "--show-current"]));
    assert_eq!(last_tag_args(), strings(&["rev-list", "--tags", "--max-count=1"]));
}

#[test]
fn merge_base_query_lists_all_tips() {
    let names = strings(&["release", "main"]);
    assert_eq!(
        merge_base_args(&names),
        strings(&["merge-base", "--octopus", "release", "main"])
    );
}

#[test]
fn merge_base_accepts_exactly_one_line() {
    let r = merge_base_from_lines(strings(&["deadbeef"]));
    assert_eq!(r.unwrap(), "deadbeef");
}

#[test]
fn merge_base_rejects_empty_output() {
    let r = merge_base_from_lines(Vec::new());
    assert!(matches!(r, Err(Error::Other { .. })));
}

#[test]
fn merge_base_rejects_ambiguous_output() {
    let r = merge_base_from_lines(strings(&["aaaa", "bbbb"]));
    assert!(matches!(r, Err(Error::Other { .. })));
}

#[test]
fn explicit_list_graph_invocation() {
    let names = strings(&["release", "main"]);
    let files: Vec<String> = Vec::new();
    let merge_base = "cafe12".to_string();
    let args = log_args(None, &merge_base, &names, &files);
    assert_eq!(
        args,
        strings(&[
            "log",
            "--graph",
            "--decorate",
            "--ancestry-path",
            "^cafe12^@",
            "release",
            "main",
            "--",
        ])
    );
}

#[test]
fn graph_invocation_with_format_and_files() {
    let names = strings(&["main"]);
    let files = strings(&["src/lib.rs", "README.md"]);
    let merge_base = "abc".to_string();
    let args = log_args(Some("oneline".to_string()), &merge_base, &names, &files);
    assert_eq!(
        args,
        strings(&[
            "log",
            "--graph",
            "--decorate",
            "--format=oneline",
            "--ancestry-path",
            "^abc^@",
            "main",
            "--",
            "src/lib.rs",
            "README.md",
        ])
    );
}

#[test]
fn explicit_format_beats_configured_format() {
    let r = choose_format(Some("mine".to_string()), Some("configured".to_string()));
    assert_eq!(r, Some("mine".to_string()));
}

#[test]
fn configured_format_is_the_fallback() {
    let r = choose_format(None, Some("configured".to_string()));
    assert_eq!(r, Some("configured".to_string()));
    assert_eq!(choose_format(None, None), None);
}

#[test]
fn config_key_present() {
    let r = config_value(Some(0), strings(&["trunk"]));
    assert_eq!(r.unwrap(), Some("trunk".to_string()));
}

#[test]
fn config_key_present_but_empty_output() {
    let r = config_value(Some(0), Vec::new());
    assert_eq!(r.unwrap(), None);
}

#[test]
fn config_key_absent_is_not_an_error() {
    let r = config_value(Some(1), Vec::new());
    assert_eq!(r.unwrap(), None);
}

#[test]
fn config_query_failure_propagates_code() {
    match config_value(Some(3), Vec::new()) {
        Err(Error::SubprocessFailedWithExplanation { code }) => assert_eq!(code, Some(3)),
        _ => panic!("expected a subprocess failure"),
    }
    match config_value(None, Vec::new()) {
        Err(Error::SubprocessFailedWithExplanation { code }) => assert_eq!(code, None),
        _ => panic!("expected a subprocess failure"),
    }
}

#[test]
fn exit_status_zero_is_success() {
    assert!(Error::from_status(Some(0)).is_ok());
}

#[test]
fn exit_status_failures_keep_their_code() {
    match Error::from_status(Some(42)) {
        Err(Error::SubprocessFailedWithExplanation { code }) => assert_eq!(code, Some(42)),
        _ => panic!("expected a subprocess failure"),
    }
    match Error::from_status(None) {
        Err(Error::SubprocessFailedWithExplanation { code }) => assert_eq!(code, None),
        _ => panic!("expected a subprocess failure"),
    }
}

#[test]
fn error_exit_codes() {
    let failed = Error::SubprocessFailedWithExplanation { code: Some(7) };
    assert_eq!(failed.exit_code(), 7);
    let signalled = Error::SubprocessFailedWithExplanation { code: None };
    assert_eq!(signalled.exit_code(), 255);
    let internal = Error::other("boom".to_string());
    assert_eq!(internal.exit_code(), 254);
}
