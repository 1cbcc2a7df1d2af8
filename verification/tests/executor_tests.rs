use jj_bridge::error::JJError;
use jj_bridge::executor::{classify_outcome, decode_json_output, spawn_failure_error, JJExecutor};
use jj_bridge::models::Repository;
use jj_bridge::text::{format_i64, format_u64};

#[test]
fn log_without_limit_omits_the_flag() {
    let ex = JJExecutor::new();
    assert_eq!((ex.log(None)), vec!["log", "--no-graph", "-T", "json"]);
}

#[test]
fn log_with_limit_appends_it() {
    let ex = JJExecutor::new();
    assert_eq!(
        (ex.log(Some(5))),
        vec!["log", "--no-graph", "-T", "json", "-n", "5"]
    );
}

#[test]
fn repository_scope_prefixes_every_operation() {
    let ex = JJExecutor::with_repo("/repo/path".to_string());
    assert_eq!((ex.status()), vec!["--repository", "/repo/path", "status"]);
    assert_eq!(
        (ex.log(Some(10))),
        vec!["--repository", "/repo/path", "log", "--no-graph", "-T", "json", "-n", "10"]
    );
    assert_eq!(
        (ex.diff(Some("@"))),
        vec!["--repository", "/repo/path", "diff", "-r", "@"]
    );
    assert_eq!(
        (ex.git_fetch(None)),
        vec!["--repository", "/repo/path", "git", "fetch"]
    );
}

#[test]
fn unset_scope_never_emits_the_flag() {
    let ex = JJExecutor::new();
    for argv in [
        ex.status(),
        ex.log(None),
        ex.diff(None),
        ex.new_change(None),
        ex.describe("m", None),
        ex.bookmark_list(),
        ex.bookmark_create("b", None),
        ex.bookmark_track("b"),
        ex.bookmark_delete("b"),
        ex.git_fetch(None),
        ex.git_push(None),
    ] {
        assert!(!argv.contains(&"--repository".to_string()));
    }
}

#[test]
fn status_argv() {
    assert_eq!((JJExecutor::new().status()), vec!["status"]);
}

#[test]
fn init_argv() {
    assert_eq!((JJExecutor::init("/tmp/test-repo")), vec!["init", "/tmp/test-repo"]);
}

#[test]
fn diff_argv() {
    let ex = JJExecutor::new();
    assert_eq!((ex.diff(None)), vec!["diff"]);
    assert_eq!((ex.diff(Some("abc"))), vec!["diff", "-r", "abc"]);
}

#[test]
fn new_change_argv() {
    let ex = JJExecutor::new();
    assert_eq!((ex.new_change(None)), vec!["new"]);
    assert_eq!((ex.new_change(Some("Test change"))), vec!["new", "-m", "Test change"]);
}

#[test]
fn describe_argv() {
    let ex = JJExecutor::new();
    assert_eq!(
        (ex.describe("Test description", None)),
        vec!["describe", "-m", "Test description"]
    );
    assert_eq!(
        (ex.describe("msg", Some("xyz"))),
        vec!["describe", "-m", "msg", "-r", "xyz"]
    );
}

#[test]
fn bookmark_argv() {
    let ex = JJExecutor::new();
    assert_eq!((ex.bookmark_list()), vec!["bookmark", "list", "-T", "json"]);
    assert_eq!(
        (ex.bookmark_create("test-bookmark", None)),
        vec!["bookmark", "create", "test-bookmark"]
    );
    assert_eq!(
        (ex.bookmark_create("test-bookmark", Some("rev"))),
        vec!["bookmark", "create", "test-bookmark", "-r", "rev"]
    );
    assert_eq!(
        (ex.bookmark_track("main@origin")),
        vec!["bookmark", "track", "main@origin"]
    );
    assert_eq!(
        (ex.bookmark_delete("test-bookmark")),
        vec!["bookmark", "delete", "test-bookmark"]
    );
}

#[test]
fn git_argv() {
    let ex = JJExecutor::new();
    assert_eq!((ex.git_fetch(None)), vec!["git", "fetch"]);
    assert_eq!((ex.git_fetch(Some("origin"))), vec!["git", "fetch", "--remote", "origin"]);
    assert_eq!((ex.git_push(None)), vec!["git", "push"]);
    assert_eq!((ex.git_push(Some("main"))), vec!["git", "push", "--bookmark", "main"]);
}

#[test]
fn zero_exit_returns_decoded_stdout() {
    let out = classify_outcome(Some(0), b"all good".to_vec(), &Vec::new()).unwrap();
    assert_eq!(out, "all good");
}

#[test]
fn non_zero_exit_reports_status_and_stderr() {
    let err = classify_outcome(Some(1), Vec::new(), &b"boom happened".to_vec()).unwrap_err();
    match err {
        JJError::CommandFailed(m) => {
            assert_eq!(m, "JJ command failed with status 1: boom happened");
            assert!(m.contains("1"));
            assert!(m.contains("boom happened"));
        },
        other => panic!("expected a command failure, got {:?}", other),
    }
}

#[test]
fn negative_exit_code_is_rendered_signed() {
    let err = classify_outcome(Some(-9), Vec::new(), &b"killed".to_vec()).unwrap_err();
    match err {
        JJError::CommandFailed(m) => assert_eq!(m, "JJ command failed with status -9: killed"),
        other => panic!("expected a command failure, got {:?}", other),
    }
}

#[test]
fn signal_death_is_a_command_failure() {
    let err = classify_outcome(None, Vec::new(), &b"gone".to_vec()).unwrap_err();
    match err {
        JJError::CommandFailed(m) => assert_eq!(m, "JJ command failed with status signal: gone"),
        other => panic!("expected a command failure, got {:?}", other),
    }
}

#[test]
fn invalid_stdout_text_is_a_utf8_error() {
    let err = classify_outcome(Some(0), vec![0xff, 0xfe], &Vec::new()).unwrap_err();
    assert!(matches!(err, JJError::Utf8Error(_)));
}

#[test]
fn spawn_failure_keeps_its_own_prefix() {
    let err = spawn_failure_error("binary not found");
    match err {
        JJError::CommandFailed(m) => {
            assert_eq!(m, "Failed to execute jj command: binary not found");
        },
        other => panic!("expected a command failure, got {:?}", other),
    }
}

#[test]
fn valid_json_output_decodes() {
    let v = decode_json_output("[1, 2, 3]").unwrap();
    assert!(v.is_array());
}

#[test]
fn invalid_json_output_is_a_json_error() {
    let err = decode_json_output("not json at all").unwrap_err();
    assert!(matches!(err, JJError::JsonError(_)));
}

#[test]
fn decimal_rendering_is_exact() {
    assert_eq!(format_u64(0), "0");
    assert_eq!(format_u64(5), "5");
    assert_eq!(format_u64(10), "10");
    assert_eq!(format_u64(90210), "90210");
    assert_eq!(format_u64(u64::MAX), "18446744073709551615");
    assert_eq!(format_i64(0), "0");
    assert_eq!(format_i64(-17), "-17");
    assert_eq!(format_i64(i64::MIN), "-9223372036854775808");
}

#[test]
fn error_messages_carry_their_prefixes() {
    assert_eq!(JJError::CommandFailed("x".to_string()).message(), "JJ command failed: x");
    assert_eq!(JJError::ParseError("x".to_string()).message(), "Failed to parse JJ output: x");
    assert_eq!(
        JJError::RepositoryNotFound("p".to_string()).message(),
        "Repository not found at path: p"
    );
    assert_eq!(JJError::InvalidRepository("p".to_string()).message(), "Invalid repository: p");
    assert_eq!(JJError::IoError("x".to_string()).message(), "IO error: x");
    assert_eq!(JJError::JsonError("x".to_string()).message(), "JSON error: x");
    assert_eq!(JJError::Utf8Error("x".to_string()).message(), "UTF-8 error: x");
}

#[test]
fn repository_record_keeps_both_paths() {
    let r = Repository::new("/a".to_string(), "/a/wc".to_string());
    assert_eq!(r.path, "/a");
    assert_eq!(r.working_copy_path, "/a/wc");
}
