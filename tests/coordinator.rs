use solidhunter_ls::diagnostic::{outcome_diagnostics, DiagnosticSeverity, FailureKind, LintFailure};
use solidhunter_ls::linter::{lint_pattern_of, lintable_files, FolderLint};
use solidhunter_ls::text::{Position, Range};

fn failure(kind: FailureKind, message: &str) -> LintFailure {
    LintFailure { kind, message: message.to_string() }
}

#[test]
fn missing_file_failure_gives_one_error_at_file_start() {
    let ds = outcome_diagnostics(&Err(failure(FailureKind::Io, "No such file or directory")));
    assert_eq!(ds.len(), 1);
    assert_eq!(
        ds[0].range,
        Range { start: Position { line: 0, character: 0 }, end: Position { line: 0, character: 1 } }
    );
    assert_eq!(ds[0].severity, DiagnosticSeverity::Error);
    assert_eq!(ds[0].message, "No such file or directory");
}

#[test]
fn folder_lint_keeps_going_after_a_failure() {
    let paths = vec!["/w/bad.sol".to_string(), "/w/a.sol".to_string(), "/w/b.sol".to_string()];
    let mut lint = FolderLint::new(paths.clone());
    let first = lint.next_request().unwrap();
    assert_eq!(first.path, "/w/bad.sol");
    assert_eq!(first.text, None);
    lint.record(Err(failure(FailureKind::Parse, "unparsable")));
    assert_eq!(lint.next_request().unwrap().path, "/w/a.sol");
    lint.record(Ok(vec![]));
    assert_eq!(lint.next_request().unwrap().path, "/w/b.sol");
    assert!(!lint.is_complete());
    lint.record(Ok(vec![]));
    assert!(lint.is_complete());
    assert!(lint.next_request().is_none());
    let outs = lint.finish();
    assert_eq!(outs.len(), 3);
    for (o, p) in outs.iter().zip(paths.iter()) {
        assert_eq!(&o.path, p);
    }
    assert!(outs[0].outcome.is_err());
    assert!(outs[1].outcome.is_ok());
    assert!(outs[2].outcome.is_ok());
}

#[test]
fn empty_folder_lint_is_complete() {
    let lint = FolderLint::new(vec![]);
    assert!(lint.is_complete());
    assert_eq!(lint.finish().len(), 0);
}

#[test]
fn lint_pattern_covers_nested_solidity_files() {
    assert_eq!(lint_pattern_of("/w"), "/w/**/*.sol");
}

#[test]
fn missing_folder_has_no_files() {
    assert_eq!(lintable_files("/nonexistent-dir-for-lint-tests").len(), 0);
}
