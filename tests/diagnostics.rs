use solidhunter_ls::diagnostic::{
    outcome_diagnostics, translate, translate_failure, translate_severity, DiagnosticCode,
    DiagnosticSeverity, FailureKind, LintDiagnostic, LintFailure, LintPosition, LintRange,
    LintSeverity,
};
use solidhunter_ls::text::{Position, Range};

fn finding(severity: Option<LintSeverity>, message: &str) -> LintDiagnostic {
    LintDiagnostic {
        range: LintRange {
            start: LintPosition { line: 0, character: 13 },
            end: LintPosition { line: 0, character: 20 },
        },
        severity,
        code: None,
        source: None,
        message: message.to_string(),
    }
}

#[test]
fn warning_keeps_range_and_severity() {
    let p = translate(&finding(Some(LintSeverity::Warning), "uint x"));
    assert_eq!(
        p.range,
        Range { start: Position { line: 0, character: 13 }, end: Position { line: 0, character: 20 } }
    );
    assert_eq!(p.severity, DiagnosticSeverity::Warning);
    assert_eq!(p.severity.number(), 2);
    assert_eq!(p.message, "uint x");
}

#[test]
fn severity_mapping_is_ordered() {
    assert_eq!(translate_severity(Some(LintSeverity::Error)).number(), 1);
    assert_eq!(translate_severity(Some(LintSeverity::Warning)).number(), 2);
    assert_eq!(translate_severity(Some(LintSeverity::Info)).number(), 3);
    assert_eq!(translate_severity(Some(LintSeverity::Hint)).number(), 4);
}

#[test]
fn unrecognized_severity_is_an_error() {
    assert_eq!(translate_severity(None), DiagnosticSeverity::Error);
}

#[test]
fn code_and_source_are_kept() {
    let mut d = finding(Some(LintSeverity::Hint), "m");
    d.code = Some(DiagnosticCode::Text("rule-x".to_string()));
    d.source = Some("solidhunter".to_string());
    let p = translate(&d);
    assert!(matches!(p.code, Some(DiagnosticCode::Text(ref t)) if t == "rule-x"));
    assert_eq!(p.source, Some("solidhunter".to_string()));
}

#[test]
fn large_positions_saturate() {
    let mut d = finding(None, "far");
    d.range.end = LintPosition { line: usize::MAX, character: 5_000_000_000 };
    let p = translate(&d);
    assert_eq!(p.range.end, Position { line: u32::MAX, character: u32::MAX });
}

#[test]
fn failure_is_anchored_at_file_start() {
    let f = LintFailure { kind: FailureKind::Io, message: "cannot read".to_string() };
    let p = translate_failure(&f);
    assert_eq!(
        p.range,
        Range { start: Position { line: 0, character: 0 }, end: Position { line: 0, character: 1 } }
    );
    assert_eq!(p.severity, DiagnosticSeverity::Error);
    assert_eq!(p.message, "cannot read");
}

#[test]
fn outcome_with_findings_translates_each() {
    let ds = outcome_diagnostics(&Ok(vec![
        finding(Some(LintSeverity::Error), "a"),
        finding(Some(LintSeverity::Info), "b"),
    ]));
    assert_eq!(ds.len(), 2);
    assert_eq!(ds[0].message, "a");
    assert_eq!(ds[1].severity, DiagnosticSeverity::Information);
}

#[test]
fn clean_outcome_gives_empty_set() {
    assert_eq!(outcome_diagnostics(&Ok(vec![])).len(), 0);
}

#[test]
fn failed_outcome_gives_one_diagnostic() {
    let f = LintFailure { kind: FailureKind::Parse, message: "bad".to_string() };
    let ds = outcome_diagnostics(&Err(f));
    assert_eq!(ds.len(), 1);
    assert_eq!(ds[0].severity, DiagnosticSeverity::Error);
}
