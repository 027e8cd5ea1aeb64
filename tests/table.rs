use solidhunter_ls::diagnostic::{FailureKind, LintDiagnostic, LintFailure, LintPosition, LintRange, LintSeverity};
use solidhunter_ls::export::{diag_table, VSSolid_Diag, TABLE_SLOTS};

fn finding(line: usize, message: &str) -> LintDiagnostic {
    LintDiagnostic {
        range: LintRange { start: LintPosition { line, character: 2 }, end: LintPosition { line, character: 9 } },
        severity: Some(LintSeverity::Warning),
        code: None,
        source: None,
        message: message.to_string(),
    }
}

#[test]
fn record_of_a_finding() {
    let r = VSSolid_Diag::from(finding(3, "m"));
    assert!(!r.empty);
    assert_eq!((r.start_line, r.start_char, r.end_line, r.end_char), (3, 2, 3, 9));
    assert_eq!(r.severity, 2);
    assert_eq!(r.message, "m");
}

#[test]
fn blank_record() {
    let r = VSSolid_Diag::empty();
    assert!(!r.empty);
    assert_eq!((r.start_line, r.start_char, r.end_line, r.end_char, r.severity), (-1, -1, -1, -1, -1));
    assert_eq!(r.message, "");
}

#[test]
fn table_of_findings_is_padded() {
    let t = diag_table(Ok(vec![finding(1, "a"), finding(2, "b")]));
    assert_eq!(t.len(), TABLE_SLOTS);
    assert_eq!(t[0].message, "a");
    assert_eq!(t[1].start_line, 2);
    assert_eq!((t[2].start_line, t[2].severity), (-1, -1));
    assert_eq!(t[TABLE_SLOTS - 1].severity, -1);
}

#[test]
fn table_keeps_only_the_first_slots() {
    let many: Vec<LintDiagnostic> = (0..150).map(|i| finding(i, "x")).collect();
    let t = diag_table(Ok(many));
    assert_eq!(t.len(), TABLE_SLOTS);
    assert_eq!(t[TABLE_SLOTS - 1].start_line, (TABLE_SLOTS - 1) as i64);
    assert_eq!(t[TABLE_SLOTS - 1].severity, 2);
}

#[test]
fn table_of_a_failure() {
    let t = diag_table(Err(LintFailure { kind: FailureKind::Linter, message: "boom".to_string() }));
    assert_eq!(t.len(), TABLE_SLOTS);
    assert_eq!((t[0].start_line, t[0].start_char, t[0].end_line, t[0].end_char), (0, 0, 0, 1));
    assert_eq!(t[0].severity, 1);
    assert_eq!(t[0].message, "boom");
    assert_eq!((t[1].start_line, t[1].severity), (-1, -1));
}
