//! Linter findings and their translation into protocol diagnostics.
use vstd::prelude::*;
use crate::text::{Position, Range};

verus! {

/// Severity of a finding as the linter reports it.
#[derive(Clone, Copy, Debug, PartialEq, Eq, Structural)]
pub enum LintSeverity {
    Error,
    Warning,
    Info,
    Hint,
}

/// Severity of a diagnostic as the protocol encodes it.
#[derive(Clone, Copy, Debug, PartialEq, Eq, Structural)]
pub enum DiagnosticSeverity {
    Error,
    Warning,
    Information,
    Hint,
}

/// A machine-readable diagnostic code.
#[derive(Debug)]
pub enum DiagnosticCode {
    Number(i32),
    Text(String),
}

/// A position as the linter reports it.
#[derive(Clone, Copy, Debug, PartialEq, Eq, Structural)]
pub struct LintPosition {
    pub line: usize,
    pub character: usize,
}

/// A range as the linter reports it.
#[derive(Clone, Copy, Debug, PartialEq, Eq, Structural)]
pub struct LintRange {
    pub start: LintPosition,
    pub end: LintPosition,
}

/// One finding of the linter. A severity of `None` is one the linter gave
/// that is not recognized.
#[derive(Debug)]
pub struct LintDiagnostic {
    pub range: LintRange,
    pub severity: Option<LintSeverity>,
    pub code: Option<DiagnosticCode>,
    pub source: Option<String>,
    pub message: String,
}

/// What went wrong when a file could not be linted.
#[derive(Clone, Copy, Debug, PartialEq, Eq, Structural)]
pub enum FailureKind {
    /// The file could not be read.
    Io,
    /// The linter could not parse the file, or its configuration.
    Parse,
    /// The linter failed internally.
    Linter,
}

/// A failure to lint one file.
#[derive(Debug)]
pub struct LintFailure {
    pub kind: FailureKind,
    pub message: String,
}

/// A diagnostic ready to be published.
#[derive(Debug)]
pub struct ProtocolDiagnostic {
    pub range: Range,
    pub severity: DiagnosticSeverity,
    pub code: Option<DiagnosticCode>,
    pub source: Option<String>,
    pub message: String,
}

/// Severity mapping: an unrecognized severity counts as an error.
pub open spec fn protocol_severity(s: Option<LintSeverity>) -> DiagnosticSeverity {
    match s {
        Some(LintSeverity::Warning) => DiagnosticSeverity::Warning,
        Some(LintSeverity::Info) => DiagnosticSeverity::Information,
        Some(LintSeverity::Hint) => DiagnosticSeverity::Hint,
        _ => DiagnosticSeverity::Error,
    }
}

/// The protocol's number for a severity: 1 is the most urgent.
pub open spec fn severity_number(s: DiagnosticSeverity) -> u32 {
    match s {
        DiagnosticSeverity::Error => 1,
        DiagnosticSeverity::Warning => 2,
        DiagnosticSeverity::Information => 3,
        DiagnosticSeverity::Hint => 4,
    }
}

/// `n`, or the largest `u32` where `n` does not fit.
pub open spec fn clamp_u32(n: usize) -> u32 {
    if n > u32::MAX {
        u32::MAX
    } else {
        n as u32
    }
}

pub open spec fn protocol_position(p: LintPosition) -> Position {
    Position { line: clamp_u32(p.line), character: clamp_u32(p.character) }
}

pub open spec fn protocol_range(r: LintRange) -> Range {
    Range { start: protocol_position(r.start), end: protocol_position(r.end) }
}

/// Two codes say the same.
pub open spec fn same_code(a: Option<DiagnosticCode>, b: Option<DiagnosticCode>) -> bool {
    match (a, b) {
        (None, None) => true,
        (Some(DiagnosticCode::Number(x)), Some(DiagnosticCode::Number(y))) => x == y,
        (Some(DiagnosticCode::Text(x)), Some(DiagnosticCode::Text(y))) => x@ == y@,
        _ => false,
    }
}

/// Two optional texts say the same.
pub open spec fn same_text(a: Option<String>, b: Option<String>) -> bool {
    match (a, b) {
        (None, None) => true,
        (Some(x), Some(y)) => x@ == y@,
        _ => false,
    }
}

/// `p` is the protocol form of the finding `d`.
pub open spec fn translates(d: LintDiagnostic, p: ProtocolDiagnostic) -> bool {
    &&& p.range == protocol_range(d.range)
    &&& p.severity == protocol_severity(d.severity)
    &&& same_code(d.code, p.code)
    &&& same_text(d.source, p.source)
    &&& p.message@ == d.message@
}

/// The range that a file-level failure is shown at: the first character.
pub open spec fn file_start() -> Range {
    Range { start: Position { line: 0, character: 0 }, end: Position { line: 0, character: 1 } }
}

/// `p` is the diagnostic that stands for the failure `f`.
pub open spec fn reports_failure(f: LintFailure, p: ProtocolDiagnostic) -> bool {
    &&& p.range == file_start()
    &&& p.severity == DiagnosticSeverity::Error
    &&& p.code is None
    &&& p.source is None
    &&& p.message@ == f.message@
}

/// `ps` is the diagnostic set published for `outcome`: each finding
/// translated in order, or the one diagnostic that reports the failure.
pub open spec fn outcome_translated(
    outcome: Result<Vec<LintDiagnostic>, LintFailure>,
    ps: Seq<ProtocolDiagnostic>,
) -> bool {
    match outcome {
        Ok(ds) => {
            &&& ps.len() == ds@.len()
            &&& forall|i: int| 0 <= i < ps.len() ==> translates(#[trigger] ds@[i], ps[i])
        },
        Err(f) => ps.len() == 1 && reports_failure(f, ps[0]),
    }
}

impl DiagnosticSeverity {
    /// The protocol's number for this severity.
    pub fn number(&self) -> (r: u32)
        ensures
            r == severity_number(*self),
    {
        match self {
            DiagnosticSeverity::Error => 1,
            DiagnosticSeverity::Warning => 2,
            DiagnosticSeverity::Information => 3,
            DiagnosticSeverity::Hint => 4,
        }
    }
}

impl DiagnosticCode {
    /// A copy of this code.
    pub fn duplicate(&self) -> (r: DiagnosticCode)
        ensures
            same_code(Some(*self), Some(r)),
    {
        match self {
            DiagnosticCode::Number(n) => DiagnosticCode::Number(*n),
            DiagnosticCode::Text(s) => DiagnosticCode::Text(s.clone()),
        }
    }
}

/// Maps a linter severity to the protocol's.
pub fn translate_severity(s: Option<LintSeverity>) -> (r: DiagnosticSeverity)
    ensures
        r == protocol_severity(s),
{
    match s {
        Some(LintSeverity::Warning) => DiagnosticSeverity::Warning,
        Some(LintSeverity::Info) => DiagnosticSeverity::Information,
        Some(LintSeverity::Hint) => DiagnosticSeverity::Hint,
        _ => DiagnosticSeverity::Error,
    }
}

fn clamp(n: usize) -> (r: u32)
    ensures
        r == clamp_u32(n),
{
    if n > u32::MAX as usize {
        u32::MAX
    } else {
        n as u32
    }
}

fn translate_position(p: LintPosition) -> (r: Position)
    ensures
        r == protocol_position(p),
{
    Position { line: clamp(p.line), character: clamp(p.character) }
}

/// The protocol form of one finding.
pub fn translate(d: &LintDiagnostic) -> (r: ProtocolDiagnostic)
    ensures
        translates(*d, r),
{
    let code = match &d.code {
        Some(c) => Some(c.duplicate()),
        None => None,
    };
    let source = match &d.source {
        Some(s) => Some(s.clone()),
        None => None,
    };
    ProtocolDiagnostic {
        range: Range {
            start: translate_position(d.range.start),
            end: translate_position(d.range.end),
        },
        severity: translate_severity(d.severity),
        code,
        source,
        message: d.message.clone(),
    }
}

/// The single diagnostic that makes a file-level failure visible: an error
/// on the first character of the file, carrying the failure's message.
pub fn translate_failure(f: &LintFailure) -> (r: ProtocolDiagnostic)
    ensures
        reports_failure(*f, r),
{
    ProtocolDiagnostic {
        range: Range {
            start: Position { line: 0, character: 0 },
            end: Position { line: 0, character: 1 },
        },
        severity: DiagnosticSeverity::Error,
        code: None,
        source: None,
        message: f.message.clone(),
    }
}

/// The diagnostic set to publish for one file's lint outcome.
pub fn outcome_diagnostics(outcome: &Result<Vec<LintDiagnostic>, LintFailure>) -> (r: Vec<
    ProtocolDiagnostic,
>)
    ensures
        outcome_translated(*outcome, r@),
{
    match outcome {
        Ok(ds) => {
            let mut out: Vec<ProtocolDiagnostic> = Vec::new();
            for i in 0..ds.len()
                invariant
                    out@.len() == i,
                    forall|j: int| 0 <= j < i ==> translates(#[trigger] ds@[j], out@[j]),
            {
                out.push(translate(&ds[i]));
            }
            out
        },
        Err(f) => {
            let mut out: Vec<ProtocolDiagnostic> = Vec::new();
            out.push(translate_failure(f));
            out
        },
    }
}

} // verus!
