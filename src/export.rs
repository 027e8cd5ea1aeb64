//! A fixed-size table of diagnostic records for callers that want one
//! record per slot rather than a list.
use vstd::prelude::*;
use crate::diagnostic::{LintDiagnostic, LintFailure, LintSeverity};

verus! {

/// Number of records in a table.
pub const TABLE_SLOTS: usize = 100;

/// One record of a table. A blank record has every number at -1 and an
/// empty message; its `empty` flag stays unset, as in a filled record.
#[allow(non_camel_case_types)]
#[derive(Debug)]
pub struct VSSolid_Diag {
    pub empty: bool,
    pub start_line: i64,
    pub start_char: i64,
    pub end_line: i64,
    pub end_char: i64,
    pub severity: i64,
    pub message: String,
}

/// `n`, or the largest `i64` where `n` does not fit.
pub open spec fn clamp_i64(n: usize) -> i64 {
    if n > i64::MAX {
        i64::MAX
    } else {
        n as i64
    }
}

/// The number of a linter severity, 1 for an error to 4 for a hint; an
/// unrecognized severity counts as an error.
pub open spec fn severity_code(s: Option<LintSeverity>) -> i64 {
    match s {
        Some(LintSeverity::Warning) => 2,
        Some(LintSeverity::Info) => 3,
        Some(LintSeverity::Hint) => 4,
        _ => 1,
    }
}

/// `r` is the record of the finding `d`.
pub open spec fn records(d: LintDiagnostic, r: VSSolid_Diag) -> bool {
    &&& !r.empty
    &&& r.start_line == clamp_i64(d.range.start.line)
    &&& r.start_char == clamp_i64(d.range.start.character)
    &&& r.end_line == clamp_i64(d.range.end.line)
    &&& r.end_char == clamp_i64(d.range.end.character)
    &&& r.severity == severity_code(d.severity)
    &&& r.message@ == d.message@
}

/// `r` is the record of the failure `f`: an error on the first character.
pub open spec fn records_failure(f: LintFailure, r: VSSolid_Diag) -> bool {
    &&& !r.empty
    &&& r.start_line == 0 && r.start_char == 0
    &&& r.end_line == 0 && r.end_char == 1
    &&& r.severity == 1
    &&& r.message@ == f.message@
}

pub open spec fn is_blank(r: VSSolid_Diag) -> bool {
    &&& !r.empty
    &&& r.start_line == -1 && r.start_char == -1
    &&& r.end_line == -1 && r.end_char == -1
    &&& r.severity == -1
    &&& r.message@.len() == 0
}

/// `t` is the table of `outcome`: the records of the first findings, or of
/// the failure, then blank records up to `TABLE_SLOTS`.
pub open spec fn tabulates(outcome: Result<Vec<LintDiagnostic>, LintFailure>, t: Seq<VSSolid_Diag>) -> bool {
    &&& t.len() == TABLE_SLOTS
    &&& match outcome {
        Ok(ds) => {
            &&& forall|i: int| 0 <= i < ds@.len() && i < TABLE_SLOTS ==> records(ds@[i], #[trigger] t[i])
            &&& forall|i: int| ds@.len() <= i < TABLE_SLOTS ==> is_blank(#[trigger] t[i])
        },
        Err(f) => {
            &&& records_failure(f, t[0])
            &&& forall|i: int| 1 <= i < TABLE_SLOTS ==> is_blank(#[trigger] t[i])
        },
    }
}

fn clamp(n: usize) -> (r: i64)
    ensures
        r == clamp_i64(n),
{
    let m: u64 = n as u64;
    if m > i64::MAX as u64 {
        i64::MAX
    } else {
        m as i64
    }
}

impl VSSolid_Diag {
    /// The record of one finding.
    pub fn from(diag: LintDiagnostic) -> (r: VSSolid_Diag)
        ensures
            records(diag, r),
    {
        let severity: i64 = match diag.severity {
            Some(LintSeverity::Warning) => 2,
            Some(LintSeverity::Info) => 3,
            Some(LintSeverity::Hint) => 4,
            _ => 1,
        };
        VSSolid_Diag {
            empty: false,
            start_line: clamp(diag.range.start.line),
            start_char: clamp(diag.range.start.character),
            end_line: clamp(diag.range.end.line),
            end_char: clamp(diag.range.end.character),
            severity,
            message: diag.message,
        }
    }

    /// A blank record.
    pub fn empty() -> (r: VSSolid_Diag)
        ensures
            is_blank(r),
    {
        VSSolid_Diag {
            empty: false,
            start_line: -1,
            start_char: -1,
            end_line: -1,
            end_char: -1,
            severity: -1,
            message: String::new(),
        }
    }

    /// The record of a failure to lint a file.
    pub fn failure(f: LintFailure) -> (r: VSSolid_Diag)
        ensures
            records_failure(f, r),
    {
        VSSolid_Diag {
            empty: false,
            start_line: 0,
            start_char: 0,
            end_line: 0,
            end_char: 1,
            severity: 1,
            message: f.message,
        }
    }
}

/// The table of one lint outcome. Findings past the last slot are left out.
pub fn diag_table(outcome: Result<Vec<LintDiagnostic>, LintFailure>) -> (r: Vec<VSSolid_Diag>)
    ensures
        tabulates(outcome, r@),
{
    let mut table: Vec<VSSolid_Diag> = Vec::new();
    match outcome {
        Ok(ds) => {
            let ghost all = ds@;
            let mut rest = ds;
            while table.len() < TABLE_SLOTS && rest.len() > 0
                invariant
                    table@.len() <= TABLE_SLOTS,
                    table@.len() <= all.len(),
                    rest@ == all.subrange(table@.len() as int, all.len() as int),
                    forall|i: int| 0 <= i < table@.len() ==> records(all[i], #[trigger] table@[i]),
                decreases rest@.len(),
            {
                let d = rest.remove(0);
                table.push(VSSolid_Diag::from(d));
            }
            while table.len() < TABLE_SLOTS
                invariant
                    table@.len() <= TABLE_SLOTS,
                    table@.len() < TABLE_SLOTS ==> table@.len() >= all.len(),
                    forall|i: int|
                        0 <= i < table@.len() && i < all.len() ==> records(all[i], #[trigger] table@[i]),
                    forall|i: int| all.len() <= i < table@.len() ==> is_blank(#[trigger] table@[i]),
                decreases TABLE_SLOTS - table@.len(),
            {
                table.push(VSSolid_Diag::empty());
            }
        },
        Err(f) => {
            table.push(VSSolid_Diag::failure(f));
            while table.len() < TABLE_SLOTS
                invariant
                    1 <= table@.len() <= TABLE_SLOTS,
                    records_failure(f, table@[0]),
                    forall|i: int| 1 <= i < table@.len() ==> is_blank(#[trigger] table@[i]),
                decreases TABLE_SLOTS - table@.len(),
            {
                table.push(VSSolid_Diag::empty());
            }
        },
    }
    table
}

} // verus!
