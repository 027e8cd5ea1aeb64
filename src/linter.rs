//! What is handed to the linter, and the collection of its outcomes. The
//! linter itself can panic on some configurations and sources, so the
//! caller runs it and hands each outcome back.
use vstd::prelude::*;
use vstd::string::StringExecFns;
use crate::diagnostic::{LintDiagnostic, LintFailure};

verus! {

/// One call of the linter: the file at `path`, with `text` as its content
/// where it is given, else with what is on disk.
#[derive(Debug)]
pub struct LintRequest {
    pub path: String,
    pub text: Option<String>,
}

/// The lint outcome of one file.
#[derive(Debug)]
pub struct FileOutcome {
    pub path: String,
    pub outcome: Result<Vec<LintDiagnostic>, LintFailure>,
}

/// `r` lints the file at `path` with the content `text`, or with what is on
/// disk where `text` is `None`.
pub open spec fn requests(r: LintRequest, path: Seq<char>, text: Option<Seq<char>>) -> bool {
    &&& r.path@ == path
    &&& match (r.text, text) {
        (Some(a), Some(b)) => a@ == b,
        (None, None) => true,
        _ => false,
    }
}

/// The pattern of the files linted under the folder `root`.
pub open spec fn lint_pattern(root: Seq<char>) -> Seq<char> {
    root + "/**/*.sol"@
}

/// Relies on `glob::glob`: the paths that match `pattern`. A malformed
/// pattern, or an entry that cannot be read, contributes none.
#[verifier::external_body]
fn glob_paths(pattern: &str) -> Vec<String> {
    let mut found: Vec<String> = Vec::new();
    if let Ok(entries) = glob::glob(pattern) {
        for path in entries.flatten() {
            found.push(path.to_string_lossy().into_owned());
        }
    }
    found
}

/// The pattern of the files linted under the folder `root`.
pub fn lint_pattern_of(root: &str) -> (r: String)
    ensures
        r@ == lint_pattern(root@),
{
    root.to_owned().concat("/**/*.sol")
}

/// The Solidity files under the folder `root`, as the file system has them now.
pub fn lintable_files(root: &str) -> Vec<String> {
    let pattern = lint_pattern_of(root);
    glob_paths(pattern.as_str())
}

/// A folder lint in progress: the files to lint, in order, and the outcomes
/// of those linted so far.
pub struct FolderLint {
    paths: Vec<String>,
    outcomes: Vec<FileOutcome>,
}

impl FolderLint {
    /// The files to lint.
    pub closed spec fn files(&self) -> Seq<String> {
        self.paths@
    }

    /// The outcomes recorded so far, one for each of the first files.
    pub closed spec fn recorded(&self) -> Seq<FileOutcome> {
        self.outcomes@
    }

    pub closed spec fn wf(&self) -> bool {
        &&& self.outcomes@.len() <= self.paths@.len()
        &&& forall|i: int|
            0 <= i < self.outcomes@.len() ==> (#[trigger] self.outcomes@[i]).path@
                == self.paths@[i]@
    }

    /// A folder lint of `paths`, with nothing linted yet.
    pub fn new(paths: Vec<String>) -> (r: FolderLint)
        ensures
            r.wf(),
            r.files() == paths@,
            r.recorded().len() == 0,
    {
        FolderLint { paths, outcomes: Vec::new() }
    }

    /// Whether every file has its outcome.
    pub fn is_complete(&self) -> (r: bool)
        requires
            self.wf(),
        ensures
            r == (self.recorded().len() == self.files().len()),
    {
        self.outcomes.len() == self.paths.len()
    }

    /// The next call of the linter: the first file without an outcome, read
    /// from disk; `None` once every file has one.
    pub fn next_request(&self) -> (r: Option<LintRequest>)
        requires
            self.wf(),
        ensures
            self.recorded().len() < self.files().len() ==> (r matches Some(q) && requests(
                q,
                self.files()[self.recorded().len() as int]@,
                None,
            )),
            self.recorded().len() == self.files().len() ==> r is None,
    {
        if self.outcomes.len() < self.paths.len() {
            Some(LintRequest { path: self.paths[self.outcomes.len()].clone(), text: None })
        } else {
            None
        }
    }

    /// Records the outcome of the next file, failure or not; the files after
    /// it still come in turn.
    pub fn record(&mut self, outcome: Result<Vec<LintDiagnostic>, LintFailure>)
        requires
            old(self).wf(),
            old(self).recorded().len() < old(self).files().len(),
        ensures
            final(self).wf(),
            final(self).files() == old(self).files(),
            final(self).recorded().len() == old(self).recorded().len() + 1,
            forall|i: int|
                0 <= i < old(self).recorded().len() ==> #[trigger] final(self).recorded()[i] == old(
                    self,
                ).recorded()[i],
            final(self).recorded().last().outcome == outcome,
            final(self).recorded().last().path@ == old(self).files()[old(
                self,
            ).recorded().len() as int]@,
    {
        let path = self.paths[self.outcomes.len()].clone();
        self.outcomes.push(FileOutcome { path, outcome });
    }

    /// The outcomes, one per file, in the order of the files.
    pub fn finish(self) -> (r: Vec<FileOutcome>)
        requires
            self.wf(),
            self.recorded().len() == self.files().len(),
        ensures
            r@ == self.recorded(),
            r@.len() == self.files().len(),
            forall|i: int| 0 <= i < r@.len() ==> (#[trigger] r@[i]).path@ == self.files()[i]@,
    {
        self.outcomes
    }
}

/// Every file of a folder lint gets exactly one outcome, in order, whatever
/// the outcomes of the files before it: a failure on one file is recorded
/// and stops none of the others.
pub proof fn lemma_one_outcome_per_file(f: FolderLint)
    requires
        f.wf(),
        f.recorded().len() == f.files().len(),
    ensures
        forall|i: int|
            0 <= i < f.files().len() ==> (#[trigger] f.recorded()[i]).path@ == f.files()[i]@,
{
}

} // verus!
