//! The session: the workspace initializer and the handling of document events.
use vstd::prelude::*;
use vstd::string::StringExecFns;
use crate::diagnostic::{outcome_diagnostics, outcome_translated, LintDiagnostic, LintFailure, ProtocolDiagnostic};
use crate::linter::{lintable_files, requests, FileOutcome, FolderLint, LintRequest};
use crate::store::{changed, DocumentStore};
use crate::text::{EditError, TextEdit};

verus! {

/// A diagnostic set to publish for one document, replacing the last one.
#[derive(Debug)]
pub struct Publication {
    pub uri: String,
    pub diagnostics: Vec<ProtocolDiagnostic>,
}

/// Where the workspace initializer stands.
#[derive(Clone, Copy, Debug, PartialEq, Eq, Structural)]
pub enum InitPhase {
    Uninitialized,
    ConfigResolving,
    Linting,
    Publishing,
    /// Initialization is done; documents are linted as they change.
    Ready,
    /// No workspace folder was given: nothing was linted or published.
    NoWorkspace,
}

/// How the configuration of a workspace is settled: the workspace folder
/// (empty where there is none), the configuration file to load, if any, and
/// the messages to log.
#[derive(Debug)]
pub struct ConfigPlan {
    pub root: String,
    pub load: Option<String>,
    pub messages: Vec<String>,
}

/// The first step of the initializer: the phase it reached and how the
/// configuration is to be settled.
#[derive(Debug)]
pub struct Initialization {
    pub phase: InitPhase,
    pub plan: ConfigPlan,
}

/// The URI of a file path.
pub open spec fn file_uri(path: Seq<char>) -> Seq<char> {
    "file://"@ + path
}

/// The configuration file looked for in a workspace folder.
pub open spec fn config_candidate(root: Seq<char>) -> Seq<char> {
    root + "/.solidhunter.json"@
}

/// `r` settles the configuration of the folder `root`, given whether its
/// configuration file is there: the file is loaded where it is there, else
/// the configuration stays as it is and one message says so.
pub open spec fn plans(root: Seq<char>, found: bool, r: ConfigPlan) -> bool {
    &&& r.root@ == root
    &&& found ==> (r.load matches Some(p) && p@ == config_candidate(root) && r.messages@.len()
        == 0)
    &&& !found ==> r.load is None && r.messages@.len() == 1
}

/// The plan where there is no workspace folder: nothing to load, one message.
pub open spec fn plans_nothing(r: ConfigPlan) -> bool {
    &&& r.root@.len() == 0
    &&& r.load is None
    &&& r.messages@.len() == 1
}

/// The text of `uri` in `m`, if it is there.
pub open spec fn stored(m: Map<Seq<char>, Seq<char>>, uri: Seq<char>) -> Option<Seq<char>> {
    if m.contains_key(uri) {
        Some(m[uri])
    } else {
        None
    }
}

/// `p` publishes `outcome` for `uri`.
pub open spec fn publishes(
    uri: Seq<char>,
    outcome: Result<Vec<LintDiagnostic>, LintFailure>,
    p: Publication,
) -> bool {
    p.uri@ == uri && outcome_translated(outcome, p.diagnostics@)
}

/// `ps` publishes each file outcome of `os`, in order, under the file's URI.
pub open spec fn publishes_all(os: Seq<FileOutcome>, ps: Seq<Publication>) -> bool {
    &&& ps.len() == os.len()
    &&& forall|i: int|
        0 <= i < ps.len() ==> publishes(file_uri(os[i].path@), os[i].outcome, #[trigger] ps[i])
}

/// The URI of the file at `path`.
pub fn file_uri_of(path: &str) -> (r: String)
    ensures
        r@ == file_uri(path@),
{
    "file://".to_owned().concat(path)
}

/// The configuration file looked for in the workspace folder `root`.
pub fn config_candidate_of(root: &str) -> (r: String)
    ensures
        r@ == config_candidate(root@),
{
    root.to_owned().concat("/.solidhunter.json")
}

/// The publication of `outcome` for `uri`.
pub fn publication_of(uri: String, outcome: &Result<Vec<LintDiagnostic>, LintFailure>) -> (r:
    Publication)
    ensures
        publishes(uri@, *outcome, r),
{
    Publication { uri, diagnostics: outcome_diagnostics(outcome) }
}

/// One publication per file outcome, in order, each under the file's URI
/// with the file's whole diagnostic set.
pub fn publications_for(outcomes: &Vec<FileOutcome>) -> (r: Vec<Publication>)
    ensures
        publishes_all(outcomes@, r@),
{
    let mut out: Vec<Publication> = Vec::new();
    for i in 0..outcomes.len()
        invariant
            out@.len() == i,
            forall|j: int|
                0 <= j < i ==> publishes(
                    file_uri(outcomes@[j].path@),
                    outcomes@[j].outcome,
                    #[trigger] out@[j],
                ),
    {
        let uri = file_uri_of(outcomes[i].path.as_str());
        out.push(publication_of(uri, &outcomes[i].outcome));
    }
    out
}

/// Relies on std's `Path::exists`: whether something is at `path` now.
#[verifier::external_body]
fn file_exists(path: &str) -> bool {
    std::path::Path::new(path).exists()
}

/// How the configuration of the folder `root` is settled, given whether its
/// configuration file is there.
pub fn resolve_config(root: &str, found: bool) -> (r: ConfigPlan)
    ensures
        plans(root@, found, r),
{
    let mut messages: Vec<String> = Vec::new();
    let load = if found {
        Some(config_candidate_of(root))
    } else {
        messages.push("No config file found.".to_owned());
        None
    };
    ConfigPlan { root: root.to_owned(), load, messages }
}

/// The open documents, the configuration in force, and the initializer's
/// progress.
pub struct Backend {
    documents: DocumentStore,
    config: Option<String>,
    pending_config: Option<String>,
    root: String,
    phase: InitPhase,
}

pub open spec fn view_of(s: Option<String>) -> Option<Seq<char>> {
    match s {
        Some(t) => Some(t@),
        None => None,
    }
}

impl Backend {
    pub closed spec fn wf(&self) -> bool {
        self.documents.wf()
    }

    /// The text of each open document, by URI.
    pub closed spec fn documents(&self) -> Map<Seq<char>, Seq<char>> {
        self.documents@
    }

    /// The configuration file in force, if one was loaded.
    pub closed spec fn config_path(&self) -> Option<Seq<char>> {
        view_of(self.config)
    }

    /// The configuration file being loaded, if any.
    pub closed spec fn pending_config(&self) -> Option<Seq<char>> {
        view_of(self.pending_config)
    }

    /// The workspace folder being initialized.
    pub closed spec fn root(&self) -> Seq<char> {
        self.root@
    }

    pub closed spec fn phase(&self) -> InitPhase {
        self.phase
    }

    /// A session with no open document, the default rules, and the
    /// initializer not yet run.
    pub fn new() -> (r: Backend)
        ensures
            r.wf(),
            r.documents() == Map::<Seq<char>, Seq<char>>::empty(),
            r.config_path() is None,
            r.pending_config() is None,
            r.phase() == InitPhase::Uninitialized,
    {
        Backend {
            documents: DocumentStore::new(),
            config: None,
            pending_config: None,
            root: String::new(),
            phase: InitPhase::Uninitialized,
        }
    }

    /// The initializer's phase.
    pub fn init_phase(&self) -> (r: InitPhase)
        ensures
            r == self.phase(),
    {
        self.phase
    }

    /// The configuration file in force, if one was loaded.
    pub fn configuration(&self) -> (r: Option<&String>)
        ensures
            match r {
                Some(c) => self.config_path() == Some(c@),
                None => self.config_path() is None,
            },
    {
        match &self.config {
            Some(c) => Some(c),
            None => None,
        }
    }

    /// The current text of `uri`.
    pub fn document_text(&self, uri: &String) -> (r: Option<&String>)
        requires
            self.wf(),
        ensures
            match r {
                Some(t) => self.documents().contains_key(uri@) && self.documents()[uri@] == t@,
                None => !self.documents().contains_key(uri@),
            },
    {
        self.documents.get(uri)
    }

    /// How the configuration of the first workspace folder is settled: its
    /// configuration file is loaded where it is there. Without a folder there
    /// is nothing to load and one message says so.
    pub fn init_config(&self, folders: &Vec<String>) -> (r: ConfigPlan)
        ensures
            folders@.len() == 0 ==> plans_nothing(r),
            folders@.len() > 0 ==> plans(folders@[0]@, true, r) || plans(folders@[0]@, false, r),
    {
        if folders.len() == 0 {
            let mut messages: Vec<String> = Vec::new();
            messages.push("No workspace folder found.".to_owned());
            return ConfigPlan { root: String::new(), load: None, messages };
        }
        let candidate = config_candidate_of(folders[0].as_str());
        let found = file_exists(candidate.as_str());
        resolve_config(folders[0].as_str(), found)
    }

    /// Starts the initializer, once. Without a workspace folder it stops in
    /// `NoWorkspace`. Otherwise it settles the configuration of the first
    /// folder: it waits in `ConfigResolving` for the file to be loaded where
    /// there is one, and goes on to `Linting` where there is none. Run a
    /// second time, it does nothing.
    pub fn initialized(&mut self, folders: &Vec<String>) -> (r: Initialization)
        requires
            old(self).wf(),
        ensures
            final(self).wf(),
            final(self).documents() == old(self).documents(),
            final(self).config_path() == old(self).config_path(),
            final(self).phase() == r.phase,
            old(self).phase() != InitPhase::Uninitialized ==> {
                &&& r.phase == old(self).phase()
                &&& r.plan.load is None
                &&& r.plan.messages@.len() == 0
                &&& final(self).pending_config() == old(self).pending_config()
                &&& final(self).root() == old(self).root()
            },
            old(self).phase() == InitPhase::Uninitialized && folders@.len() == 0 ==> {
                &&& r.phase == InitPhase::NoWorkspace
                &&& plans_nothing(r.plan)
            },
            old(self).phase() == InitPhase::Uninitialized && folders@.len() > 0 ==> {
                &&& plans(folders@[0]@, true, r.plan) || plans(folders@[0]@, false, r.plan)
                &&& r.phase == if r.plan.load is Some {
                    InitPhase::ConfigResolving
                } else {
                    InitPhase::Linting
                }
                &&& final(self).pending_config() == view_of(r.plan.load)
                &&& final(self).root() == folders@[0]@
            },
    {
        if self.phase != InitPhase::Uninitialized {
            let plan = ConfigPlan { root: String::new(), load: None, messages: Vec::new() };
            return Initialization { phase: self.phase, plan };
        }
        let plan = self.init_config(folders);
        if folders.len() == 0 {
            self.phase = InitPhase::NoWorkspace;
            return Initialization { phase: InitPhase::NoWorkspace, plan };
        }
        self.root = plan.root.clone();
        self.pending_config = match &plan.load {
            Some(p) => Some(p.clone()),
            None => None,
        };
        self.phase = match plan.load {
            Some(_) => InitPhase::ConfigResolving,
            None => InitPhase::Linting,
        };
        Initialization { phase: self.phase, plan }
    }

    /// Takes the result of loading the pending configuration file: the file
    /// is in force from now on where it loaded, and the configuration stays
    /// as it was where it did not, with the failure as the one message.
    pub fn config_loaded(&mut self, result: Result<(), LintFailure>) -> (r: Vec<String>)
        requires
            old(self).phase() == InitPhase::ConfigResolving,
            old(self).pending_config() is Some,
        ensures
            final(self).wf() == old(self).wf(),
            final(self).documents() == old(self).documents(),
            final(self).root() == old(self).root(),
            final(self).phase() == InitPhase::Linting,
            final(self).pending_config() is None,
            result is Ok ==> final(self).config_path() == old(self).pending_config()
                && r@.len() == 0,
            result matches Err(f) ==> final(self).config_path() == old(self).config_path()
                && r@.len() == 1 && r@[0]@ == f.message@,
    {
        let mut messages: Vec<String> = Vec::new();
        match result {
            Ok(()) => {
                self.config = self.pending_config.take();
            },
            Err(f) => {
                self.pending_config = None;
                messages.push(f.message);
            },
        }
        self.phase = InitPhase::Linting;
        messages
    }

    /// Lists the files of the workspace folder to lint, and moves on to
    /// `Publishing`.
    pub fn lint_workspace(&mut self) -> (r: FolderLint)
        requires
            old(self).phase() == InitPhase::Linting,
        ensures
            r.wf(),
            r.recorded().len() == 0,
            final(self).wf() == old(self).wf(),
            final(self).documents() == old(self).documents(),
            final(self).config_path() == old(self).config_path(),
            final(self).phase() == InitPhase::Publishing,
    {
        let files = lintable_files(self.root.as_str());
        self.phase = InitPhase::Publishing;
        FolderLint::new(files)
    }

    /// Publishes every outcome of the workspace lint, one publication per
    /// file under the file's URI, and ends the initializer in `Ready`.
    pub fn publish_workspace(&mut self, lint: FolderLint) -> (r: Vec<Publication>)
        requires
            old(self).phase() == InitPhase::Publishing,
            lint.wf(),
            lint.recorded().len() == lint.files().len(),
        ensures
            publishes_all(lint.recorded(), r@),
            r@.len() == lint.files().len(),
            final(self).wf() == old(self).wf(),
            final(self).documents() == old(self).documents(),
            final(self).config_path() == old(self).config_path(),
            final(self).phase() == InitPhase::Ready,
    {
        let outcomes = lint.finish();
        self.phase = InitPhase::Ready;
        publications_for(&outcomes)
    }

    /// The call of the linter on the stored text of `uri`, as the file at
    /// `path`; on the file on disk where no text is stored.
    fn lint_request(&self, uri: &String, path: &str) -> (r: LintRequest)
        requires
            self.wf(),
        ensures
            requests(r, path@, stored(self.documents(), uri@)),
    {
        let text = match self.documents.get(uri) {
            Some(t) => Some(t.clone()),
            None => None,
        };
        LintRequest { path: path.to_owned(), text }
    }

    /// A document was opened with `text`: stores it, and asks for that text
    /// to be linted.
    pub fn did_open(&mut self, uri: String, path: &str, text: String) -> (r: LintRequest)
        requires
            old(self).wf(),
        ensures
            final(self).wf(),
            final(self).documents() == old(self).documents().insert(uri@, text@),
            requests(r, path@, Some(text@)),
            final(self).config_path() == old(self).config_path(),
            final(self).phase() == old(self).phase(),
    {
        self.documents.put(uri.clone(), text);
        self.lint_request(&uri, path)
    }

    /// A document changed: applies the batch to its stored text, and asks
    /// for the new text to be linted. A rejected batch changes nothing.
    pub fn did_change(&mut self, uri: String, path: &str, edits: &Vec<TextEdit>) -> (r: Result<
        LintRequest,
        EditError,
    >)
        requires
            old(self).wf(),
        ensures
            final(self).wf(),
            final(self).config_path() == old(self).config_path(),
            final(self).phase() == old(self).phase(),
            r is Ok <==> changed(old(self).documents(), uri@, edits@) is Some,
            changed(old(self).documents(), uri@, edits@) matches Some(m) ==> final(self).documents()
                == m,
            r is Err ==> final(self).documents() == old(self).documents(),
            r matches Ok(q) ==> requests(q, path@, Some(final(self).documents()[uri@])),
    {
        match self.documents.apply_change(&uri, edits) {
            Ok(()) => Ok(self.lint_request(&uri, path)),
            Err(e) => Err(e),
        }
    }

    /// A document was saved, with its text where the client sent it: stores
    /// that text, and asks for the stored text to be linted (the file on
    /// disk where none is stored).
    pub fn did_save(&mut self, uri: String, path: &str, text: Option<String>) -> (r: LintRequest)
        requires
            old(self).wf(),
        ensures
            final(self).wf(),
            final(self).documents() == match text {
                Some(t) => old(self).documents().insert(uri@, t@),
                None => old(self).documents(),
            },
            requests(r, path@, stored(final(self).documents(), uri@)),
            final(self).config_path() == old(self).config_path(),
            final(self).phase() == old(self).phase(),
    {
        match text {
            Some(t) => self.documents.put(uri.clone(), t),
            None => {},
        }
        self.lint_request(&uri, path)
    }
    /// A document was closed: drops its text. Closing a document that is not
    /// open does nothing.
    pub fn did_close(&mut self, uri: &String)
        requires
            old(self).wf(),
        ensures
            final(self).wf(),
            final(self).documents() == old(self).documents().remove(uri@),
            final(self).config_path() == old(self).config_path(),
            final(self).phase() == old(self).phase(),
    {
        self.documents.remove(uri)
    }

    /// Files were deleted: drops the text of each.
    pub fn did_delete(&mut self, uris: &Vec<String>)
        requires
            old(self).wf(),
        ensures
            final(self).wf(),
            forall|k: Seq<char>|
                #[trigger] final(self).documents().contains_key(k) <==> (old(
                    self,
                ).documents().contains_key(k) && forall|i: int|
                    0 <= i < uris@.len() ==> uris@[i]@ != k),
            forall|k: Seq<char>|
                #[trigger] final(self).documents().contains_key(k) ==> final(self).documents()[k]
                    == old(self).documents()[k],
            final(self).config_path() == old(self).config_path(),
            final(self).phase() == old(self).phase(),
    {
        for i in 0..uris.len()
            invariant
                self.wf(),
                forall|k: Seq<char>|
                    #[trigger] self.documents().contains_key(k) <==> (old(
                        self,
                    ).documents().contains_key(k) && forall|j: int|
                        0 <= j < i ==> uris@[j]@ != k),
                forall|k: Seq<char>|
                    #[trigger] self.documents().contains_key(k) ==> self.documents()[k] == old(
                        self,
                    ).documents()[k],
                self.config_path() == old(self).config_path(),
                self.phase() == old(self).phase(),
        {
            let ghost prev = self.documents();
            self.documents.remove(&uris[i]);
            assert forall|k: Seq<char>|
                #[trigger] self.documents().contains_key(k) <==> (old(
                    self,
                ).documents().contains_key(k) && forall|j: int|
                    0 <= j < i + 1 ==> uris@[j]@ != k) by {
                if k != uris@[i as int]@ && prev.contains_key(k) {
                    assert forall|j: int| 0 <= j < i + 1 implies uris@[j]@ != k by {
                        if j < i {
                            assert(uris@[j]@ != k);
                        }
                    }
                }
            }
            assert forall|k: Seq<char>|
                #[trigger] self.documents().contains_key(k) implies self.documents()[k] == old(
                    self,
                ).documents()[k] by {
                assert(prev.contains_key(k));
            }
        }
    }
}

} // verus!
