//! The current text of every open document, keyed by its URI.
use vstd::prelude::*;
use crate::text::{applied, apply_changes, EditError, TextEdit};

verus! {

/// The text that a change batch is applied to: the document's text, or the
/// empty text for a document that is not in the store.
pub open spec fn base_text(m: Map<Seq<char>, Seq<char>>, uri: Seq<char>) -> Seq<char> {
    if m.contains_key(uri) {
        m[uri]
    } else {
        Seq::empty()
    }
}

/// The store after a change batch on `uri`, or `None` where the batch is
/// rejected.
pub open spec fn changed(m: Map<Seq<char>, Seq<char>>, uri: Seq<char>, edits: Seq<TextEdit>) -> Option<
    Map<Seq<char>, Seq<char>>,
> {
    match applied(base_text(m, uri), edits) {
        Some(t) => Some(m.insert(uri, t)),
        None => None,
    }
}

/// Maps each document's URI to its current text.
pub struct DocumentStore {
    entries: Vec<(String, String)>,
    model: Ghost<Map<Seq<char>, Seq<char>>>,
}

impl View for DocumentStore {
    type V = Map<Seq<char>, Seq<char>>;

    closed spec fn view(&self) -> Self::V {
        self.model@
    }
}

impl DocumentStore {
    /// The entries hold each URI once and agree with the model.
    pub closed spec fn wf(&self) -> bool {
        &&& forall|i: int, j: int|
            0 <= i < j < self.entries@.len() ==> (#[trigger] self.entries@[i]).0@
                != (#[trigger] self.entries@[j]).0@
        &&& forall|i: int|
            0 <= i < self.entries@.len() ==> self.model@.contains_key(
                (#[trigger] self.entries@[i]).0@,
            ) && self.model@[self.entries@[i].0@] == self.entries@[i].1@
        &&& forall|k: Seq<char>|
            #[trigger] self.model@.contains_key(k) ==> exists|i: int|
                0 <= i < self.entries@.len() && (#[trigger] self.entries@[i]).0@ == k
    }

    /// An empty store.
    pub fn new() -> (r: DocumentStore)
        ensures
            r.wf(),
            r@ == Map::<Seq<char>, Seq<char>>::empty(),
    {
        DocumentStore { entries: Vec::new(), model: Ghost(Map::empty()) }
    }

    /// The index of the entry for `uri`, if there is one.
    fn find(&self, uri: &String) -> (r: Option<usize>)
        requires
            self.wf(),
        ensures
            match r {
                Some(i) => i < self.entries@.len() && self.entries@[i as int].0@ == uri@,
                None => !self@.contains_key(uri@),
            },
    {
        for i in 0..self.entries.len()
            invariant
                self.wf(),
                forall|j: int| 0 <= j < i ==> (#[trigger] self.entries@[j]).0@ != uri@,
        {
            if self.entries[i].0 == *uri {
                return Some(i);
            }
        }
        None
    }

    /// The current text of `uri`.
    pub fn get(&self, uri: &String) -> (r: Option<&String>)
        requires
            self.wf(),
        ensures
            match r {
                Some(t) => self@.contains_key(uri@) && self@[uri@] == t@,
                None => !self@.contains_key(uri@),
            },
    {
        match self.find(uri) {
            Some(i) => Some(&self.entries[i].1),
            None => None,
        }
    }

    /// Sets the text of `uri`, replacing any text it had.
    pub fn put(&mut self, uri: String, text: String)
        requires
            old(self).wf(),
        ensures
            final(self).wf(),
            final(self)@ == old(self)@.insert(uri@, text@),
    {
        let ghost m = self.model@.insert(uri@, text@);
        let ghost key = uri@;
        let ghost at: int;
        match self.find(&uri) {
            Some(i) => {
                self.entries.set(i, (uri, text));
                proof {
                    at = i as int;
                }
            },
            None => {
                self.entries.push((uri, text));
                proof {
                    at = self.entries@.len() - 1;
                }
            },
        }
        assert(self.entries@[at].0@ == key);
        self.model = Ghost(m);
        assert forall|k: Seq<char>| #[trigger] self.model@.contains_key(k) implies exists|i: int|
            0 <= i < self.entries@.len() && (#[trigger] self.entries@[i]).0@ == k by {
            if k != key {
                assert(old(self).model@.contains_key(k));
                let i = choose|i: int|
                    0 <= i < old(self).entries@.len() && (#[trigger] old(self).entries@[i]).0@
                        == k;
                assert(i != at);
                assert(self.entries@[i].0@ == k);
            } else {
                assert(self.entries@[at].0@ == k);
            }
        }
    }

    /// Removes `uri` from the store; nothing happens where it is absent.
    pub fn remove(&mut self, uri: &String)
        requires
            old(self).wf(),
        ensures
            final(self).wf(),
            final(self)@ == old(self)@.remove(uri@),
    {
        let ghost m = self.model@.remove(uri@);
        match self.find(uri) {
            Some(i) => {
                let _ = self.entries.remove(i);
                self.model = Ghost(m);
                assert forall|k: Seq<char>| #[trigger] self.model@.contains_key(k) implies exists|
                    j: int,
                | 0 <= j < self.entries@.len() && (#[trigger] self.entries@[j]).0@ == k by {
                    let j = choose|j: int|
                        0 <= j < old(self).entries@.len() && (#[trigger] old(self).entries@[j]).0@
                            == k;
                    if j < i {
                        assert(self.entries@[j].0@ == k);
                    } else {
                        assert(j != i);
                        assert(self.entries@[j - 1].0@ == k);
                    }
                }
            },
            None => {
                assert(m =~= self.model@);
            },
        }
    }

    /// Applies a change batch to the text of `uri` (the empty text where the
    /// store holds none). A rejected batch leaves the store as it was.
    pub fn apply_change(&mut self, uri: &String, edits: &Vec<TextEdit>) -> (r: Result<(), EditError>)
        requires
            old(self).wf(),
        ensures
            final(self).wf(),
            match changed(old(self)@, uri@, edits@) {
                Some(m) => r is Ok && final(self)@ == m,
                None => r is Err && final(self)@ == old(self)@,
            },
    {
        let empty = String::new();
        let base = match self.get(uri) {
            Some(t) => t,
            None => &empty,
        };
        match apply_changes(base.as_str(), edits) {
            Ok(t) => {
                self.put(uri.clone(), t);
                Ok(())
            },
            Err(e) => Err(e),
        }
    }
}

/// A change batch on one document leaves every other document's text as it
/// was, and batches on two different documents give the same store in
/// either order.
pub proof fn lemma_changes_independent(
    m: Map<Seq<char>, Seq<char>>,
    a: Seq<char>,
    ea: Seq<TextEdit>,
    b: Seq<char>,
    eb: Seq<TextEdit>,
)
    requires
        a != b,
    ensures
        changed(m, a, ea) matches Some(ma) ==> base_text(ma, b) == base_text(m, b) && (
        ma.contains_key(b) <==> m.contains_key(b)),
        changed(m, a, ea) matches Some(ma) ==> changed(ma, b, eb) == match changed(m, b, eb) {
            Some(mb) => changed(mb, a, ea),
            None => None::<Map<Seq<char>, Seq<char>>>,
        },
{
    if let Some(ma) = changed(m, a, ea) {
        assert(base_text(ma, b) == base_text(m, b));
        if let Some(mb) = changed(m, b, eb) {
            assert(base_text(mb, a) == base_text(m, a));
            assert(changed(ma, b, eb)->0 =~= changed(mb, a, ea)->0);
        }
    }
}

} // verus!
