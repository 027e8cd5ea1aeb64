use solidhunter_ls::store::DocumentStore;
use solidhunter_ls::text::{Position, Range, TextEdit};

fn s(x: &str) -> String {
    x.to_string()
}

#[test]
fn put_then_get() {
    let mut store = DocumentStore::new();
    store.put(s("file:///a.sol"), s("one"));
    store.put(s("file:///a.sol"), s("two"));
    assert_eq!(store.get(&s("file:///a.sol")), Some(&s("two")));
    assert_eq!(store.get(&s("file:///b.sol")), None);
}

#[test]
fn removing_twice_is_harmless() {
    let mut store = DocumentStore::new();
    store.put(s("file:///a.sol"), s("text"));
    store.remove(&s("file:///a.sol"));
    store.remove(&s("file:///a.sol"));
    assert_eq!(store.get(&s("file:///a.sol")), None);
}

#[test]
fn whole_document_change_leaves_no_trace_of_old_text() {
    let mut store = DocumentStore::new();
    store.put(s("file:///a.sol"), s("old old old"));
    let edits = vec![TextEdit { range: None, text: s("new") }];
    assert_eq!(store.apply_change(&s("file:///a.sol"), &edits), Ok(()));
    assert_eq!(store.get(&s("file:///a.sol")), Some(&s("new")));
}

#[test]
fn change_to_one_document_leaves_the_other() {
    let mut store = DocumentStore::new();
    store.put(s("file:///a.sol"), s("aaa"));
    store.put(s("file:///b.sol"), s("bbb"));
    let e1 = TextEdit {
        range: Some(Range { start: Position { line: 0, character: 1 }, end: Position { line: 0, character: 2 } }),
        text: s("X"),
    };
    let e2 = TextEdit {
        range: Some(Range { start: Position { line: 0, character: 2 }, end: Position { line: 0, character: 3 } }),
        text: s("Y"),
    };
    assert_eq!(store.apply_change(&s("file:///a.sol"), &vec![e1, e2]), Ok(()));
    assert_eq!(store.get(&s("file:///a.sol")), Some(&s("aXY")));
    assert_eq!(store.get(&s("file:///b.sol")), Some(&s("bbb")));
}

#[test]
fn rejected_change_leaves_store() {
    let mut store = DocumentStore::new();
    store.put(s("file:///a.sol"), s("abc"));
    let bad = TextEdit {
        range: Some(Range { start: Position { line: 0, character: 2 }, end: Position { line: 0, character: 0 } }),
        text: s("X"),
    };
    assert!(store.apply_change(&s("file:///a.sol"), &vec![bad]).is_err());
    assert_eq!(store.get(&s("file:///a.sol")), Some(&s("abc")));
}

#[test]
fn change_to_unknown_document_starts_from_empty() {
    let mut store = DocumentStore::new();
    let edits = vec![TextEdit {
        range: Some(Range { start: Position { line: 0, character: 0 }, end: Position { line: 0, character: 0 } }),
        text: s("hello"),
    }];
    assert_eq!(store.apply_change(&s("file:///n.sol"), &edits), Ok(()));
    assert_eq!(store.get(&s("file:///n.sol")), Some(&s("hello")));
}
