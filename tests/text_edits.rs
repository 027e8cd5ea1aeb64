use solidhunter_ls::text::{apply_changes, chars_of, resolve, EditError, Position, Range, TextEdit};

fn at(line: u32, character: u32) -> Position {
    Position { line, character }
}

fn edit(start: Position, end: Position, text: &str) -> TextEdit {
    TextEdit { range: Some(Range { start, end }), text: text.to_string() }
}

fn whole(text: &str) -> TextEdit {
    TextEdit { range: None, text: text.to_string() }
}

#[test]
fn whole_document_edit_replaces_everything() {
    let r = apply_changes("contract Old { }\nline two", &vec![whole("contract New {}")]);
    assert_eq!(r, Ok("contract New {}".to_string()));
}

#[test]
fn whole_document_edit_on_empty_text() {
    assert_eq!(apply_changes("", &vec![whole("abc")]), Ok("abc".to_string()));
}

#[test]
fn edit_past_last_line_appends() {
    let r = apply_changes("a\nb", &vec![edit(at(5, 0), at(7, 3), "!")]);
    assert_eq!(r, Ok("a\nb!".to_string()));
}

#[test]
fn edit_on_line_just_past_end_appends() {
    let r = apply_changes("x\ny\n", &vec![edit(at(3, 0), at(3, 0), "z")]);
    assert_eq!(r, Ok("x\ny\nz".to_string()));
}

#[test]
fn incremental_edit_inside_a_line() {
    let r = apply_changes("contract C { uint x }", &vec![edit(at(0, 18), at(0, 19), "x;")]);
    assert_eq!(r, Ok("contract C { uint x; }".to_string()));
}

#[test]
fn incremental_edit_across_lines() {
    let r = apply_changes("one\ntwo\nthree", &vec![edit(at(0, 1), at(2, 2), "--")]);
    assert_eq!(r, Ok("o--ree".to_string()));
}

#[test]
fn character_past_line_end_stops_at_line_end() {
    let r = apply_changes("ab\ncd", &vec![edit(at(0, 40), at(0, 40), "X")]);
    assert_eq!(r, Ok("abX\ncd".to_string()));
}

#[test]
fn offsets_count_utf16_units() {
    let text = chars_of("a\u{1F600}b");
    assert_eq!(resolve(&text, at(0, 1)), 1);
    assert_eq!(resolve(&text, at(0, 3)), 2);
    assert_eq!(resolve(&text, at(0, 4)), 3);
    let r = apply_changes("a\u{1F600}b", &vec![edit(at(0, 3), at(0, 4), "c")]);
    assert_eq!(r, Ok("a\u{1F600}c".to_string()));
}

#[test]
fn batch_edits_resolve_against_one_snapshot() {
    let edits = vec![edit(at(0, 0), at(0, 1), "XYZ"), edit(at(0, 2), at(0, 3), "W")];
    assert_eq!(apply_changes("abcd", &edits), Ok("XYZbWd".to_string()));
}

#[test]
fn inverted_edit_is_rejected() {
    let r = apply_changes("abcd", &vec![edit(at(0, 3), at(0, 1), "x")]);
    assert_eq!(r, Err(EditError::Inverted { index: 0 }));
}

#[test]
fn overlapping_edits_are_rejected() {
    let edits = vec![edit(at(0, 0), at(0, 3), "x"), edit(at(0, 2), at(0, 4), "y")];
    assert_eq!(apply_changes("abcd", &edits), Err(EditError::Overlap { index: 1 }));
}

#[test]
fn empty_batch_keeps_text() {
    assert_eq!(apply_changes("keep", &vec![]), Ok("keep".to_string()));
}
