//! Reconstruction of document text from full or incremental change events.
use vstd::prelude::*;

verus! {

/// A zero-based line and a character offset within that line, counted in
/// UTF-16 code units as the editor protocol counts them.
#[derive(Clone, Copy, Debug, PartialEq, Eq, Structural)]
pub struct Position {
    pub line: u32,
    pub character: u32,
}

/// A half-open span `[start, end)` of a document.
#[derive(Clone, Copy, Debug, PartialEq, Eq, Structural)]
pub struct Range {
    pub start: Position,
    pub end: Position,
}

/// One replacement: `range` of `None` stands for the whole document.
#[derive(Debug)]
pub struct TextEdit {
    pub range: Option<Range>,
    pub text: String,
}

/// Why a batch of edits could not be applied.
#[derive(Clone, Copy, Debug, PartialEq, Eq, Structural)]
pub enum EditError {
    /// The edit at `index` ends before it starts.
    Inverted { index: usize },
    /// The edit at `index` starts before the previous edit of the batch ends.
    Overlap { index: usize },
}

/// Number of UTF-16 code units that encode `c`.
pub open spec fn unit_width(c: char) -> nat {
    if (c as u32) >= 0x10000 {
        2
    } else {
        1
    }
}

/// The index in `text` reached by walking from index `i` down `line` line
/// breaks and then `character` code units along the line. A line past the
/// end resolves to the end of the text; an offset past the end of its line
/// resolves to the end of that line.
pub open spec fn offset_from(text: Seq<char>, i: nat, line: nat, character: nat) -> nat
    decreases text.len() - i,
{
    if i >= text.len() {
        text.len()
    } else if line > 0 {
        if text[i as int] == '\n' {
            offset_from(text, i + 1, (line - 1) as nat, character)
        } else {
            offset_from(text, i + 1, line, character)
        }
    } else if character == 0 || text[i as int] == '\n' || character < unit_width(text[i as int]) {
        i
    } else {
        offset_from(text, i + 1, 0, (character - unit_width(text[i as int])) as nat)
    }
}

/// The index in `text` that `p` designates.
pub open spec fn offset_of(text: Seq<char>, p: Position) -> nat {
    offset_from(text, 0, p.line as nat, p.character as nat)
}

/// The span of `text` that `e` replaces, resolved against `text`.
pub open spec fn span_of(text: Seq<char>, e: TextEdit) -> (nat, nat) {
    match e.range {
        None => (0, text.len()),
        Some(r) => (offset_of(text, r.start), offset_of(text, r.end)),
    }
}

/// Edit `k` of a batch is well placed: it does not end before it starts, and
/// it starts no earlier than the previous edit ends.
pub open spec fn placed_at(text: Seq<char>, edits: Seq<TextEdit>, k: int) -> bool {
    &&& span_of(text, edits[k]).0 <= span_of(text, edits[k]).1
    &&& k > 0 ==> span_of(text, edits[k - 1]).1 <= span_of(text, edits[k]).0
}

/// The first `n` edits of the batch are well placed.
pub open spec fn placed_upto(text: Seq<char>, edits: Seq<TextEdit>, n: int) -> bool {
    forall|k: int| 0 <= k < n ==> placed_at(text, edits, k)
}

/// The text obtained by copying `text` from `cursor` on, with the spans of
/// edits `k..` replaced by their texts.
pub open spec fn spliced(text: Seq<char>, edits: Seq<TextEdit>, k: nat, cursor: nat) -> Seq<char>
    decreases edits.len() - k,
{
    if k >= edits.len() {
        text.subrange(cursor as int, text.len() as int)
    } else {
        text.subrange(cursor as int, span_of(text, edits[k as int]).0 as int)
            + edits[k as int].text@
            + spliced(text, edits, k + 1, span_of(text, edits[k as int]).1)
    }
}

/// The result of applying a batch of edits to `text`, each edit resolved
/// against `text` itself (one snapshot per batch), or `None` where the
/// edits are not well placed.
pub open spec fn applied(text: Seq<char>, edits: Seq<TextEdit>) -> Option<Seq<char>> {
    if placed_upto(text, edits, edits.len() as int) {
        Some(spliced(text, edits, 0, 0))
    } else {
        None
    }
}

/// Number of line breaks in `text` from index `i` on.
pub open spec fn breaks_from(text: Seq<char>, i: nat) -> nat
    decreases text.len() - i,
{
    if i >= text.len() {
        0
    } else if text[i as int] == '\n' {
        1 + breaks_from(text, i + 1)
    } else {
        breaks_from(text, i + 1)
    }
}

/// Number of lines of `text`.
pub open spec fn line_count(text: Seq<char>) -> nat {
    breaks_from(text, 0) + 1
}

proof fn lemma_offset_bounds(text: Seq<char>, i: nat, line: nat, character: nat)
    requires
        i <= text.len(),
    ensures
        i <= offset_from(text, i, line, character) <= text.len(),
    decreases text.len() - i,
{
    if i < text.len() {
        if line > 0 {
            if text[i as int] == '\n' {
                lemma_offset_bounds(text, i + 1, (line - 1) as nat, character);
            } else {
                lemma_offset_bounds(text, i + 1, line, character);
            }
        } else if !(character == 0 || text[i as int] == '\n' || character < unit_width(
            text[i as int],
        )) {
            lemma_offset_bounds(text, i + 1, 0, (character - unit_width(text[i as int])) as nat);
        }
    }
}

proof fn lemma_past_last_line(text: Seq<char>, i: nat, line: nat, character: nat)
    requires
        i <= text.len(),
        line > breaks_from(text, i),
    ensures
        offset_from(text, i, line, character) == text.len(),
    decreases text.len() - i,
{
    if i < text.len() {
        if text[i as int] == '\n' {
            lemma_past_last_line(text, i + 1, (line - 1) as nat, character);
        } else {
            lemma_past_last_line(text, i + 1, line, character);
        }
    }
}

/// Code units that encode `c`.
fn width_of(c: char) -> (r: u32)
    ensures
        r == unit_width(c),
{
    if (c as u32) >= 0x10000 {
        2
    } else {
        1
    }
}

/// Resolves `p` to an index of `text`.
pub fn resolve(text: &Vec<char>, p: Position) -> (r: usize)
    ensures
        r == offset_of(text@, p),
        r <= text@.len(),
{
    let mut i: usize = 0;
    let mut line: u32 = p.line;
    let mut character: u32 = p.character;
    proof {
        lemma_offset_bounds(text@, 0, p.line as nat, p.character as nat);
    }
    while i < text.len()
        invariant
            i <= text@.len(),
            offset_from(text@, i as nat, line as nat, character as nat) == offset_of(text@, p),
        decreases text@.len() - i,
    {
        let c = text[i];
        if line > 0 {
            if c == '\n' {
                line = line - 1;
            }
        } else {
            let w = width_of(c);
            if character == 0 || c == '\n' || character < w {
                return i;
            }
            character = character - w;
        }
        i = i + 1;
    }
    i
}

/// The characters of `s`, in order.
pub fn chars_of(s: &str) -> (r: Vec<char>)
    ensures
        r@ == s@,
{
    let mut out: Vec<char> = Vec::new();
    for c in it: s.chars()
        invariant
            out@ == it.seq().take(it.index() as int),
    {
        out.push(c);
    }
    out
}

/// Relies on `String: FromIterator<char>`: the string holds the characters in order.
#[verifier::external_body]
fn text_of(cs: &[char]) -> (r: String)
    ensures
        r@ == cs@,
{
    cs.iter().collect()
}

/// Applies a batch of edits to `current`. Every edit of the batch is resolved
/// against `current` (one snapshot per batch); the edits must come in
/// document order, each ending no earlier than it starts and starting no
/// earlier than the previous one ends.
pub fn apply_changes(current: &str, edits: &Vec<TextEdit>) -> (r: Result<String, EditError>)
    ensures
        match r {
            Ok(t) => applied(current@, edits@) == Some(t@),
            Err(EditError::Inverted { index }) => {
                &&& index < edits@.len()
                &&& placed_upto(current@, edits@, index as int)
                &&& span_of(current@, edits@[index as int]).1 < span_of(
                    current@,
                    edits@[index as int],
                ).0
            },
            Err(EditError::Overlap { index }) => {
                &&& 0 < index < edits@.len()
                &&& placed_upto(current@, edits@, index as int)
                &&& span_of(current@, edits@[index as int]).0 <= span_of(
                    current@,
                    edits@[index as int],
                ).1
                &&& span_of(current@, edits@[index - 1]).1 > span_of(
                    current@,
                    edits@[index as int],
                ).0
            },
        },
        r is Ok <==> applied(current@, edits@) is Some,
{
    let text = chars_of(current);
    let ghost t = text@;
    let mut out: Vec<char> = Vec::new();
    let mut cursor: usize = 0;
    let mut k: usize = 0;
    while k < edits.len()
        invariant
            t == current@,
            text@ == t,
            0 <= k <= edits@.len(),
            cursor <= t.len(),
            placed_upto(t, edits@, k as int),
            k == 0 ==> cursor == 0,
            k > 0 ==> cursor == span_of(t, edits@[k - 1]).1,
            out@ + spliced(t, edits@, k as nat, cursor as nat) == spliced(t, edits@, 0, 0),
        decreases edits@.len() - k,
    {
        let e = &edits[k];
        let (start, end) = match e.range {
            None => (0usize, text.len()),
            Some(range) => (resolve(&text, range.start), resolve(&text, range.end)),
        };
        assert(span_of(t, edits@[k as int]) == (start as nat, end as nat));
        if end < start {
            assert(!placed_at(t, edits@, k as int));
            return Err(EditError::Inverted { index: k });
        }
        if start < cursor {
            assert(!placed_at(t, edits@, k as int));
            return Err(EditError::Overlap { index: k });
        }
        let ghost before = out@;
        let mut j: usize = cursor;
        while j < start
            invariant
                cursor <= j <= start <= t.len(),
                text@ == t,
                out@ == before + t.subrange(cursor as int, j as int),
            decreases start - j,
        {
            out.push(text[j]);
            proof {
                assert(t.subrange(cursor as int, j + 1) == t.subrange(cursor as int, j as int).push(
                    t[j as int],
                ));
            }
            j = j + 1;
        }
        let piece = chars_of(e.text.as_str());
        let ghost mid = out@;
        let mut q: usize = 0;
        while q < piece.len()
            invariant
                q <= piece@.len(),
                out@ == mid + piece@.take(q as int),
            decreases piece@.len() - q,
        {
            out.push(piece[q]);
            proof {
                assert(piece@.take(q + 1) == piece@.take(q as int).push(piece@[q as int]));
            }
            q = q + 1;
        }
        proof {
            assert(piece@.take(piece@.len() as int) == piece@);
            assert(out@ == before + t.subrange(cursor as int, start as int) + edits@[k as int].text@);
            assert(out@ + spliced(t, edits@, (k + 1) as nat, end as nat) == before + spliced(
                t,
                edits@,
                k as nat,
                cursor as nat,
            ));
        }
        cursor = end;
        k = k + 1;
    }
    let ghost before = out@;
    let mut j: usize = cursor;
    while j < text.len()
        invariant
            cursor <= j <= t.len(),
            text@ == t,
            out@ == before + t.subrange(cursor as int, j as int),
        decreases t.len() - j,
    {
        out.push(text[j]);
        proof {
            assert(t.subrange(cursor as int, j + 1) == t.subrange(cursor as int, j as int).push(
                t[j as int],
            ));
        }
        j = j + 1;
    }
    Ok(text_of(out.as_slice()))
}

/// A whole-document edit yields exactly its text, whatever the text before.
pub proof fn lemma_full_sync(text: Seq<char>, e: TextEdit)
    requires
        e.range is None,
    ensures
        applied(text, seq![e]) == Some(e.text@),
{
    let edits = seq![e];
    assert(placed_at(text, edits, 0));
    assert(spliced(text, edits, 1, text.len()) =~= Seq::<char>::empty());
    assert(text.subrange(0, 0) =~= Seq::<char>::empty());
    assert(spliced(text, edits, 0, 0) =~= e.text@);
}

/// An edit that starts on a line past the last line of the text appends its
/// text at the end of the document.
pub proof fn lemma_append_past_end(text: Seq<char>, e: TextEdit)
    requires
        e.range is Some,
        e.range->0.start.line >= line_count(text),
        e.range->0.end.line >= e.range->0.start.line,
    ensures
        applied(text, seq![e]) == Some(text + e.text@),
{
    let r = e.range->0;
    let edits = seq![e];
    lemma_past_last_line(text, 0, r.start.line as nat, r.start.character as nat);
    lemma_past_last_line(text, 0, r.end.line as nat, r.end.character as nat);
    assert(placed_at(text, edits, 0));
    assert(text.subrange(0, text.len() as int) =~= text);
    assert(spliced(text, edits, 1, text.len()) =~= Seq::<char>::empty());
    assert(spliced(text, edits, 0, 0) =~= text + e.text@);
}

} // verus!
