//! Positions, ranges and the application of content changes to a text.
use vstd::prelude::*;

verus! {

/// A zero-based line and character position in a text.
#[derive(Clone, Copy, Debug, PartialEq, Eq, Structural)]
pub struct Position {
    pub line: u32,
    pub character: u32,
}

/// A half-open range between two positions.
#[derive(Clone, Copy, Debug, PartialEq, Eq, Structural)]
pub struct TextRange {
    pub start: Position,
    pub end: Position,
}

/// One entry of a change notification: a replacement of `range`
/// (the whole text where `range` is `None`) by `text`.
#[derive(Clone, Debug)]
pub struct ContentChange {
    pub range: Option<TextRange>,
    pub text: Vec<char>,
}

/// How change notifications describe a new text.
#[derive(Clone, Copy, Debug, PartialEq, Eq, Structural)]
pub enum SyncMode {
    Disabled,
    Full,
    Incremental,
}

/// The offset that position (`line`, `col`) denotes when counting starts at
/// offset `i` on line 0. A column past the end of its line stands for the end
/// of that line; a line past the last one stands for the end of the text.
pub open spec fn offset_from(s: Seq<char>, i: int, line: nat, col: nat) -> int
    decreases s.len() - i,
{
    if i >= s.len() {
        s.len() as int
    } else if line == 0 {
        if col == 0 || s[i] == '\n' {
            i
        } else {
            offset_from(s, i + 1, 0, (col - 1) as nat)
        }
    } else if s[i] == '\n' {
        offset_from(s, i + 1, (line - 1) as nat, col)
    } else {
        offset_from(s, i + 1, line, col)
    }
}

pub open spec fn offset_of(s: Seq<char>, p: Position) -> int {
    offset_from(s, 0, p.line as nat, p.character as nat)
}

pub proof fn lemma_offset_from_bounds(s: Seq<char>, i: int, line: nat, col: nat)
    requires
        0 <= i <= s.len(),
    ensures
        i <= offset_from(s, i, line, col) <= s.len(),
    decreases s.len() - i,
{
    if i < s.len() {
        if line == 0 {
            if !(col == 0 || s[i] == '\n') {
                lemma_offset_from_bounds(s, i + 1, 0, (col - 1) as nat);
            }
        } else if s[i] == '\n' {
            lemma_offset_from_bounds(s, i + 1, (line - 1) as nat, col);
        } else {
            lemma_offset_from_bounds(s, i + 1, line, col);
        }
    }
}

/// Start offset, in the text before the change, of the span a change replaces.
pub open spec fn span_start(old: Seq<char>, c: ContentChange) -> int {
    match c.range {
        Option::Some(r) => offset_of(old, r.start),
        Option::None => 0,
    }
}

/// End offset, in the text before the change, of the span a change replaces.
pub open spec fn span_end(old: Seq<char>, c: ContentChange) -> int {
    match c.range {
        Option::Some(r) => offset_of(old, r.end),
        Option::None => old.len() as int,
    }
}

pub proof fn lemma_span_bounds(old: Seq<char>, c: ContentChange)
    ensures
        0 <= span_start(old, c) <= old.len(),
        0 <= span_end(old, c) <= old.len(),
{
    if let Option::Some(r) = c.range {
        lemma_offset_from_bounds(old, 0, r.start.line as nat, r.start.character as nat);
        lemma_offset_from_bounds(old, 0, r.end.line as nat, r.end.character as nat);
    }
}

/// Every change covers a forward span of the old text, and the spans follow
/// one another in document order without overlapping.
pub open spec fn spans_ordered(old: Seq<char>, cs: Seq<ContentChange>) -> bool {
    &&& forall|k: int| 0 <= k < cs.len() ==> span_start(old, #[trigger] cs[k]) <= span_end(old, cs[k])
    &&& forall|k: int|
        0 < k < cs.len() ==> span_end(old, cs[k - 1]) <= span_start(old, #[trigger] cs[k])
}

/// The old text from `cursor` on, with changes `k..` put in place of their spans.
pub open spec fn splice(old: Seq<char>, cs: Seq<ContentChange>, k: int, cursor: int) -> Seq<char>
    decreases cs.len() - k,
{
    if k >= cs.len() || k < 0 {
        old.subrange(cursor, old.len() as int)
    } else {
        old.subrange(cursor, span_start(old, cs[k])) + cs[k].text@ + splice(
            old,
            cs,
            k + 1,
            span_end(old, cs[k]),
        )
    }
}

/// The text that a change notification produces from `old` under `mode`, or
/// `None` where the notification is malformed for that mode. Under `Full` each
/// change replaces the whole text, so the last one stands. Under `Incremental`
/// all spans are resolved against `old` and replaced at once.
pub open spec fn apply_changes(mode: SyncMode, old: Seq<char>, cs: Seq<ContentChange>) -> Option<
    Seq<char>,
> {
    match mode {
        SyncMode::Disabled => Option::None,
        SyncMode::Full => if cs.len() == 0 {
            Option::Some(old)
        } else {
            Option::Some(cs.last().text@)
        },
        SyncMode::Incremental => if spans_ordered(old, cs) {
            Option::Some(splice(old, cs, 0, 0))
        } else {
            Option::None
        },
    }
}

/// The offset in `text` that `pos` denotes.
pub fn offset_of_position(text: &Vec<char>, pos: Position) -> (r: usize)
    ensures
        r as int == offset_of(text@, pos),
        r <= text@.len(),
{
    let mut i: usize = 0;
    let mut line: u32 = pos.line;
    let mut col: u32 = pos.character;
    while i < text.len()
        invariant
            i <= text@.len(),
            offset_from(text@, i as int, line as nat, col as nat) == offset_of(text@, pos),
        decreases text.len() - i,
    {
        if line == 0 {
            if col == 0 || text[i] == '\n' {
                return i;
            }
            col = col - 1;
        } else if text[i] == '\n' {
            line = line - 1;
        }
        i = i + 1;
    }
    i
}

fn resolve_span(text: &Vec<char>, c: &ContentChange) -> (r: (usize, usize))
    ensures
        r.0 as int == span_start(text@, *c),
        r.1 as int == span_end(text@, *c),
        r.1 <= text@.len(),
{
    match c.range {
        Option::Some(rg) => (offset_of_position(text, rg.start), offset_of_position(text, rg.end)),
        Option::None => (0, text.len()),
    }
}

fn extend_from(out: &mut Vec<char>, src: &Vec<char>, from: usize, to: usize)
    requires
        from <= to <= src@.len(),
    ensures
        final(out)@ == old(out)@ + src@.subrange(from as int, to as int),
{
    let mut i: usize = from;
    while i < to
        invariant
            from <= i <= to <= src@.len(),
            out@ == old(out)@ + src@.subrange(from as int, i as int),
        decreases to - i,
    {
        out.push(src[i]);
        i = i + 1;
        assert(out@ =~= old(out)@ + src@.subrange(from as int, i as int));
    }
}

fn check_spans(text: &Vec<char>, changes: &Vec<ContentChange>) -> (r: bool)
    ensures
        r == spans_ordered(text@, changes@),
{
    let mut k: usize = 0;
    let mut prev_end: usize = 0;
    while k < changes.len()
        invariant
            k <= changes@.len(),
            forall|j: int| 0 <= j < k ==> span_start(text@, #[trigger] changes@[j]) <= span_end(text@, changes@[j]),
            forall|j: int| 0 < j < k ==> span_end(text@, changes@[j - 1]) <= span_start(text@, #[trigger] changes@[j]),
            k > 0 ==> prev_end as int == span_end(text@, changes@[k - 1]),
        decreases changes.len() - k,
    {
        let (s, e) = resolve_span(text, &changes[k]);
        if s > e || (k > 0 && prev_end > s) {
            return false;
        }
        prev_end = e;
        k = k + 1;
    }
    true
}

/// Applies a change notification to `text` under `mode`.
pub fn apply_content_changes(mode: SyncMode, text: &Vec<char>, changes: &Vec<ContentChange>) -> (r:
    Option<Vec<char>>)
    ensures
        r is Some <==> apply_changes(mode, text@, changes@) is Some,
        r is Some ==> r->0@ == apply_changes(mode, text@, changes@)->0,
{
    match mode {
        SyncMode::Disabled => Option::None,
        SyncMode::Full => {
            if changes.len() == 0 {
                Option::Some(text.clone())
            } else {
                Option::Some(changes[changes.len() - 1].text.clone())
            }
        },
        SyncMode::Incremental => {
            if !check_spans(text, changes) {
                return Option::None;
            }
            let ghost old = text@;
            let ghost cs = changes@;
            let mut out: Vec<char> = Vec::new();
            let mut cursor: usize = 0;
            let mut k: usize = 0;
            if changes.len() > 0 {
                proof {
                    lemma_span_bounds(old, cs[0]);
                }
            }
            while k < changes.len()
                invariant
                    k <= cs.len(),
                    cs == changes@,
                    old == text@,
                    spans_ordered(old, cs),
                    cursor <= old.len(),
                    k < cs.len() ==> cursor <= span_start(old, cs[k as int]),
                    out@ + splice(old, cs, k as int, cursor as int) == splice(old, cs, 0, 0),
                decreases changes.len() - k,
            {
                let (s, e) = resolve_span(text, &changes[k]);
                let ghost before = out@;
                extend_from(&mut out, text, cursor, s);
                let piece = &changes[k].text;
                extend_from(&mut out, piece, 0, piece.len());
                assert(piece@.subrange(0, piece@.len() as int) =~= piece@);
                assert(out@ + splice(old, cs, k + 1, e as int) =~= before + splice(
                    old,
                    cs,
                    k as int,
                    cursor as int,
                ));
                cursor = e;
                k = k + 1;
            }
            extend_from(&mut out, text, cursor, text.len());
            assert(out@ =~= splice(old, cs, 0, 0));
            Option::Some(out)
        },
    }
}

} // verus!
