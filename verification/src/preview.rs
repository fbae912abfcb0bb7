//! The preview: how a preview line is cut into plain and emphasised pieces
//! of escaped text.

use vstd::prelude::*;
use vstd::string::*;
use crate::engine::{highlight_marker, rows, texts};

verus! {

/// What stands for the character `c` in escaped text: its entity where `c` is
/// one of the six reserved characters, else `c` itself.
pub open spec fn escape_char(c: char) -> Seq<char> {
    if c == '&' {
        seq!['&', 'a', 'm', 'p', ';']
    } else if c == '<' {
        seq!['&', 'l', 't', ';']
    } else if c == '>' {
        seq!['&', 'g', 't', ';']
    } else if c == '"' {
        seq!['&', 'q', 'u', 'o', 't', ';']
    } else if c == '\'' {
        seq!['&', '#', 'x', '2', '7', ';']
    } else if c == '/' {
        seq!['&', '#', 'x', '2', 'F', ';']
    } else {
        seq![c]
    }
}

/// `s` with each reserved character replaced by its entity.
pub open spec fn escaped(s: Seq<char>) -> Seq<char>
    decreases s.len(),
{
    if s.len() == 0 {
        Seq::empty()
    } else {
        escaped(s.drop_last()) + escape_char(s.last())
    }
}

/// Whether `c` is a character that escaped text never holds.
pub open spec fn is_reserved(c: char) -> bool {
    c == '<' || c == '>' || c == '"' || c == '\'' || c == '/'
}

/// Escaped text holds none of `<`, `>`, `"`, `'` and `/`, whatever the text
/// it was made from.
pub proof fn law_escaped_is_clean(s: Seq<char>)
    ensures
        forall|i: int| 0 <= i < escaped(s).len() ==> !is_reserved(#[trigger] escaped(s)[i]),
    decreases s.len(),
{
    if s.len() > 0 {
        law_escaped_is_clean(s.drop_last());
        let head = escaped(s.drop_last());
        let tail = escape_char(s.last());
        assert forall|j: int| 0 <= j < tail.len() implies !is_reserved(#[trigger] tail[j]) by {}
        assert forall|i: int| 0 <= i < escaped(s).len() implies !is_reserved(
            #[trigger] escaped(s)[i],
        ) by {
            if i < head.len() {
                assert(escaped(s)[i] == head[i]);
            } else {
                assert(escaped(s)[i] == tail[i - head.len()]);
            }
        }
    }
}

/// Whether `e` is one of the six entities.
pub open spec fn is_entity(e: Seq<char>) -> bool {
    e == escape_char('&') || e == escape_char('<') || e == escape_char('>') || e == escape_char(
        '"',
    ) || e == escape_char('\'') || e == escape_char('/')
}

/// Whether an entity begins at position `i` of `s`.
pub open spec fn entity_at(s: Seq<char>, i: int) -> bool {
    exists|n: int| 0 < n && i + n <= s.len() && is_entity(#[trigger] s.subrange(i, i + n))
}

/// Every `&` in escaped text begins an entity.
pub proof fn law_escaped_ampersand_begins_entity(s: Seq<char>)
    ensures
        forall|i: int|
            0 <= i < escaped(s).len() && escaped(s)[i] == '&' ==> #[trigger] entity_at(
                escaped(s),
                i,
            ),
    decreases s.len(),
{
    if s.len() > 0 {
        law_escaped_ampersand_begins_entity(s.drop_last());
        let head = escaped(s.drop_last());
        let tail = escape_char(s.last());
        let full = escaped(s);
        assert forall|i: int| 0 <= i < full.len() && full[i] == '&' implies #[trigger] entity_at(
            full,
            i,
        ) by {
            if i < head.len() {
                assert(head[i] == full[i]);
                assert(entity_at(head, i));
                let n = choose|n: int|
                    0 < n && i + n <= head.len() && is_entity(#[trigger] head.subrange(i, i + n));
                assert(full.subrange(i, i + n) =~= head.subrange(i, i + n));
            } else {
                let j = i - head.len();
                assert(full[i] == tail[j]);
                assert(j == 0 && is_entity(tail));
                assert(full.subrange(i, i + tail.len()) =~= tail);
            }
        }
    }
}

/// Text without a reserved character and without `&` is its own escaped
/// form.
pub proof fn law_escaped_keeps_plain_text(s: Seq<char>)
    requires
        forall|i: int| 0 <= i < s.len() ==> !is_reserved(#[trigger] s[i]) && s[i] != '&',
    ensures
        escaped(s) == s,
    decreases s.len(),
{
    if s.len() > 0 {
        let head = s.drop_last();
        assert forall|i: int| 0 <= i < head.len() implies !is_reserved(#[trigger] head[i])
            && head[i] != '&' by {
            assert(head[i] == s[i]);
        }
        law_escaped_keeps_plain_text(head);
        assert(!is_reserved(s[s.len() - 1]) && s[s.len() - 1] != '&');
        assert(escape_char(s.last()) =~= seq![s.last()]);
        assert(head + seq![s.last()] =~= s);
    }
}

/// Escapes `text` by a call of `html_escape::encode_safe`, which replaces
/// each of `&`, `<`, `>`, `"`, `'` and `/` by its entity (`&amp;`, `&lt;`,
/// `&gt;`, `&quot;`, `&#x27;`, `&#x2F;`) and keeps every other character.
#[verifier::external_body]
fn encode_safe(text: &str) -> (out: String)
    ensures
        out@ == escaped(text@),
{
    html_escape::encode_safe(text).into_owned()
}

/// The position of the first highlight marker in `s`, or the length of `s`
/// where it holds none.
pub open spec fn marker_index(s: Seq<char>) -> int
    decreases s.len(),
{
    if s.len() == 0 || s.first() == highlight_marker() {
        0
    } else {
        1 + marker_index(s.drop_first())
    }
}

/// The first highlight marker of a text stands where none stands before.
pub proof fn lemma_marker_index_at(s: Seq<char>, k: int)
    requires
        0 <= k <= s.len(),
        forall|j: int| 0 <= j < k ==> s[j] != highlight_marker(),
        k < s.len() ==> s[k] == highlight_marker(),
    ensures
        marker_index(s) == k,
    decreases k,
{
    if k > 0 {
        let t = s.drop_first();
        assert(s[0] != highlight_marker());
        assert forall|j: int| 0 <= j < k - 1 implies t[j] != highlight_marker() by {
            assert(t[j] == s[j + 1]);
        }
        if k - 1 < t.len() {
            assert(t[k - 1] == s[k]);
        }
        lemma_marker_index_at(t, k - 1);
    }
}

/// One piece of a row of the preview.
#[derive(Clone, Debug, PartialEq, Eq)]
pub enum Piece {
    /// Escaped text in the row's own style.
    Plain { text: String },
    /// Escaped text in the emphasis style.
    Emphasis { text: String },
}

/// The mathematical value of a [`Piece`].
pub enum PieceView {
    Plain { text: Seq<char> },
    Emphasis { text: Seq<char> },
}

impl View for Piece {
    type V = PieceView;

    open spec fn view(&self) -> PieceView {
        match *self {
            Piece::Plain { text } => PieceView::Plain { text: text@ },
            Piece::Emphasis { text } => PieceView::Emphasis { text: text@ },
        }
    }
}

/// The values of a list of pieces.
pub open spec fn pieces(v: Seq<Piece>) -> Seq<PieceView> {
    v.map_values(|p: Piece| p@)
}

/// The values of a list of rows.
pub open spec fn piece_rows(v: Seq<Vec<Piece>>) -> Seq<Seq<PieceView>> {
    v.map_values(|r: Vec<Piece>| pieces(r@))
}

/// The pieces of one segment of a preview line. An empty segment is shown as
/// the bare prompt. Any other is cut at its first highlight marker: what
/// stands before it is plain, what stands behind it is emphasised, and the
/// marker itself is not shown. Without a marker the whole segment is plain.
pub open spec fn segment_pieces(segment: Seq<char>) -> Seq<PieceView> {
    let k = marker_index(segment);
    if segment.len() == 0 {
        seq![PieceView::Plain { text: seq!['$', ' '] }]
    } else if k == segment.len() {
        seq![PieceView::Plain { text: escaped(segment) }]
    } else {
        seq![
            PieceView::Plain { text: escaped(segment.subrange(0, k)) },
            PieceView::Emphasis { text: escaped(segment.subrange(k + 1, segment.len() as int)) },
        ]
    }
}

/// The pieces of a preview line: those of its segments, in their order.
pub open spec fn row_pieces(segments: Seq<Seq<char>>) -> Seq<PieceView>
    decreases segments.len(),
{
    if segments.len() == 0 {
        Seq::empty()
    } else {
        row_pieces(segments.drop_last()) + segment_pieces(segments.last())
    }
}

/// The rows of a preview: one for each preview line, in their order.
pub open spec fn preview_rows(lines: Seq<Seq<Seq<char>>>) -> Seq<Seq<PieceView>> {
    Seq::new(lines.len(), |i: int| row_pieces(lines[i]))
}

/// Finds the first highlight marker of `s`.
pub fn find_marker(s: &str) -> (k: usize)
    ensures
        k == marker_index(s@),
        k <= s@.len(),
{
    let n: usize = s.unicode_len();
    let mut i: usize = 0;
    while i < n && s.get_char(i) != '#'
        invariant
            0 <= i <= n,
            n == s@.len(),
            forall|j: int| 0 <= j < i ==> s@[j] != highlight_marker(),
        decreases n - i,
    {
        i += 1;
    }
    proof {
        lemma_marker_index_at(s@, i as int);
    }
    i
}

/// Adds to `row` the pieces of the segment `segment`.
pub fn push_segment(row: &mut Vec<Piece>, segment: &str)
    ensures
        pieces(final(row)@) == pieces(old(row)@) + segment_pieces(segment@),
{
    let n: usize = segment.unicode_len();
    if n == 0 {
        let text = String::from_str("$ ");
        proof {
            reveal_strlit("$ ");
            assert(text@ =~= seq!['$', ' ']);
        }
        row.push(Piece::Plain { text });
    } else {
        let k: usize = find_marker(segment);
        if k == n {
            row.push(Piece::Plain { text: encode_safe(segment) });
        } else {
            let prefix = segment.substring_char(0, k);
            let suffix = segment.substring_char(k + 1, n);
            row.push(Piece::Plain { text: encode_safe(prefix) });
            row.push(Piece::Emphasis { text: encode_safe(suffix) });
        }
    }
    proof {
        assert(pieces(row@) =~= pieces(old(row)@) + segment_pieces(segment@));
    }
}

/// The row of a preview line with the segments `segments`.
pub fn render_row(segments: &Vec<String>) -> (row: Vec<Piece>)
    ensures
        pieces(row@) == row_pieces(texts(segments@)),
{
    let mut row: Vec<Piece> = Vec::new();
    let n: usize = segments.len();
    let mut i: usize = 0;
    proof {
        assert(texts(segments@).subrange(0, 0) =~= Seq::empty());
        assert(pieces(row@) =~= Seq::empty());
    }
    while i < n
        invariant
            0 <= i <= n,
            n == segments@.len(),
            pieces(row@) == row_pieces(texts(segments@).subrange(0, i as int)),
        decreases n - i,
    {
        proof {
            let next = texts(segments@).subrange(0, i + 1);
            assert(next.drop_last() =~= texts(segments@).subrange(0, i as int));
            assert(next.last() == segments@[i as int]@);
        }
        push_segment(&mut row, segments[i].as_str());
        i += 1;
    }
    proof {
        assert(texts(segments@).subrange(0, n as int) =~= texts(segments@));
    }
    row
}

/// The rows of the preview with the lines `lines`: one row for each line, in
/// their order.
pub fn render_rows(lines: &Vec<Vec<String>>) -> (out: Vec<Vec<Piece>>)
    ensures
        piece_rows(out@) == preview_rows(rows(lines@)),
{
    let mut out: Vec<Vec<Piece>> = Vec::new();
    let n: usize = lines.len();
    let mut i: usize = 0;
    while i < n
        invariant
            0 <= i <= n,
            n == lines@.len(),
            out@.len() == i,
            forall|j: int| 0 <= j < i ==> pieces(#[trigger] out@[j]@) == row_pieces(rows(lines@)[j]),
        decreases n - i,
    {
        let row = render_row(&lines[i]);
        out.push(row);
        i += 1;
    }
    proof {
        assert(piece_rows(out@) =~= preview_rows(rows(lines@)));
    }
    out
}

} // verus!
