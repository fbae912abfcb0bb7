//! The image document of a preview: a fixed canvas with a mask, a
//! background and one text element that holds a row for each preview line.

use vstd::prelude::*;
use vstd::string::*;
use svg::node::element::Element;
use crate::engine::rows;
use crate::markup::{
    element_append_element, element_assign, element_attributes, element_children, element_new,
    element_tag, markup_of, no_attributes, no_children, row_attributes, row_children, row_span,
    span_tag,
};
use crate::preview::{piece_rows, pieces, preview_rows, render_rows, PieceView};

verus! {

/// The attributes of the rectangle that the mask is made of: the whole
/// canvas, in white.
pub open spec fn mask_rect_attributes() -> Map<Seq<char>, Seq<char>> {
    no_attributes().insert("x"@, "0"@).insert("y"@, "0"@).insert("width"@, "824"@).insert(
        "height"@,
        "623"@,
    ).insert("fill"@, "#fff"@)
}

/// The attributes of the mask that clips the rows to the canvas.
pub open spec fn mask_attributes() -> Map<Seq<char>, Seq<char>> {
    no_attributes().insert("id"@, "bigterminal-mask"@)
}

/// The attributes of the background: the whole canvas.
pub open spec fn background_attributes() -> Map<Seq<char>, Seq<char>> {
    no_attributes().insert("class"@, "background"@).insert("y"@, "0"@).insert("x"@, "0"@).insert(
        "width"@,
        "824"@,
    ).insert("height"@, "623"@)
}

/// The attributes of the text element that holds the rows: it is clipped by
/// the mask and keeps white space as it is.
pub open spec fn text_attributes() -> Map<Seq<char>, Seq<char>> {
    no_attributes().insert("mask"@, "url(#bigterminal-mask)"@).insert(
        "transform"@,
        "translate(0 0)"@,
    ).insert("y"@, "0"@).insert("x"@, "0"@).insert("xml:space"@, "preserve"@)
}

/// The attributes of the document: its name spaces, and a canvas of fixed
/// size and aspect ratio.
pub open spec fn document_attributes() -> Map<Seq<char>, Seq<char>> {
    no_attributes().insert("xmlns:dc"@, "http://purl.org/dc/elements/1.1/"@).insert(
        "xmlns:cc"@,
        "http://creativecommons.org/ns#"@,
    ).insert("xmlns:rdf"@, "http://www.w3.org/1999/02/22-rdf-syntax-ns#"@).insert(
        "xmlns:svg"@,
        "http://www.w3.org/2000/svg"@,
    ).insert("xmlns"@, "http://www.w3.org/2000/svg"@).insert("version"@, "1.1"@).insert(
        "width"@,
        "100%"@,
    ).insert("viewBox"@, "0 0 824 623"@).insert("preserveAspectRatio"@, "xMidYMid meet"@)
}

/// What the rows `rows` are written as, one span for each.
pub open spec fn span_markups(rows: Seq<Seq<PieceView>>) -> Seq<Seq<char>> {
    Seq::new(rows.len(), |j: int| markup_of(span_tag(), row_attributes(), row_children(rows[j])))
}

/// What the mask is written as.
pub open spec fn mask_markup() -> Seq<char> {
    markup_of("mask"@, mask_attributes(), seq![markup_of("rect"@, mask_rect_attributes(), no_children())])
}

/// What the background is written as.
pub open spec fn background_markup() -> Seq<char> {
    markup_of("rect"@, background_attributes(), no_children())
}

/// What the text element with the rows `rows` is written as.
pub open spec fn text_markup(rows: Seq<Seq<PieceView>>) -> Seq<char> {
    markup_of("text"@, text_attributes(), span_markups(rows))
}

/// The children of the document with the rows `rows`: the mask, the
/// background and the text element.
pub open spec fn document_children(rows: Seq<Seq<PieceView>>) -> Seq<Seq<char>> {
    seq![mask_markup(), background_markup(), text_markup(rows)]
}

/// The element `e` with the attribute `name` set to `value`.
fn with(e: Element, name: &str, value: &str) -> (out: Element)
    ensures
        element_tag(out) == element_tag(e),
        element_attributes(out) == element_attributes(e).insert(name@, value@),
        element_children(out) == element_children(e),
{
    let mut out = e;
    element_assign(&mut out, name, value);
    out
}

/// The element `e` with `child` as one more child at its end.
fn with_child(e: Element, child: Element) -> (out: Element)
    ensures
        element_tag(out) == element_tag(e),
        element_attributes(out) == element_attributes(e),
        element_children(out) == element_children(e).push(
            markup_of(element_tag(child), element_attributes(child), element_children(child)),
        ),
{
    let mut out = e;
    element_append_element(&mut out, child);
    out
}

/// The mask of the canvas.
pub fn mask() -> (e: Element)
    ensures
        markup_of(element_tag(e), element_attributes(e), element_children(e)) == mask_markup(),
{
    let rect = element_new("rect");
    let rect = with(rect, "x", "0");
    let rect = with(rect, "y", "0");
    let rect = with(rect, "width", "824");
    let rect = with(rect, "height", "623");
    let rect = with(rect, "fill", "#fff");
    let e = element_new("mask");
    let e = with(e, "id", "bigterminal-mask");
    let e = with_child(e, rect);
    proof {
        assert(element_children(e) =~= seq![
            markup_of("rect"@, mask_rect_attributes(), no_children()),
        ]);
    }
    e
}

/// The background of the canvas.
pub fn background() -> (e: Element)
    ensures
        markup_of(element_tag(e), element_attributes(e), element_children(e))
            == background_markup(),
{
    let e = element_new("rect");
    let e = with(e, "class", "background");
    let e = with(e, "y", "0");
    let e = with(e, "x", "0");
    let e = with(e, "width", "824");
    with(e, "height", "623")
}

/// The text element with one row for each of the preview lines `lines`, in
/// their order.
pub fn text_rows(lines: &Vec<Vec<String>>) -> (e: Element)
    ensures
        element_tag(e) == "text"@,
        element_attributes(e) == text_attributes(),
        element_children(e) == span_markups(preview_rows(rows(lines@))),
{
    let text = element_new("text");
    let text = with(text, "mask", "url(#bigterminal-mask)");
    let text = with(text, "transform", "translate(0 0)");
    let text = with(text, "y", "0");
    let text = with(text, "x", "0");
    let mut text = with(text, "xml:space", "preserve");
    let pieces_of_rows = render_rows(lines);
    let ghost all = preview_rows(rows(lines@));
    let n: usize = pieces_of_rows.len();
    let mut i: usize = 0;
    proof {
        assert(piece_rows(pieces_of_rows@).len() == all.len());
        assert(element_children(text) =~= span_markups(all.subrange(0, 0)));
    }
    while i < n
        invariant
            0 <= i <= n,
            n == pieces_of_rows@.len(),
            all == piece_rows(pieces_of_rows@),
            element_tag(text) == "text"@,
            element_attributes(text) == text_attributes(),
            element_children(text) == span_markups(all.subrange(0, i as int)),
        decreases n - i,
    {
        let span = row_span(&pieces_of_rows[i]);
        proof {
            assert(all[i as int] == pieces(pieces_of_rows@[i as int]@));
        }
        text = with_child(text, span.into_inner());
        proof {
            assert(element_children(text) =~= span_markups(all.subrange(0, i + 1)));
        }
        i += 1;
    }
    proof {
        assert(all.subrange(0, n as int) =~= all);
    }
    text
}

/// The image document of the preview with the lines `lines`: the canvas
/// with its mask and background, and one row for each line.
pub fn preview_document(lines: &Vec<Vec<String>>) -> (doc: Element)
    ensures
        element_tag(doc) == "svg"@,
        element_attributes(doc) == document_attributes(),
        element_children(doc) == document_children(preview_rows(rows(lines@))),
{
    let doc = element_new("svg");
    let doc = with(doc, "xmlns:dc", "http://purl.org/dc/elements/1.1/");
    let doc = with(doc, "xmlns:cc", "http://creativecommons.org/ns#");
    let doc = with(doc, "xmlns:rdf", "http://www.w3.org/1999/02/22-rdf-syntax-ns#");
    let doc = with(doc, "xmlns:svg", "http://www.w3.org/2000/svg");
    let doc = with(doc, "xmlns", "http://www.w3.org/2000/svg");
    let doc = with(doc, "version", "1.1");
    let doc = with(doc, "width", "100%");
    let doc = with(doc, "viewBox", "0 0 824 623");
    let doc = with(doc, "preserveAspectRatio", "xMidYMid meet");
    let doc = with_child(doc, mask());
    let doc = with_child(doc, background());
    let doc = with_child(doc, text_rows(lines));
    proof {
        assert(element_children(doc) =~= document_children(preview_rows(rows(lines@))));
    }
    doc
}

} // verus!
