//! The span element of the image document, kept as an element of the `svg`
//! crate, and the rows of the preview built from it.

use vstd::prelude::*;
use vstd::string::*;
use svg::node::element::Element;
use svg::node::{Node, Text};
use crate::preview::{pieces, Piece, PieceView};

verus! {

/// The element type of the `svg` crate: a tag, attributes and child nodes.
#[verifier::external_type_specification]
#[verifier::external_body]
pub struct ExElement(Element);

/// The tag of an element.
pub uninterp spec fn element_tag(e: Element) -> Seq<char>;

/// The attributes of an element, each name with its value.
pub uninterp spec fn element_attributes(e: Element) -> Map<Seq<char>, Seq<char>>;

/// The child nodes of an element in their order, each by the text that it is
/// written as.
pub uninterp spec fn element_children(e: Element) -> Seq<Seq<char>>;

/// The text that an element with this tag, these attributes and these
/// children is written as.
pub uninterp spec fn markup_of(
    tag: Seq<char>,
    attributes: Map<Seq<char>, Seq<char>>,
    children: Seq<Seq<char>>,
) -> Seq<char>;

/// No attribute at all.
pub open spec fn no_attributes() -> Map<Seq<char>, Seq<char>> {
    Map::empty()
}

/// No child at all.
pub open spec fn no_children() -> Seq<Seq<char>> {
    Seq::empty()
}

/// `svg::node::element::Element::new`: an element with the given tag, no
/// attribute and no child.
#[verifier::external_body]
pub(crate) fn element_new(tag: &str) -> (e: Element)
    ensures
        element_tag(e) == tag@,
        element_attributes(e) == no_attributes(),
        element_children(e) == no_children(),
{
    Element::new(tag)
}

/// `svg::node::Node::append` on an element, with a text node made by
/// `svg::node::Text::new`: the node becomes the last child. A text node is
/// written as its content, unchanged.
#[verifier::external_body]
pub(crate) fn element_append_text(e: &mut Element, content: String)
    ensures
        element_tag(*final(e)) == element_tag(*old(e)),
        element_attributes(*final(e)) == element_attributes(*old(e)),
        element_children(*final(e)) == element_children(*old(e)).push(content@),
{
    Node::append(e, Text::new(content));
}

/// `svg::node::Node::append` on an element, with an element: it becomes the
/// last child, written as an element of its tag, attributes and children.
#[verifier::external_body]
pub(crate) fn element_append_element(e: &mut Element, child: Element)
    ensures
        element_tag(*final(e)) == element_tag(*old(e)),
        element_attributes(*final(e)) == element_attributes(*old(e)),
        element_children(*final(e)) == element_children(*old(e)).push(
            markup_of(element_tag(child), element_attributes(child), element_children(child)),
        ),
{
    Node::append(e, child);
}

/// `svg::node::Node::assign` on an element: the attribute `name` gets the
/// value `value`, in place of the value that it had, if it had one.
#[verifier::external_body]
pub(crate) fn element_assign(e: &mut Element, name: &str, value: &str)
    ensures
        element_tag(*final(e)) == element_tag(*old(e)),
        element_attributes(*final(e)) == element_attributes(*old(e)).insert(name@, value@),
        element_children(*final(e)) == element_children(*old(e)),
{
    Node::assign(e, name, value);
}

/// `to_string` on an element, which goes by its `Display`: the text that the
/// element is written as, a function of its tag, attributes and children.
#[verifier::external_body]
pub(crate) fn element_to_string(e: &Element) -> (text: String)
    ensures
        text@ == markup_of(element_tag(*e), element_attributes(*e), element_children(*e)),
{
    e.to_string()
}

/// `Clone::clone` of an element, which `derive` wrote: the copy has the tag
/// and the attributes of the element. Of the children nothing is claimed:
/// each is copied by its own type's `clone`.
pub assume_specification[ <Element as Clone>::clone ](e: &Element) -> (copy: Element)
    ensures
        element_tag(copy) == element_tag(*e),
        element_attributes(copy) == element_attributes(*e),
;

/// The tag of a span.
pub open spec fn span_tag() -> Seq<char> {
    "tspan"@
}

/// A span of text inside a text element of the image document.
#[derive(Debug)]
pub struct TSpan {
    inner: Element,
}

impl TSpan {
    /// Every span is an element with the tag of a span.
    #[verifier::type_invariant]
    spec fn tagged(&self) -> bool {
        element_tag(self.inner) == span_tag()
    }

    /// The attributes of the span.
    pub closed spec fn attributes(&self) -> Map<Seq<char>, Seq<char>> {
        element_attributes(self.inner)
    }

    /// The children of the span, each by the text that it is written as.
    pub closed spec fn children(&self) -> Seq<Seq<char>> {
        element_children(self.inner)
    }

    /// The text that the span is written as.
    pub open spec fn markup(&self) -> Seq<char> {
        markup_of(span_tag(), self.attributes(), self.children())
    }

    /// A span without attributes and children.
    pub fn new() -> (span: Self)
        ensures
            span.attributes() == no_attributes(),
            span.children() == no_children(),
    {
        TSpan { inner: element_new("tspan") }
    }

    /// The span with the span `node` as one more child at its end.
    pub fn append(self, node: TSpan) -> (span: Self)
        ensures
            span.attributes() == self.attributes(),
            span.children() == self.children().push(node.markup()),
    {
        proof {
            use_type_invariant(&self);
            use_type_invariant(&node);
        }
        let mut inner = self.inner;
        element_append_element(&mut inner, node.inner);
        TSpan { inner }
    }

    /// The span with the text `content` as one more child at its end.
    pub fn append_text(self, content: String) -> (span: Self)
        ensures
            span.attributes() == self.attributes(),
            span.children() == self.children().push(content@),
    {
        proof {
            use_type_invariant(&self);
        }
        let mut inner = self.inner;
        element_append_text(&mut inner, content);
        TSpan { inner }
    }

    /// The span with the attribute `name` set to `value`.
    pub fn set(self, name: &str, value: &str) -> (span: Self)
        ensures
            span.attributes() == self.attributes().insert(name@, value@),
            span.children() == self.children(),
    {
        proof {
            use_type_invariant(&self);
        }
        let mut inner = self.inner;
        element_assign(&mut inner, name, value);
        TSpan { inner }
    }

    /// The element that the span is kept as.
    pub fn get_inner(&self) -> (inner: &Element)
        ensures
            element_tag(*inner) == span_tag(),
            element_attributes(*inner) == self.attributes(),
            element_children(*inner) == self.children(),
    {
        proof {
            use_type_invariant(self);
        }
        &self.inner
    }

    /// The span as an element, to stand inside another.
    pub fn into_inner(self) -> (inner: Element)
        ensures
            element_tag(inner) == span_tag(),
            element_attributes(inner) == self.attributes(),
            element_children(inner) == self.children(),
    {
        proof {
            use_type_invariant(&self);
        }
        self.inner
    }

    /// The text that the span is written as.
    pub fn to_text(&self) -> (text: String)
        ensures
            text@ == self.markup(),
    {
        proof {
            use_type_invariant(self);
        }
        element_to_string(&self.inner)
    }
}

impl Clone for TSpan {
    /// A copy of the span, with its attributes.
    fn clone(&self) -> (copy: Self)
        ensures
            copy.attributes() == self.attributes(),
    {
        proof {
            use_type_invariant(self);
        }
        TSpan { inner: self.inner.clone() }
    }
}

impl Default for TSpan {
    /// A span without attributes and children.
    fn default() -> (span: Self)
        ensures
            span.attributes() == no_attributes(),
            span.children() == no_children(),
    {
        Self::new()
    }
}

/// The attributes of a row: it starts at the left edge, one line below the
/// row before it.
pub open spec fn row_attributes() -> Map<Seq<char>, Seq<char>> {
    no_attributes().insert("x"@, "0"@).insert("dy"@, "1.2em"@)
}

/// The attributes of an emphasised span.
pub open spec fn emphasis_attributes() -> Map<Seq<char>, Seq<char>> {
    no_attributes().insert("class"@, "fg-15"@)
}

/// The text that a piece is written as inside its row: plain text as it is,
/// emphasised text as the one child of an emphasised span.
pub open spec fn piece_markup(piece: PieceView) -> Seq<char> {
    match piece {
        PieceView::Plain { text } => text,
        PieceView::Emphasis { text } => markup_of(span_tag(), emphasis_attributes(), seq![text]),
    }
}

/// The children of a row with the pieces `row`.
pub open spec fn row_children(row: Seq<PieceView>) -> Seq<Seq<char>> {
    row.map_values(|p: PieceView| piece_markup(p))
}

/// The span of a row with the pieces `row`.
pub fn row_span(row: &Vec<Piece>) -> (span: TSpan)
    ensures
        span.attributes() == row_attributes(),
        span.children() == row_children(pieces(row@)),
{
    let mut span = TSpan::new().set("x", "0").set("dy", "1.2em");
    let n: usize = row.len();
    let mut i: usize = 0;
    proof {
        assert(span.children() =~= row_children(pieces(row@).subrange(0, 0)));
    }
    while i < n
        invariant
            0 <= i <= n,
            n == row@.len(),
            span.attributes() == row_attributes(),
            span.children() == row_children(pieces(row@).subrange(0, i as int)),
        decreases n - i,
    {
        let ghost before = span.children();
        match &row[i] {
            Piece::Plain { text } => {
                span = span.append_text(text.clone());
            },
            Piece::Emphasis { text } => {
                let inner = TSpan::new().set("class", "fg-15").append_text(text.clone());
                proof {
                    assert(inner.children() =~= seq![text@]);
                }
                span = span.append(inner);
            },
        }
        proof {
            assert(span.children() == before.push(piece_markup(row@[i as int]@)));
            assert(pieces(row@).subrange(0, i + 1) =~= pieces(row@).subrange(0, i as int).push(
                row@[i as int]@,
            ));
            assert(span.children() =~= row_children(pieces(row@).subrange(0, i + 1)));
        }
        i += 1;
    }
    proof {
        assert(pieces(row@).subrange(0, n as int) =~= pieces(row@));
    }
    span
}

} // verus!
