use asciinema_scenario::document::{background, mask, preview_document, text_rows};
use asciinema_scenario::engine::run;
use svg::node::element::{Mask, Rectangle, TSpan, Text as TextElement};
use svg::node::Text;
use svg::Document;

fn canvas(text: TextElement) -> Document {
    let mask_rect = Rectangle::new()
        .set("x", "0")
        .set("y", "0")
        .set("width", "824")
        .set("height", "623")
        .set("fill", "#fff");
    let mask = Mask::new().set("id", "bigterminal-mask").add(mask_rect);
    let rect = Rectangle::new()
        .set("class", "background")
        .set("y", "0")
        .set("x", "0")
        .set("width", "824")
        .set("height", "623");
    Document::new()
        .set("xmlns:dc", "http://purl.org/dc/elements/1.1/")
        .set("xmlns:cc", "http://creativecommons.org/ns#")
        .set("xmlns:rdf", "http://www.w3.org/1999/02/22-rdf-syntax-ns#")
        .set("xmlns:svg", "http://www.w3.org/2000/svg")
        .set("xmlns", "http://www.w3.org/2000/svg")
        .set("version", "1.1")
        .set("width", "100%")
        .set("viewBox", "0 0 824 623")
        .set("preserveAspectRatio", "xMidYMid meet")
        .add(mask)
        .add(rect)
        .add(text)
}

fn text_element() -> TextElement {
    TextElement::new()
        .set("mask", "url(#bigterminal-mask)")
        .set("transform", "translate(0 0)")
        .set("y", "0")
        .set("x", "0")
        .set("xml:space", "preserve")
}

fn row() -> TSpan {
    TSpan::new().set("x", "0").set("dy", "1.2em")
}

#[test]
fn document_of_no_line_is_the_empty_canvas() {
    let doc = preview_document(&Vec::new());
    assert_eq!(doc.to_string(), canvas(text_element()).to_string());
}

#[test]
fn document_has_one_row_per_preview_line() {
    let lines: Vec<String> =
        ["# c", "$ ls #x", "--", "<p> & 'q'", ""].iter().map(|s| s.to_string()).collect();
    let session = run(&lines).unwrap();
    let doc = preview_document(&session.preview);
    let text = text_element()
        .add(
            row()
                .add(Text::new("$ "))
                .add(Text::new("ls "))
                .add(TSpan::new().set("class", "fg-15").add(Text::new("x"))),
        )
        .add(row().add(Text::new("&lt;p&gt; &amp; &#x27;q&#x27;")));
    assert_eq!(doc.to_string(), canvas(text).to_string());
    assert_eq!(doc.to_string().matches("dy=\"1.2em\"").count(), 2);
}

#[test]
fn parts_of_the_canvas() {
    assert_eq!(
        mask().to_string(),
        "<mask id=\"bigterminal-mask\">\n<rect fill=\"#fff\" height=\"623\" width=\"824\" x=\"0\" y=\"0\"/>\n</mask>"
    );
    assert_eq!(
        background().to_string(),
        "<rect class=\"background\" height=\"623\" width=\"824\" x=\"0\" y=\"0\"/>"
    );
    assert_eq!(text_rows(&Vec::new()).to_string(), text_element().to_string());
}
