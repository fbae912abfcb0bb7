use asciinema_scenario::engine::run;
use asciinema_scenario::markup::{row_span, TSpan};
use asciinema_scenario::preview::{find_marker, push_segment, render_row, render_rows, Piece};

fn plain(text: &str) -> Piece {
    Piece::Plain { text: text.to_string() }
}

fn emphasis(text: &str) -> Piece {
    Piece::Emphasis { text: text.to_string() }
}

fn segments(items: &[&str]) -> Vec<String> {
    items.iter().map(|s| s.to_string()).collect()
}

#[test]
fn empty_segment_is_the_bare_prompt() {
    assert_eq!(render_row(&segments(&[""])), vec![plain("$ ")]);
}

#[test]
fn segment_without_marker_is_escaped_whole() {
    assert_eq!(
        render_row(&segments(&["a<b>&\"c'/d"])),
        vec![plain("a&lt;b&gt;&amp;&quot;c&#x27;&#x2F;d")]
    );
}

#[test]
fn segment_is_cut_at_its_first_marker() {
    assert_eq!(
        render_row(&segments(&["ls <x> # all # <files>"])),
        vec![plain("ls &lt;x&gt; "), emphasis(" all # &lt;files&gt;")]
    );
    assert_eq!(render_row(&segments(&["#"])), vec![plain(""), emphasis("")]);
    assert_eq!(render_row(&segments(&["a#"])), vec![plain("a"), emphasis("")]);
    assert_eq!(render_row(&segments(&["#b"])), vec![plain(""), emphasis("b")]);
}

#[test]
fn find_marker_gives_the_first_or_the_length() {
    assert_eq!(find_marker(""), 0);
    assert_eq!(find_marker("abc"), 3);
    assert_eq!(find_marker("é#b#"), 1);
    assert_eq!(find_marker("#"), 0);
}

#[test]
fn push_segment_adds_to_the_row() {
    let mut row = vec![plain("x")];
    push_segment(&mut row, "a#b");
    assert_eq!(row, vec![plain("x"), plain("a"), emphasis("b")]);
}

#[test]
fn command_row_has_prompt_and_text() {
    assert_eq!(render_row(&segments(&["", "ls"])), vec![plain("$ "), plain("ls")]);
    assert_eq!(
        render_row(&segments(&["(nix-shell) ", "ls #x"])),
        vec![plain("(nix-shell) "), plain("ls "), emphasis("x")]
    );
}

#[test]
fn rows_follow_the_preview_lines() {
    let lines: Vec<String> =
        ["# c", "$ a", "--", "", "<b>", "#timeout: 1"].iter().map(|s| s.to_string()).collect();
    let session = run(&lines).unwrap();
    let rows = render_rows(&session.preview);
    assert_eq!(rows, vec![vec![plain("$ "), plain("a")], vec![plain("&lt;b&gt;")]]);
    assert!(render_rows(&Vec::new()).is_empty());
}

#[test]
fn escaped_rows_hold_no_reserved_character() {
    let rows = render_rows(&vec![segments(&["<a href=\"x\">'/'</a> # <b>"])]);
    for row in rows {
        for piece in row {
            let text = match piece {
                Piece::Plain { text } => text,
                Piece::Emphasis { text } => text,
            };
            assert!(!text.contains(|c| c == '<' || c == '>' || c == '"' || c == '\'' || c == '/'));
        }
    }
}

#[test]
fn span_is_written_with_sorted_attributes_and_children() {
    let span = TSpan::new().set("x", "0").set("dy", "1.2em");
    assert_eq!(span.to_text(), "<tspan dy=\"1.2em\" x=\"0\"/>");
    let span = span.append_text("a".to_string());
    assert_eq!(span.to_text(), "<tspan dy=\"1.2em\" x=\"0\">\na\n</tspan>");
    let inner = TSpan::new().set("class", "fg-15").append_text("b".to_string());
    let span = span.append(inner);
    assert_eq!(
        span.to_text(),
        "<tspan dy=\"1.2em\" x=\"0\">\na\n<tspan class=\"fg-15\">\nb\n</tspan>\n</tspan>"
    );
    assert_eq!(span.get_inner().to_string(), span.to_text());
}

#[test]
fn set_replaces_the_value_of_an_attribute() {
    let span = TSpan::new().set("x", "0").set("x", "4");
    assert_eq!(span.to_text(), "<tspan x=\"4\"/>");
    assert_eq!(TSpan::new().to_text(), "<tspan/>");
}

#[test]
fn row_span_holds_its_pieces() {
    let span = row_span(&vec![plain("$ "), plain("ls "), emphasis("&lt;x&gt;")]);
    assert_eq!(
        span.to_text(),
        "<tspan dy=\"1.2em\" x=\"0\">\n$ \nls \n<tspan class=\"fg-15\">\n&lt;x&gt;\n</tspan>\n</tspan>"
    );
    assert_eq!(row_span(&Vec::new()).to_text(), "<tspan dy=\"1.2em\" x=\"0\"/>");
}

#[test]
fn copy_of_a_span_is_written_as_the_span() {
    let span = TSpan::new().set("x", "0").append_text("a".to_string());
    assert_eq!(span.clone().to_text(), span.to_text());
}

#[test]
fn default_span_is_the_new_span() {
    assert_eq!(TSpan::default().to_text(), TSpan::new().to_text());
    assert_eq!(TSpan::new().set("a", "b").into_inner().to_string(), "<tspan a=\"b\"/>");
}
