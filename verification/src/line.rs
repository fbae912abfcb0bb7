//! The classifier: which role a line of the script plays.

use vstd::prelude::*;
use vstd::string::*;
use crate::text::{all_space, is_blank, starts_with, tail_from, trim, trimmed};

verus! {

/// The role of one line of a script.
#[derive(Clone, Debug, PartialEq, Eq)]
pub enum Line {
    /// The settings line, which only the first line of a script can be.
    HeaderDirective,
    /// A pause; `seconds` is the text that gives its length, without the
    /// white space around it.
    TimeoutDirective { seconds: String },
    /// A remark that leaves no trace.
    Comment,
    /// A command typed key by key after a prompt.
    CommandLine { prompt: String, text: String },
    /// A request to clear the screen.
    ClearDirective,
    /// A short pause.
    Blank,
    /// Text that appears at once.
    Plain { text: String },
}

/// The mathematical value of a [`Line`].
pub enum LineView {
    HeaderDirective,
    TimeoutDirective { seconds: Seq<char> },
    Comment,
    CommandLine { prompt: Seq<char>, text: Seq<char> },
    ClearDirective,
    Blank,
    Plain { text: Seq<char> },
}

impl View for Line {
    type V = LineView;

    open spec fn view(&self) -> LineView {
        match *self {
            Line::HeaderDirective => LineView::HeaderDirective,
            Line::TimeoutDirective { seconds } => LineView::TimeoutDirective { seconds: seconds@ },
            Line::Comment => LineView::Comment,
            Line::CommandLine { prompt, text } => LineView::CommandLine {
                prompt: prompt@,
                text: text@,
            },
            Line::ClearDirective => LineView::ClearDirective,
            Line::Blank => LineView::Blank,
            Line::Plain { text } => LineView::Plain { text: text@ },
        }
    }
}

/// The marker of the settings line.
pub open spec fn header_marker() -> Seq<char> {
    "#! "@
}

/// The marker of a pause.
pub open spec fn timeout_marker() -> Seq<char> {
    "#timeout:"@
}

/// The marker of a remark.
pub open spec fn comment_marker() -> Seq<char> {
    "#"@
}

/// The prompt of a command without a label.
pub open spec fn prompt_marker() -> Seq<char> {
    "$ "@
}

/// The prompt of a command inside a labelled shell.
pub open spec fn shell_prompt_marker() -> Seq<char> {
    "(nix-shell) $ "@
}

/// The label that stands before the prompt inside a labelled shell.
pub open spec fn shell_label() -> Seq<char> {
    "(nix-shell) "@
}

/// The marker of a request to clear the screen.
pub open spec fn clear_marker() -> Seq<char> {
    "--"@
}

/// What follows `marker` in a line that begins with it.
pub open spec fn after(marker: Seq<char>, s: Seq<char>) -> Seq<char> {
    s.subrange(marker.len() as int, s.len() as int)
}

/// The role of the line `s` that stands at position `index` of its script,
/// counted from zero. The first rule that fits decides.
pub open spec fn classified(s: Seq<char>, index: nat) -> LineView {
    if index == 0 && header_marker().is_prefix_of(s) {
        LineView::HeaderDirective
    } else if timeout_marker().is_prefix_of(s) {
        LineView::TimeoutDirective { seconds: trimmed(after(timeout_marker(), s)) }
    } else if comment_marker().is_prefix_of(s) {
        LineView::Comment
    } else if prompt_marker().is_prefix_of(s) {
        LineView::CommandLine { prompt: Seq::empty(), text: after(prompt_marker(), s) }
    } else if shell_prompt_marker().is_prefix_of(s) {
        LineView::CommandLine { prompt: shell_label(), text: after(shell_prompt_marker(), s) }
    } else if clear_marker().is_prefix_of(s) {
        LineView::ClearDirective
    } else if all_space(s) {
        LineView::Blank
    } else {
        LineView::Plain { text: s }
    }
}

/// What follows `marker` in `line`.
fn rest_after<'a>(line: &'a str, marker: &str) -> (rest: &'a str)
    requires
        marker@.is_prefix_of(line@),
    ensures
        rest@ == after(marker@, line@),
{
    let m: usize = marker.unicode_len();
    tail_from(line, m)
}

/// Classifies the line `line` that stands at position `index` of its script.
pub fn classify(line: &str, index: usize) -> (role: Line)
    ensures
        role@ == classified(line@, index as nat),
{
    if index == 0 && starts_with(line, "#! ") {
        Line::HeaderDirective
    } else if starts_with(line, "#timeout:") {
        let rest = rest_after(line, "#timeout:");
        Line::TimeoutDirective { seconds: String::from_str(trim(rest)) }
    } else if starts_with(line, "#") {
        Line::Comment
    } else if starts_with(line, "$ ") {
        Line::CommandLine {
            prompt: String::new(),
            text: String::from_str(rest_after(line, "$ ")),
        }
    } else if starts_with(line, "(nix-shell) $ ") {
        Line::CommandLine {
            prompt: String::from_str("(nix-shell) "),
            text: String::from_str(rest_after(line, "(nix-shell) $ ")),
        }
    } else if starts_with(line, "--") {
        Line::ClearDirective
    } else if is_blank(line) {
        Line::Blank
    } else {
        Line::Plain { text: String::from_str(line) }
    }
}

} // verus!
