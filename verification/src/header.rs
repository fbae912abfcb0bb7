//! The settings of a script: where their text stands, and the size of the
//! terminal where a script names none.

use vstd::prelude::*;
use vstd::string::*;
use crate::line::{after, header_marker};
use crate::text::{starts_with, tail_from};

verus! {

/// The settings text that stands for a script without settings: an object
/// with no field, so that every setting has its default.
pub open spec fn empty_settings() -> Seq<char> {
    "{}"@
}

/// The settings text of a script whose first line is `first_line`: what
/// follows the marker of the settings line, or the empty settings where the
/// line does not begin with the marker.
pub open spec fn settings_text(first_line: Seq<char>) -> Seq<char> {
    if header_marker().is_prefix_of(first_line) {
        after(header_marker(), first_line)
    } else {
        empty_settings()
    }
}

/// The width of the terminal, in columns, where the settings name none.
pub fn default_width() -> (width: u32)
    ensures
        width == 77,
{
    77
}

/// The height of the terminal, in rows, where the settings name none.
pub fn default_height() -> (height: u32)
    ensures
        height == 20,
{
    20
}

/// The settings text of a script whose first line is `first_line`.
pub fn header_source(first_line: &str) -> (settings: String)
    ensures
        settings@ == settings_text(first_line@),
{
    if starts_with(first_line, "#! ") {
        let m: usize = "#! ".unicode_len();
        String::from_str(tail_from(first_line, m))
    } else {
        String::from_str("{}")
    }
}

} // verus!
