//! Turns a line-oriented script of a terminal session into a timed list of
//! terminal actions and into the rows of a static preview.

pub mod document;
pub mod engine;
pub mod header;
pub mod laws;
pub mod line;
pub mod markup;
pub mod preview;
pub mod seconds;
pub mod text;
