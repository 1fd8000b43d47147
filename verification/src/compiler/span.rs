//! Source locations.

use vstd::prelude::*;

verus! {

/// The lines and columns that an expression covers in its source file.
#[derive(Clone, Copy, Debug, PartialEq, Eq, Structural)]
pub struct Span {
    pub line_start: usize,
    pub line_stop: usize,
    pub col_start: usize,
    pub col_stop: usize,
}

impl Span {
    /// A span from its four bounds.
    pub fn new(line_start: usize, line_stop: usize, col_start: usize, col_stop: usize) -> (span: Span)
        ensures
            span == (Span { line_start, line_stop, col_start, col_stop }),
    {
        Span { line_start, line_stop, col_start, col_stop }
    }
}

} // verus!
