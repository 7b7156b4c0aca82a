//! Source ranges.

use vstd::prelude::*;

verus! {

/// A span of source text, given by the offsets of its first byte and of the
/// byte after its last.
#[derive(Clone, Copy, Debug, PartialEq, Eq, Hash, Structural)]
pub struct TextRange {
    pub start: u32,
    pub end: u32,
}

impl TextRange {
    /// The range from `start` up to, and not including, `end`.
    pub fn new(start: u32, end: u32) -> (range: TextRange)
        ensures
            range.start == start,
            range.end == end,
    {
        TextRange { start, end }
    }
}

} // verus!
