//! The size of a terminal, in cells and pixels.

use vstd::prelude::*;

verus! {

/// The dimensions of a terminal: rows and columns of cells, their extent in
/// pixels, and the resolution.
#[derive(Debug, Clone, Copy, PartialEq, Eq, Structural)]
pub struct TerminalSize {
    pub rows: usize,
    pub cols: usize,
    pub pixel_width: usize,
    pub pixel_height: usize,
    pub dpi: u32,
}

impl TerminalSize {
    /// The size of a terminal that nobody has sized yet: 24 rows of 80
    /// columns, with no pixel extent and no resolution.
    pub open spec fn initial() -> TerminalSize {
        TerminalSize { rows: 24, cols: 80, pixel_width: 0, pixel_height: 0, dpi: 0 }
    }
}

impl Default for TerminalSize {
    fn default() -> (size: Self)
        ensures
            size == TerminalSize::initial(),
    {
        TerminalSize { rows: 24, cols: 80, pixel_width: 0, pixel_height: 0, dpi: 0 }
    }
}

} // verus!
