use vstd::prelude::*;

verus! {

/// Terminal dimensions for the pty: character cells, and an optional hint of
/// the pixel size (zero where unknown). Rows and columns must be positive.
#[derive(Clone, Copy, PartialEq, Eq, Structural)]
pub struct PtySize {
    pub rows: u16,
    pub cols: u16,
    pub pixel_width: u16,
    pub pixel_height: u16,
}

impl PtySize {
    /// A size is valid when both character dimensions are positive.
    pub open spec fn valid(self) -> bool {
        self.rows > 0 && self.cols > 0
    }

    /// Builds a size from character dimensions alone.
    pub fn new(rows: u16, cols: u16) -> (s: Self)
        requires
            rows > 0,
            cols > 0,
        ensures
            s.valid(),
            s.rows == rows,
            s.cols == cols,
            s.pixel_width == 0,
            s.pixel_height == 0,
    {
        PtySize { rows, cols, pixel_width: 0, pixel_height: 0 }
    }
}

} // verus!
