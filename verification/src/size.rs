//! Physical window size in pixels.

use vstd::prelude::*;

verus! {

/// A window's physical size. A size with a zero dimension describes a
/// minimised window and is never stored in the render state.
#[derive(Clone, Copy, Debug, PartialEq, Eq, Structural)]
pub struct Size {
    pub width: u32,
    pub height: u32,
}

impl Size {
    /// Both dimensions are non-zero, so the size is valid as a surface extent.
    pub open spec fn is_nonzero(self) -> bool {
        self.width > 0 && self.height > 0
    }

    pub fn new(width: u32, height: u32) -> (s: Size)
        ensures
            s == (Size { width, height }),
    {
        Size { width, height }
    }

    /// True exactly when both dimensions are non-zero.
    pub fn nonzero(&self) -> (r: bool)
        ensures
            r == self.is_nonzero(),
    {
        self.width > 0 && self.height > 0
    }
}

} // verus!
