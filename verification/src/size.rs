//! The extent of a screen area.

use vstd::prelude::*;

verus! {

/// Rows and display columns.
#[derive(Clone, Copy, Debug, PartialEq, Eq, Structural)]
pub struct Size {
    pub height: usize,
    pub width: usize,
}

impl Default for Size {
    fn default() -> (size: Size)
        ensures
            size == (Size { height: 0, width: 0 }),
    {
        Size { height: 0, width: 0 }
    }
}

} // verus!
