//! Shared coordinate types: the viewport dimensions and a position
//! expressed relative to the currently visible window.

use vstd::prelude::*;

verus! {

/// Dimensions of the visible window, in character cells.
#[derive(Debug, Clone, Copy, PartialEq, Eq, Structural)]
pub struct Size {
    pub cols: usize,
    pub rows: usize,
}

/// A grid coordinate relative to the top-left of the visible window:
/// `x` is a column, `y` a row within the viewport.  Converting to an
/// absolute coordinate adds the scroll offset at capture time, so that
/// later scrolling does not change which cell is meant.
#[derive(Debug, Clone, Copy, PartialEq, Eq, Structural)]
pub struct VisiblePosition {
    pub x: usize,
    pub y: usize,
}

} // verus!
