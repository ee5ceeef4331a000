//! Screen-space geometry: the terminal cell grid size and caret positions.

use vstd::prelude::*;

verus! {

/// The size of the drawable cell grid, in rows (`height`) and columns
/// (`width`). A zero in either dimension disables rendering.
#[derive(Clone, Copy, Debug, Default, PartialEq, Eq, Structural)]
pub struct Size {
    pub height: usize,
    pub width: usize,
}

/// A screen-space coordinate: `row` counts down from the top of the grid,
/// `col` counts right from the left edge.
#[derive(Clone, Copy, Debug, Default, PartialEq, Eq, Structural)]
pub struct Position {
    pub col: usize,
    pub row: usize,
}

impl Position {
    /// Component-wise saturating difference, used to map an absolute buffer
    /// coordinate to a coordinate relative to the scroll offset.
    pub fn saturating_sub(&self, other: Self) -> (r: Self)
        ensures
            r.row == if self.row >= other.row {
                self.row - other.row
            } else {
                0
            },
            r.col == if self.col >= other.col {
                self.col - other.col
            } else {
                0
            },
    {
        Self { row: self.row.saturating_sub(other.row), col: self.col.saturating_sub(other.col) }
    }
}

} // verus!
