//! Cells of the HRAP grid and the values measured in them.

use vstd::prelude::*;
use crate::utils::Millimeters;

verus! {

/// A cell of the HRAP grid, by its column `x` and its row `y`.
#[derive(Debug, Clone, Copy, PartialEq, Eq, Structural)]
pub struct GridCell {
    pub x: i64,
    pub y: i64,
}

impl GridCell {
    /// The cell in column `x` and row `y`.
    pub fn new(x: i64, y: i64) -> (cell: Self)
        ensures
            cell == (GridCell { x, y }),
    {
        Self { x, y }
    }
}

/// The depth of precipitation in one cell.
#[derive(Debug, Clone, Copy, PartialEq, Eq, Structural)]
pub struct Feature {
    pub cell: GridCell,
    pub value: Millimeters,
}

impl Feature {
    /// The value `value` in the cell `cell`.
    pub fn new(cell: GridCell, value: Millimeters) -> (feature: Self)
        ensures
            feature == (Feature { cell, value }),
    {
        Feature { cell, value }
    }
}

} // verus!
