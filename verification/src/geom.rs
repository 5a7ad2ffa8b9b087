//! Placement of hexagonal map cells.

use vstd::prelude::*;

verus! {

/// Axial integer coordinate of a hex cell.
#[derive(Clone, Copy, Debug, PartialEq, Eq, Structural)]
pub struct MapPos {
    pub x: i32,
    pub y: i32,
}

/// Position of a cell's centre on the hex lattice, in exact units: `x` counts
/// inradii of a hexagon, `y` counts halves of its circumradius.
#[derive(Clone, Copy, Debug, PartialEq, Eq, Structural)]
pub struct LatticePos {
    pub x: i64,
    pub y: i64,
}

/// Whether the cells of row `y` stand one inradius to the right. The even
/// rows do, so that neighbouring rows interlock.
pub open spec fn is_shifted_row(y: int) -> bool {
    y % 2 == 0
}

/// The centre of cell `(x, y)`: columns are two inradii apart, shifted rows
/// start one inradius in; rows are one and a half circumradii apart.
pub open spec fn lattice_pos(x: int, y: int) -> (int, int) {
    (2 * x + if is_shifted_row(y) { 1int } else { 0int }, 3 * y)
}

/// Tells whether the row of `pos` is a shifted one.
pub fn row_is_shifted(pos: MapPos) -> (shifted: bool)
    ensures
        shifted == is_shifted_row(pos.y as int),
{
    pos.y % 2 == 0
}

/// Places a cell on the hex lattice.
pub fn map_pos_to_lattice_pos(pos: MapPos) -> (placed: LatticePos)
    ensures
        (placed.x as int, placed.y as int) == lattice_pos(pos.x as int, pos.y as int),
        is_shifted_row(pos.y as int) ==> placed.x == 2 * pos.x + 1,
        !is_shifted_row(pos.y as int) ==> placed.x == 2 * pos.x,
{
    let shift: i64 = if row_is_shifted(pos) { 1 } else { 0 };
    LatticePos { x: 2 * (pos.x as i64) + shift, y: 3 * (pos.y as i64) }
}

} // verus!
