//! Pixel geometry of the board: which cell contains a pointer position, and
//! the hit test for the fixed on-screen solve button.
//!
//! Pointer positions are given in whole pixels, measured from the top-left
//! corner of the grid; coordinates may be negative or beyond the grid when
//! the pointer is outside it.

use vstd::prelude::*;

verus! {

/// Width and height of the square grid, in pixels.
pub const GRID_PIXELS: i32 = 750;

/// Number of cells along each side of the grid.
pub const GRID_CELLS: i32 = 9;

/// Left edge of the solve button rectangle (half a grid width minus half a
/// button width).
pub const BUTTON_LEFT: i32 = 275;

/// Top edge of the solve button rectangle (just below the grid).
pub const BUTTON_TOP: i32 = 790;

/// Width of the solve button rectangle, in pixels.
pub const BUTTON_WIDTH: i32 = 200;

/// Height of the solve button rectangle, in pixels.
pub const BUTTON_HEIGHT: i32 = 80;

/// A pointer position is inside the grid when both coordinates lie in
/// [0, GRID_PIXELS).
pub open spec fn spec_in_grid(px: int, py: int) -> bool {
    &&& 0 <= px < GRID_PIXELS as int
    &&& 0 <= py < GRID_PIXELS as int
}

/// Index of the cell band a pixel coordinate falls in: the grid is split
/// into GRID_CELLS equal bands, so band i covers pixels
/// [i * GRID_PIXELS / GRID_CELLS, (i + 1) * GRID_PIXELS / GRID_CELLS).
pub open spec fn spec_cell_index(p: int) -> int {
    p * (GRID_CELLS as int) / (GRID_PIXELS as int)
}

/// The cell under a pointer position, as (column, row) indices, or `None`
/// when the pointer is outside the grid.
pub fn cell_at(px: i32, py: i32) -> (r: Option<(usize, usize)>)
    ensures
        spec_in_grid(px as int, py as int) ==> r == Some((
            spec_cell_index(px as int) as usize,
            spec_cell_index(py as int) as usize,
        )),
        !spec_in_grid(px as int, py as int) ==> r is None,
        r matches Some((x, y)) ==> x < 9 && y < 9,
{
    if px >= 0 && px < GRID_PIXELS && py >= 0 && py < GRID_PIXELS {
        let x: usize = (px as usize) * 9 / 750;
        let y: usize = (py as usize) * 9 / 750;
        Some((x, y))
    } else {
        None
    }
}

/// A pointer position is on the solve button when it lies strictly inside
/// the button rectangle.
pub open spec fn spec_on_button(px: int, py: int) -> bool {
    &&& BUTTON_LEFT < px < BUTTON_LEFT + BUTTON_WIDTH
    &&& BUTTON_TOP < py < BUTTON_TOP + BUTTON_HEIGHT
}

/// True exactly when the pointer is down and on the solve button; on a true
/// result the caller fills the grid with `Cells::apply_solve`.
pub fn check_solve_button(px: i32, py: i32, pointer_down: bool) -> (r: bool)
    ensures
        r == (pointer_down && spec_on_button(px as int, py as int)),
{
    pointer_down && px > BUTTON_LEFT && px < BUTTON_LEFT + BUTTON_WIDTH && py > BUTTON_TOP
        && py < BUTTON_TOP + BUTTON_HEIGHT
}

} // verus!
