//! The board state and its frame-by-frame updates.
//!
//! `Cells` holds the 9x9 grid of digits and the optional selected cell.
//! Once per frame the caller reads the pointer and keyboard and hands the
//! result to `handle_input`; when the solve button was pressed it calls
//! `apply_solve`. Both keep the board well formed: 81 cells, every value in
//! [0, 9], any selection inside the grid.

use vstd::prelude::*;
use crate::geometry::cell_at;
use crate::geometry::spec_cell_index;
use crate::geometry::spec_in_grid;
use crate::display::CellDisplay;
use crate::display::cell_display;
use crate::display::spec_cell_display;

verus! {

/// Number of cells in the grid (9 columns of 9 rows).
pub const CELL_COUNT: usize = 81;

/// The sudoku board: 81 digit values and the selected cell, if any.
///
/// The grid is stored column by column: cell (x, y), with x the column and
/// y the row, sits at index x * 9 + y.
pub struct Cells {
    cells: Vec<u8>,
    editing_cell: Option<(usize, usize)>,
}

/// The digit a key press stands for: `Some(d)` exactly for the ten
/// characters '0' through '9'; every other character is ignored.
pub open spec fn spec_digit_of(c: char) -> Option<u8> {
    if c == '0' {
        Some(0u8)
    } else if c == '1' {
        Some(1u8)
    } else if c == '2' {
        Some(2u8)
    } else if c == '3' {
        Some(3u8)
    } else if c == '4' {
        Some(4u8)
    } else if c == '5' {
        Some(5u8)
    } else if c == '6' {
        Some(6u8)
    } else if c == '7' {
        Some(7u8)
    } else if c == '8' {
        Some(8u8)
    } else if c == '9' {
        Some(9u8)
    } else {
        None
    }
}

/// The digit a key press stands for, or `None` for a non-digit key.
pub fn digit_of(c: char) -> (r: Option<u8>)
    ensures
        r == spec_digit_of(c),
{
    match c {
        '0' => Some(0),
        '1' => Some(1),
        '2' => Some(2),
        '3' => Some(3),
        '4' => Some(4),
        '5' => Some(5),
        '6' => Some(6),
        '7' => Some(7),
        '8' => Some(8),
        '9' => Some(9),
        _ => None,
    }
}

/// The selection after one frame of input: a pointer press inside the grid
/// selects the cell under the pointer; otherwise a cancel press clears the
/// selection; otherwise it is unchanged. A pointer press outside the grid
/// leaves the selection alone (except that a cancel press on the same frame
/// still clears it).
pub open spec fn spec_next_selection(
    sel: Option<(usize, usize)>,
    px: int,
    py: int,
    pointer_down: bool,
    cancel_key: bool,
) -> Option<(usize, usize)> {
    if pointer_down && spec_in_grid(px, py) {
        Some((spec_cell_index(px) as usize, spec_cell_index(py) as usize))
    } else if cancel_key {
        None
    } else {
        sel
    }
}

/// The grid after one frame of input: a digit key pressed while a cell is
/// selected overwrites that cell with the digit; in every other case (no
/// key, a non-digit key, or no selection) the grid is unchanged.
pub open spec fn spec_next_grid(
    grid: Seq<u8>,
    sel: Option<(usize, usize)>,
    digit_key: Option<char>,
) -> Seq<u8> {
    match (digit_key, sel) {
        (Some(c), Some((x, y))) => match spec_digit_of(c) {
            Some(d) => grid.update(x * 9 + y, d),
            None => grid,
        },
        _ => grid,
    }
}

impl Cells {
    /// The grid contents as a sequence of 81 digits; cell (x, y) is at
    /// index x * 9 + y.
    pub closed spec fn grid(self) -> Seq<u8> {
        self.cells@
    }

    /// The selected cell, if any, as (column, row) indices.
    pub closed spec fn selection(self) -> Option<(usize, usize)> {
        self.editing_cell
    }

    /// Well-formed board: exactly 81 cells, each holding a value in
    /// [0, 9], and any selected cell inside the grid.
    pub open spec fn wf(self) -> bool {
        &&& self.grid().len() == CELL_COUNT as int
        &&& forall|i: int| 0 <= i < CELL_COUNT as int ==> self.grid()[i] <= 9
        &&& (self.selection() matches Some((x, y)) ==> x < 9 && y < 9)
    }

    /// A fresh board: every cell empty, nothing selected.
    pub fn new() -> (r: Cells)
        ensures
            r.wf(),
            r.selection() is None,
            forall|i: int| 0 <= i < CELL_COUNT as int ==> r.grid()[i] == 0,
    {
        let mut cells: Vec<u8> = Vec::new();
        let mut i: usize = 0;
        while i < CELL_COUNT
            invariant
                i <= CELL_COUNT,
                cells@.len() == i,
                forall|j: int| 0 <= j < i ==> cells@[j] == 0,
            decreases CELL_COUNT - i,
        {
            cells.push(0);
            i = i + 1;
        }
        Cells { cells, editing_cell: None }
    }

    /// The digit in cell (x, y), 0 meaning empty.
    pub fn get(&self, x: usize, y: usize) -> (r: u8)
        requires
            self.wf(),
            x < 9,
            y < 9,
        ensures
            r == self.grid()[x as int * 9 + y as int],
    {
        self.cells[x * 9 + y]
    }

    /// The selected cell, if any, as (column, row) indices.
    pub fn selected(&self) -> (r: Option<(usize, usize)>)
        ensures
            r == self.selection(),
    {
        self.editing_cell
    }

    /// One frame of input handling. The digit key is applied first, to the
    /// cell selected when the frame began; then the selection is updated
    /// from the pointer and the cancel key. `(px, py)` is the pointer
    /// position in pixels from the grid's top-left corner.
    pub fn handle_input(
        &mut self,
        px: i32,
        py: i32,
        pointer_down: bool,
        digit_key: Option<char>,
        cancel_key: bool,
    )
        requires
            old(self).wf(),
        ensures
            final(self).wf(),
            final(self).grid() == spec_next_grid(
                old(self).grid(),
                old(self).selection(),
                digit_key,
            ),
            final(self).selection() == spec_next_selection(
                old(self).selection(),
                px as int,
                py as int,
                pointer_down,
                cancel_key,
            ),
    {
        if let Some(c) = digit_key {
            if let Some(d) = digit_of(c) {
                if let Some((x, y)) = self.editing_cell {
                    self.cells.set(x * 9 + y, d);
                }
            }
        }
        let pointed: Option<(usize, usize)> = if pointer_down {
            cell_at(px, py)
        } else {
            None
        };
        self.editing_cell = match pointed {
            Some(cell) => Some(cell),
            None => if cancel_key {
                None
            } else {
                self.editing_cell
            },
        };
    }

    /// The placeholder solve action: overwrite every cell with the same
    /// digit, (tick % 9) + 1, always a value in [1, 9]. No real solving
    /// happens. The selection is untouched.
    pub fn apply_solve(&mut self, tick: u32)
        requires
            old(self).wf(),
        ensures
            final(self).wf(),
            forall|i: int|
                0 <= i < CELL_COUNT as int ==> final(self).grid()[i] == tick as int % 9 + 1,
            final(self).selection() == old(self).selection(),
    {
        let v: u8 = (tick % 9) as u8 + 1;
        let ghost sel0 = self.editing_cell;
        let mut i: usize = 0;
        while i < CELL_COUNT
            invariant
                i <= CELL_COUNT,
                self.cells@.len() == CELL_COUNT as int,
                v == tick as int % 9 + 1,
                forall|j: int| 0 <= j < i ==> self.cells@[j] == v,
                forall|j: int| 0 <= j < CELL_COUNT as int ==> self.cells@[j] <= 9,
                self.editing_cell == sel0,
            decreases CELL_COUNT - i,
        {
            self.cells.set(i, v);
            i = i + 1;
        }
    }

    /// What to draw in cell (x, y) on the frame with the given tick: the
    /// cell's display decision, treating it as selected exactly when it is
    /// the selected cell.
    pub fn render_cell(&self, x: usize, y: usize, tick: u32) -> (r: CellDisplay)
        requires
            self.wf(),
            x < 9,
            y < 9,
        ensures
            r == spec_cell_display(
                self.grid()[x as int * 9 + y as int],
                self.selection() == Some((x, y)),
                tick,
            ),
    {
        let selected: bool = match self.editing_cell {
            Some((sx, sy)) => sx == x && sy == y,
            None => false,
        };
        cell_display(self.cells[x * 9 + y], selected, tick)
    }
}

/// Law: a pointer press inside the grid always selects exactly the cell
/// under the pointer, whatever was selected before and whatever other keys
/// are pressed on the same frame.
pub proof fn lemma_pointer_selects(
    sel: Option<(usize, usize)>,
    px: int,
    py: int,
    cancel_key: bool,
)
    requires
        spec_in_grid(px, py),
    ensures
        spec_next_selection(sel, px, py, true, cancel_key) == Some(
            (spec_cell_index(px) as usize, spec_cell_index(py) as usize),
        ),
{
}

/// Law: a cancel press clears the selection, whatever it was, on every
/// frame without a pointer press inside the grid (a pointer press inside
/// the grid takes precedence and selects instead).
pub proof fn lemma_cancel_clears(
    sel: Option<(usize, usize)>,
    px: int,
    py: int,
    pointer_down: bool,
)
    requires
        !(pointer_down && spec_in_grid(px, py)),
    ensures
        spec_next_selection(sel, px, py, pointer_down, true) is None,
{
}

/// Law: a digit key pressed while a cell is selected writes exactly that
/// digit to the selected cell and leaves every other cell unchanged.
pub proof fn lemma_digit_writes(grid: Seq<u8>, x: usize, y: usize, c: char, d: u8)
    requires
        grid.len() == CELL_COUNT as int,
        x < 9,
        y < 9,
        spec_digit_of(c) == Some(d),
    ensures
        spec_next_grid(grid, Some((x, y)), Some(c)).len() == CELL_COUNT as int,
        spec_next_grid(grid, Some((x, y)), Some(c))[x as int * 9 + y as int] == d,
        forall|i: int|
            0 <= i < CELL_COUNT as int && i != x as int * 9 + y as int ==> spec_next_grid(
                grid,
                Some((x, y)),
                Some(c),
            )[i] == grid[i],
{
}

/// Law: without a digit key, with a non-digit key, or without a selection,
/// no cell changes.
pub proof fn lemma_grid_untouched(
    grid: Seq<u8>,
    sel: Option<(usize, usize)>,
    digit_key: Option<char>,
)
    requires
        digit_key is None || sel is None || (digit_key matches Some(c) && spec_digit_of(c)
            is None),
    ensures
        spec_next_grid(grid, sel, digit_key) == grid,
{
}

} // verus!
