//! Per-cell display decisions for the renderer.
//!
//! The renderer redraws the whole board every frame; for each cell it asks
//! what to draw there. An empty, unselected cell shows nothing; a cell with
//! a digit shows the digit; the selected cell shows a highlight rectangle,
//! with its digit blinking in and out over the frame tick.

use vstd::prelude::*;

verus! {

/// What the renderer should draw in one cell on a given frame.
#[derive(Clone, Copy, Debug, PartialEq, Eq, Structural)]
pub enum CellDisplay {
    /// Empty, unselected cell: nothing is drawn.
    Blank,
    /// Selected cell in the hidden phase of the blink cycle: only the
    /// highlight rectangle is drawn.
    Highlight,
    /// Unselected cell holding a digit: the digit alone is drawn.
    Digit(u8),
    /// Selected cell in the visible phase of the blink cycle: the highlight
    /// rectangle and the cell's digit are both drawn.
    HighlightedDigit(u8),
}

/// The selected cell's digit blinks with the frame tick: each phase lasts
/// 10 ticks, and of every three phases the first is hidden, so the digit
/// shows two thirds of the time.
pub open spec fn spec_blink_visible(tick: u32) -> bool {
    (tick / 10) % 3 != 0
}

/// Whether the selected cell's digit is drawn on the frame with this tick.
pub fn blink_visible(tick: u32) -> (r: bool)
    ensures
        r == spec_blink_visible(tick),
{
    (tick / 10) % 3 != 0
}

/// The display decision for one cell: `val` is the digit stored there (0 =
/// empty) and `selected` says whether this is the selected cell. The
/// selected cell always shows its highlight; its digit (a 0 showing as the
/// digit 0 while empty) appears only in the visible phase of the blink
/// cycle. Unselected cells show their digit, or nothing when empty.
pub open spec fn spec_cell_display(val: u8, selected: bool, tick: u32) -> CellDisplay {
    if selected {
        if spec_blink_visible(tick) {
            CellDisplay::HighlightedDigit(val)
        } else {
            CellDisplay::Highlight
        }
    } else if val == 0 {
        CellDisplay::Blank
    } else {
        CellDisplay::Digit(val)
    }
}

/// What to draw in a cell holding `val`, selected or not, on the frame with
/// this tick.
pub fn cell_display(val: u8, selected: bool, tick: u32) -> (r: CellDisplay)
    ensures
        r == spec_cell_display(val, selected, tick),
{
    if selected {
        if blink_visible(tick) {
            CellDisplay::HighlightedDigit(val)
        } else {
            CellDisplay::Highlight
        }
    } else if val == 0 {
        CellDisplay::Blank
    } else {
        CellDisplay::Digit(val)
    }
}

} // verus!
