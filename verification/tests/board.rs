use sudoku_board::board::Cells;
use sudoku_board::board::digit_of;

// Pixel positions used below: the grid is 750 pixels wide and split into 9
// bands of 83.33 pixels, so pixel 200 lies in band 2 and pixel 300 in band 3.

#[test]
fn new_board_is_empty_and_unselected() {
    let cells = Cells::new();
    assert_eq!(cells.selected(), None);
    let mut x: usize = 0;
    while x < 9 {
        let mut y: usize = 0;
        while y < 9 {
            assert_eq!(cells.get(x, y), 0);
            y += 1;
        }
        x += 1;
    }
}

#[test]
fn pointer_press_inside_grid_selects_cell_under_pointer() {
    let mut cells = Cells::new();
    cells.handle_input(200, 300, true, None, false);
    assert_eq!(cells.selected(), Some((2, 3)));

    // A later press elsewhere replaces the selection.
    cells.handle_input(0, 749, true, None, false);
    assert_eq!(cells.selected(), Some((0, 8)));
}

#[test]
fn pointer_press_on_cell_boundary() {
    let mut cells = Cells::new();
    // Pixel 250 is exactly 3 bands of 750/9 pixels in, so it opens band 3.
    cells.handle_input(250, 249, true, None, false);
    assert_eq!(cells.selected(), Some((3, 2)));
}

#[test]
fn pointer_press_outside_grid_keeps_selection() {
    let mut cells = Cells::new();
    cells.handle_input(200, 300, true, None, false);
    assert_eq!(cells.selected(), Some((2, 3)));

    cells.handle_input(750, 10, true, None, false);
    assert_eq!(cells.selected(), Some((2, 3)));
    cells.handle_input(-1, 10, true, None, false);
    assert_eq!(cells.selected(), Some((2, 3)));
    cells.handle_input(300, 800, true, None, false);
    assert_eq!(cells.selected(), Some((2, 3)));
}

#[test]
fn cancel_clears_selection_from_any_state() {
    let mut cells = Cells::new();

    // Cancel with nothing selected: still nothing selected.
    cells.handle_input(0, 0, false, None, true);
    assert_eq!(cells.selected(), None);

    // Cancel with a cell selected: selection cleared.
    cells.handle_input(400, 700, true, None, false);
    assert_eq!(cells.selected(), Some((4, 8)));
    cells.handle_input(0, 0, false, None, true);
    assert_eq!(cells.selected(), None);

    // Cancel while the pointer is down outside the grid: still cleared.
    cells.handle_input(100, 100, true, None, false);
    cells.handle_input(-5, -5, true, None, true);
    assert_eq!(cells.selected(), None);
}

#[test]
fn digit_key_writes_only_the_selected_cell() {
    let mut cells = Cells::new();
    cells.handle_input(200, 300, true, None, false);
    assert_eq!(cells.selected(), Some((2, 3)));

    cells.handle_input(0, 0, false, Some('7'), false);
    let mut x: usize = 0;
    while x < 9 {
        let mut y: usize = 0;
        while y < 9 {
            if (x, y) == (2, 3) {
                assert_eq!(cells.get(x, y), 7);
            } else {
                assert_eq!(cells.get(x, y), 0);
            }
            y += 1;
        }
        x += 1;
    }

    // A repeated press simply overwrites.
    cells.handle_input(0, 0, false, Some('9'), false);
    assert_eq!(cells.get(2, 3), 9);
    // The digit 0 empties the cell again.
    cells.handle_input(0, 0, false, Some('0'), false);
    assert_eq!(cells.get(2, 3), 0);
}

#[test]
fn digit_key_without_selection_changes_nothing() {
    let mut cells = Cells::new();
    cells.handle_input(0, 0, false, Some('5'), false);
    let mut x: usize = 0;
    while x < 9 {
        let mut y: usize = 0;
        while y < 9 {
            assert_eq!(cells.get(x, y), 0);
            y += 1;
        }
        x += 1;
    }
}

#[test]
fn non_digit_key_is_ignored() {
    let mut cells = Cells::new();
    cells.handle_input(200, 300, true, None, false);
    cells.handle_input(0, 0, false, Some('a'), false);
    cells.handle_input(0, 0, false, Some(' '), false);
    cells.handle_input(0, 0, false, Some('\n'), false);
    assert_eq!(cells.get(2, 3), 0);
    assert_eq!(cells.selected(), Some((2, 3)));
}

#[test]
fn digit_applies_to_the_selection_from_before_the_frame() {
    let mut cells = Cells::new();
    cells.handle_input(200, 300, true, None, false);
    assert_eq!(cells.selected(), Some((2, 3)));

    // On one frame the pointer moves to cell (7, 7) while '4' is typed: the
    // digit lands in the previously selected cell, then the selection moves.
    cells.handle_input(600, 600, true, Some('4'), false);
    assert_eq!(cells.get(2, 3), 4);
    assert_eq!(cells.get(7, 7), 0);
    assert_eq!(cells.selected(), Some((7, 7)));
}

#[test]
fn select_type_cancel_scenario() {
    let mut cells = Cells::new();

    // Click cell (2, 3).
    cells.handle_input(200, 300, true, None, false);
    assert_eq!(cells.selected(), Some((2, 3)));

    // Press "5".
    cells.handle_input(0, 0, false, Some('5'), false);
    assert_eq!(cells.get(2, 3), 5);

    // Press cancel: the selection goes away, the digit stays.
    cells.handle_input(0, 0, false, None, true);
    assert_eq!(cells.selected(), None);
    assert_eq!(cells.get(2, 3), 5);
}

#[test]
fn digit_of_accepts_exactly_the_ten_digits() {
    assert_eq!(digit_of('0'), Some(0));
    assert_eq!(digit_of('1'), Some(1));
    assert_eq!(digit_of('5'), Some(5));
    assert_eq!(digit_of('9'), Some(9));
    assert_eq!(digit_of('a'), None);
    assert_eq!(digit_of('/'), None);
    assert_eq!(digit_of(':'), None);
    assert_eq!(digit_of(' '), None);
    assert_eq!(digit_of('\u{0663}'), None); // a non-ASCII numeral is ignored
}
