//! The grid of cells that light up under the cursor.

use crate::constants::{GRID_COUNT_X, GRID_COUNT_Y, GRID_H, GRID_W, SCREEN_H, SCREEN_W};
use crate::geometry::{Rect, RectView};
use vstd::prelude::*;

verus! {

/// The side, in pixels, of the squares by which the cursor picks a cell.
pub const CURSOR_CELL: i32 = 40;

/// The index, along one axis, of the cell that a cursor coordinate picks; -1
/// while the cursor is off the screen, which a negative coordinate says.
pub open spec fn spec_cursor_cell(coord: i32) -> i32 {
    if coord >= 0 {
        (coord / CURSOR_CELL) as i32
    } else {
        -1i32
    }
}

/// The index, along one axis, of the cell that a cursor coordinate picks.
#[verifier::when_used_as_spec(spec_cursor_cell)]
pub fn cursor_cell(coord: i32) -> (cell: i32)
    ensures
        cell == spec_cursor_cell(coord),
        coord >= 0 ==> cell * CURSOR_CELL <= coord < (cell + 1) * CURSOR_CELL,
        coord < 0 ==> cell == -1,
{
    if coord >= 0 {
        coord / CURSOR_CELL
    } else {
        -1
    }
}

/// Whether the cursor at `(cur_x, cur_y)` picks the cell in column `x` and
/// row `y`.
pub fn cell_under_cursor(x: usize, y: usize, cur_x: i32, cur_y: i32) -> (under: bool)
    ensures
        under <==> x == cursor_cell(cur_x) && y == cursor_cell(cur_y),
        under ==> cur_x >= 0 && cur_y >= 0,
{
    let in_x = cursor_cell(cur_x);
    let in_y = cursor_cell(cur_y);
    in_x >= 0 && in_y >= 0 && x <= i32::MAX as usize && y <= i32::MAX as usize && x as i32 == in_x
        && y as i32 == in_y
}

/// The square drawn for the cell in column `x` and row `y`: the cell without
/// a border one pixel wide.
pub open spec fn cell_square(x: int, y: int) -> RectView {
    RectView { x: x * GRID_W + 1, y: y * GRID_H + 1, width: GRID_W - 2, height: GRID_H - 2 }
}

/// The square drawn for the cell in column `x` and row `y`, or `None` where
/// the grid has no such cell.
pub fn cell_rect(x: usize, y: usize) -> (square: Option<Rect>)
    ensures
        square is Some <==> x < GRID_COUNT_X && y < GRID_COUNT_Y,
        square matches Some(rect) ==> rect@ == cell_square(x as int, y as int),
{
    if x < GRID_COUNT_X && y < GRID_COUNT_Y {
        Some(
            Rect::new(
                (x as u32 * GRID_W + 1) as i32,
                (y as u32 * GRID_H + 1) as i32,
                GRID_W - 2,
                GRID_H - 2,
            ),
        )
    } else {
        None
    }
}

/// The squares of the grid lie on the screen, and each ends before the next
/// one to its right, and the next one below it, begins.
pub proof fn lemma_cells_on_screen(x: int, y: int)
    requires
        0 <= x < GRID_COUNT_X,
        0 <= y < GRID_COUNT_Y,
    ensures
        0 <= cell_square(x, y).x,
        cell_square(x, y).x + cell_square(x, y).width <= SCREEN_W,
        0 <= cell_square(x, y).y,
        cell_square(x, y).y + cell_square(x, y).height <= SCREEN_H,
        cell_square(x, y).x + cell_square(x, y).width < cell_square(x + 1, y).x,
        cell_square(x, y).y + cell_square(x, y).height < cell_square(x, y + 1).y,
{
}

} // verus!
