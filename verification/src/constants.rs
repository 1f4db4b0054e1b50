//! The fixed measures of the screen, the grid and the player.

use vstd::prelude::*;

verus! {

/// Width of the screen in pixels.
pub const SCREEN_W: u32 = 800;

/// Height of the screen in pixels.
pub const SCREEN_H: u32 = 600;

/// Width of a grid cell in pixels.
pub const GRID_W: u32 = 48;

/// Height of a grid cell in pixels.
pub const GRID_H: u32 = 48;

/// How many whole cells fit across the screen.
pub const GRID_COUNT_X: usize = 16;

/// How many whole cells fit down the screen.
pub const GRID_COUNT_Y: usize = 12;

/// The speed of a player that moves, in pixels per tick.
pub const PLAYER_MOVEMENT_SPEED: i32 = 5;

/// The grid counts are the screen's sides divided by the cell's sides, and
/// the grid never reaches past the screen.
pub proof fn lemma_grid_fits_screen()
    ensures
        GRID_COUNT_X == SCREEN_W / GRID_W,
        GRID_COUNT_Y == SCREEN_H / GRID_H,
        GRID_COUNT_X * GRID_W <= SCREEN_W,
        GRID_COUNT_Y * GRID_H <= SCREEN_H,
{
}

} // verus!
