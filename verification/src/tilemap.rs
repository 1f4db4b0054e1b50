//! Where the tiles of a map come from and where they go.
//!
//! A tile sheet holds its tiles in rows of `columns` tiles, numbered from
//! the top-left corner on, with `margin` pixels around the tiles and
//! `spacing` pixels between them. A map is drawn by copying, for each cell,
//! the tile that the cell names to the place of the cell.

use crate::geometry::{clamp_position, clamp_size, Rect, RectView};
use vstd::prelude::*;

verus! {

/// The measures of a tile sheet and of the tiles on it.
#[derive(Debug, PartialEq, Eq, Clone, Copy, Structural)]
pub struct TileSheet {
    /// Width of a tile in pixels.
    pub tile_width: u32,
    /// Height of a tile in pixels.
    pub tile_height: u32,
    /// How many tiles a row of the sheet holds.
    pub columns: u32,
    /// The gap between two tiles of the sheet, in pixels.
    pub spacing: u32,
    /// The border around the tiles of the sheet, in pixels.
    pub margin: u32,
}

impl TileSheet {
    /// The top-left corner, on the sheet, of the tile numbered `tile_id`.
    pub open spec fn source_corner(self, tile_id: u32) -> (int, int)
        recommends
            self.columns > 0,
    {
        (
            (tile_id % self.columns) * (self.spacing + self.tile_width) + self.margin,
            (tile_id / self.columns) * (self.spacing + self.tile_height) + self.margin,
        )
    }

    /// The top-left corner, on the drawn map, of the cell in column `x` and
    /// row `y`.
    pub open spec fn target_corner(self, x: u32, y: u32) -> (int, int) {
        (x * self.tile_width, y * self.tile_height)
    }

    /// The rectangle of one tile with its top-left corner at `corner`.
    pub open spec fn tile_at(self, corner: (int, int)) -> RectView {
        RectView {
            x: clamp_position(corner.0),
            y: clamp_position(corner.1),
            width: clamp_size(self.tile_width as int),
            height: clamp_size(self.tile_height as int),
        }
    }

    /// The region of the sheet that holds the tile numbered `tile_id`.
    /// `None` where the sheet has no columns, or where a coordinate of the
    /// tile's corner is above `i32::MAX`.
    pub fn source(&self, tile_id: u32) -> (region: Option<Rect>)
        ensures
            region is Some <==> self.columns > 0 && self.source_corner(tile_id).0 <= i32::MAX
                && self.source_corner(tile_id).1 <= i32::MAX,
            region matches Some(rect) ==> rect@ == self.tile_at(self.source_corner(tile_id)),
    {
        if self.columns == 0 {
            return None;
        }
        let tile_x = tile_id % self.columns;
        let tile_y = tile_id / self.columns;
        let x = scaled(tile_x, self.spacing, self.tile_width, self.margin);
        let y = scaled(tile_y, self.spacing, self.tile_height, self.margin);
        match (x, y) {
            (Some(x), Some(y)) => Some(Rect::new(x, y, self.tile_width, self.tile_height)),
            _ => None,
        }
    }

    /// The rectangle of the drawn map that the cell in column `x` and row
    /// `y` covers. `None` where a coordinate of its corner is above
    /// `i32::MAX`.
    pub fn target(&self, x: u32, y: u32) -> (place: Option<Rect>)
        ensures
            place is Some <==> self.target_corner(x, y).0 <= i32::MAX && self.target_corner(x, y).1
                <= i32::MAX,
            place matches Some(rect) ==> rect@ == self.tile_at(self.target_corner(x, y)),
    {
        let left = scaled(x, 0, self.tile_width, 0);
        let top = scaled(y, 0, self.tile_height, 0);
        match (left, top) {
            (Some(left), Some(top)) => Some(Rect::new(left, top, self.tile_width, self.tile_height)),
            _ => None,
        }
    }

    /// The size in pixels of a drawn map of `x_count` columns and `y_count`
    /// rows. `None` where a side is above `u32::MAX`.
    pub fn canvas_size(&self, x_count: u32, y_count: u32) -> (size: Option<(u32, u32)>)
        ensures
            size is Some <==> self.tile_width * x_count <= u32::MAX && self.tile_height * y_count
                <= u32::MAX,
            size matches Some(sides) ==> sides.0 == self.tile_width * x_count && sides.1
                == self.tile_height * y_count,
    {
        match (self.tile_width.checked_mul(x_count), self.tile_height.checked_mul(y_count)) {
            (Some(width), Some(height)) => Some((width, height)),
            _ => None,
        }
    }
}

/// `count * (gap + side) + border`, where that is at most `i32::MAX`.
fn scaled(count: u32, gap: u32, side: u32, border: u32) -> (r: Option<i32>)
    ensures
        r is Some <==> count * (gap + side) + border <= i32::MAX,
        r matches Some(value) ==> value == count * (gap + side) + border,
{
    let step: u128 = gap as u128 + side as u128;
    assert(count * step <= 0xffff_ffff * 0x2_0000_0000) by (nonlinear_arith)
        requires
            0 <= count <= 0xffff_ffff,
            0 <= step <= 0x2_0000_0000,
    ;
    let value: u128 = count as u128 * step + border as u128;
    if value <= i32::MAX as u128 {
        Some(value as i32)
    } else {
        None
    }
}

/// On a sheet with columns, tiles with different numbers lie at different
/// corners, as long as a tile has some width and some height.
pub proof fn lemma_tiles_apart(sheet: TileSheet, a: u32, b: u32)
    requires
        sheet.columns > 0,
        sheet.tile_width > 0,
        sheet.tile_height > 0,
        a != b,
    ensures
        sheet.source_corner(a) != sheet.source_corner(b),
{
    let columns = sheet.columns as int;
    let wide = sheet.spacing + sheet.tile_width;
    let high = sheet.spacing + sheet.tile_height;
    if a % sheet.columns == b % sheet.columns {
        assert(a / sheet.columns != b / sheet.columns) by {
            vstd::arithmetic::div_mod::lemma_fundamental_div_mod(a as int, columns);
            vstd::arithmetic::div_mod::lemma_fundamental_div_mod(b as int, columns);
        }
        assert((a / sheet.columns) * high != (b / sheet.columns) * high) by (nonlinear_arith)
            requires
                a / sheet.columns != b / sheet.columns,
                high > 0,
        ;
    } else {
        assert((a % sheet.columns) * wide != (b % sheet.columns) * wide) by (nonlinear_arith)
            requires
                a % sheet.columns != b % sheet.columns,
                wide > 0,
        ;
    }
}

} // verus!
