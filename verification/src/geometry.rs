//! Lengths, the grid and the place of a cell in the window.

use vstd::prelude::*;

verus! {

/// Width of the window, in pixels.
pub const WIN_W: u32 = 600;

/// Height of the window, in pixels.
pub const WIN_H: u32 = 900;

/// Width of a grid cell, in pixels.
pub const SQUARE_W: i64 = 60;

/// Height of a grid cell, in pixels.
pub const SQUARE_H: i64 = 80;

/// Number of grid columns.
pub const NUM_X: i32 = 7;

/// Number of grid rows.
pub const NUM_Y: i32 = 9;

/// Number of outlines in a stack.
pub const MAX_NUM_SQUARES: usize = 8;

/// Number of length units in a pixel.
///
/// A square's half extents are its cell's width and height divided by 2.2,
/// and a jitter factor is counted in millionths. With 110,000 units to the
/// pixel, a half extent times a millionth is a whole number of units.
pub const UNITS_PER_PIXEL: i64 = 110_000;

/// How far to the left of the window's centre the first column of stacks
/// stands, in pixels: three tenths of the window's width.
pub const ORIGIN_X: i64 = 180;

/// How far below the window's centre the first row of stacks stands, in
/// pixels: seven twentieths of the window's height.
pub const ORIGIN_Y: i64 = 315;

/// A point of the plane, or an offset in it, in units.
#[derive(Clone, Copy, Debug, PartialEq, Eq, Structural)]
pub struct Point {
    pub x: i64,
    pub y: i64,
}

/// Whether `(i_x, i_y)` names a cell of the grid.
pub open spec fn in_grid(i_x: int, i_y: int) -> bool {
    0 <= i_x < NUM_X && 0 <= i_y < NUM_Y
}

/// Horizontal place of column `i_x`, in units from the window's centre.
pub open spec fn cell_x(i_x: int) -> int {
    UNITS_PER_PIXEL * (SQUARE_W * i_x - ORIGIN_X)
}

/// Vertical place of row `i_y`, in units from the window's centre.
pub open spec fn cell_y(i_y: int) -> int {
    UNITS_PER_PIXEL * (SQUARE_H * i_y - ORIGIN_Y)
}

/// The origins are the stated fractions of the window's size.
pub proof fn lemma_origin_fractions()
    ensures
        10 * ORIGIN_X == 3 * WIN_W,
        20 * ORIGIN_Y == 7 * WIN_H,
{
}

/// Place of the grid cell `(i_x, i_y)`: a fixed step per column and per row
/// from a fixed origin.
pub fn cell_position(i_x: i32, i_y: i32) -> (p: Point)
    ensures
        p.x == cell_x(i_x as int),
        p.y == cell_y(i_y as int),
{
    let col: i64 = i_x as i64;
    let row: i64 = i_y as i64;
    Point {
        x: UNITS_PER_PIXEL * (SQUARE_W * col - ORIGIN_X),
        y: UNITS_PER_PIXEL * (SQUARE_H * row - ORIGIN_Y),
    }
}

} // verus!
