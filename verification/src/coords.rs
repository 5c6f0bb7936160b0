//! Tile addresses, continuous positions and the conversions between them.

use vstd::prelude::*;
use crate::consts::TILE_EXTENT;
use crate::math::{saturate_i32, truncated_quotient};

verus! {

/// Address of one tile of the level: column `x`, row `y`.
#[derive(Clone, Copy, Debug, PartialEq, Eq, Structural, Hash)]
pub struct GridCoords {
    pub x: i32,
    pub y: i32,
}

/// A continuous position, in millionths of a pixel.
#[derive(Clone, Copy, Debug, PartialEq, Eq, Structural, Hash)]
pub struct Position {
    pub x: i64,
    pub y: i64,
}

/// The column (or row) that holds the coordinate `v` of a position: `v` over
/// the tile extent, rounded toward zero, and kept inside the `i32` range.
pub open spec fn axis_to_cell(v: int) -> int {
    saturate_i32(truncated_quotient(v, TILE_EXTENT as int))
}

/// The tile that holds the position `(x, y)`.
pub open spec fn cell_of(x: int, y: int) -> GridCoords {
    GridCoords { x: axis_to_cell(x) as i32, y: axis_to_cell(y) as i32 }
}

/// The coordinate of the centre of column (or row) `c`.
pub open spec fn cell_centre(c: int) -> int {
    c * (TILE_EXTENT as int) + (TILE_EXTENT as int) / 2
}

impl GridCoords {
    /// The tile in column `x` and row `y`.
    pub fn new(x: i32, y: i32) -> (coords: GridCoords)
        ensures
            coords == (GridCoords { x, y }),
    {
        GridCoords { x, y }
    }
}

impl Position {
    /// The position `(x, y)`.
    pub fn new(x: i64, y: i64) -> (position: Position)
        ensures
            position == (Position { x, y }),
    {
        Position { x, y }
    }
}

/// The column (or row) of a coordinate that may lie outside the `i64` range.
pub(crate) fn wide_axis_to_cell(v: i128) -> (c: i32)
    ensures
        c as int == axis_to_cell(v as int),
{
    let q: i128 = v / (TILE_EXTENT as i128);
    if q < i32::MIN as i128 {
        i32::MIN
    } else if q > i32::MAX as i128 {
        i32::MAX
    } else {
        q as i32
    }
}

/// The tile that holds `translation`. Coordinates are rounded toward zero, so
/// a position less than one tile left of (or below) the origin still lies in
/// column (or row) zero.
pub fn translation_to_grid_coords(translation: Position) -> (coords: GridCoords)
    ensures
        coords == cell_of(translation.x as int, translation.y as int),
{
    GridCoords {
        x: wide_axis_to_cell(translation.x as i128),
        y: wide_axis_to_cell(translation.y as i128),
    }
}

/// The position of the centre of the tile `coords`.
pub fn grid_coords_to_translation(coords: GridCoords) -> (translation: Position)
    ensures
        translation.x as int == cell_centre(coords.x as int),
        translation.y as int == cell_centre(coords.y as int),
{
    Position {
        x: coords.x as i64 * TILE_EXTENT + TILE_EXTENT / 2,
        y: coords.y as i64 * TILE_EXTENT + TILE_EXTENT / 2,
    }
}

/// The centre of a tile with non-negative column and row lies in that tile.
pub proof fn centre_lies_in_its_tile(coords: GridCoords)
    requires
        coords.x >= 0,
        coords.y >= 0,
    ensures
        cell_of(cell_centre(coords.x as int), cell_centre(coords.y as int)) == coords,
{
}

} // verus!
