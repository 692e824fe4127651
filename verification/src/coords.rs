//! Grid-cell / pixel-position coordinate model.
//!
//! The playing field is a fixed layout of square tiles, `GRID_SIZE` pixels on
//! a side. A `Grid` value addresses one tile by column and row; a `Position`
//! is a point in screen space, in whole pixels. The display scale factor is
//! the per-axis rounded ratio of the active resolution to a fixed base
//! resolution.

use vstd::prelude::*;

verus! {

/// Edge length, in pixels, of one square tile of the grid.
pub const GRID_SIZE: u32 = 50;

/// Width of the base resolution the scale factor is measured against.
pub const BASE_RESOLUTION_W: u32 = 800;

/// Height of the base resolution the scale factor is measured against.
pub const BASE_RESOLUTION_H: u32 = 600;

/// The ratio `a / b` rounded to the nearest integer, halves rounded up.
pub open spec fn round_ratio(a: int, b: int) -> int {
    (2 * a + b) / (2 * b)
}

/// Per-axis display scale of an active resolution against the base
/// resolution: each axis is the rounded ratio of active to base. The base
/// resolution is fixed and positive, so the ratio is always defined; a small
/// active resolution simply scales to 0.
pub fn get_scaled_resolution(coords: (u32, u32)) -> (r: (u32, u32))
    ensures
        r.0 == round_ratio(coords.0 as int, BASE_RESOLUTION_W as int),
        r.1 == round_ratio(coords.1 as int, BASE_RESOLUTION_H as int),
{
    let sx = ((2 * coords.0 as u64 + 800) / 1600) as u32;
    let sy = ((2 * coords.1 as u64 + 600) / 1200) as u32;
    (sx, sy)
}

/// A tile address: column `x` and row `y` in the fixed tile layout.
#[derive(Clone, Copy, Debug, PartialEq, Eq, Structural)]
pub struct Grid {
    pub x: u8,
    pub y: u8,
}

/// A point in screen space, in whole pixels.
#[derive(Clone, Copy, Debug, PartialEq, Eq, Structural)]
pub struct Position {
    pub x: u32,
    pub y: u32,
}

/// The grid column (or row) that holds pixel coordinate `p`: `p / GRID_SIZE`,
/// saturated at the largest address a `u8` column can hold.
pub open spec fn grid_axis(p: int) -> u8 {
    if p / (GRID_SIZE as int) > u8::MAX as int {
        u8::MAX
    } else {
        (p / (GRID_SIZE as int)) as u8
    }
}

/// The tile that contains a pixel position.
pub open spec fn grid_of(position: Position) -> Grid {
    Grid { x: grid_axis(position.x as int), y: grid_axis(position.y as int) }
}

/// The top-left pixel of a tile.
pub open spec fn position_of_grid(grid: Grid) -> Position {
    Position { x: (GRID_SIZE * grid.x) as u32, y: (GRID_SIZE * grid.y) as u32 }
}

impl Grid {
    /// The tile containing a pixel position. The conversion truncates the
    /// fractional tile offset; a coordinate beyond the last addressable
    /// column or row saturates at that column or row.
    pub fn from_position(position: Position) -> (g: Grid)
        ensures
            g == grid_of(position),
    {
        let gx = position.x / GRID_SIZE;
        let gy = position.y / GRID_SIZE;
        Grid {
            x: if gx > u8::MAX as u32 {
                u8::MAX
            } else {
                gx as u8
            },
            y: if gy > u8::MAX as u32 {
                u8::MAX
            } else {
                gy as u8
            },
        }
    }
}

/// Grid conversion truncates downward by less than one tile: for any pixel
/// position whose coordinates do not reach past the last addressable tile,
/// the top-left pixel of the tile it lies in is at most the position itself,
/// and the difference on each axis is below `GRID_SIZE`.
pub proof fn lemma_grid_round_trip(position: Position)
    requires
        position.x < (u8::MAX as int + 1) * GRID_SIZE as int,
        position.y < (u8::MAX as int + 1) * GRID_SIZE as int,
    ensures
        position_of_grid(grid_of(position)).x <= position.x,
        position.x - position_of_grid(grid_of(position)).x < GRID_SIZE as int,
        position_of_grid(grid_of(position)).y <= position.y,
        position.y - position_of_grid(grid_of(position)).y < GRID_SIZE as int,
{
    lemma_axis_round_trip(position.x as int);
    lemma_axis_round_trip(position.y as int);
}

/// One axis of the round trip: `GRID_SIZE * (p / GRID_SIZE)` is at most `p`
/// and misses it by less than one tile, as long as `p` stays below the
/// saturation point of the column address.
proof fn lemma_axis_round_trip(p: int)
    requires
        0 <= p < (u8::MAX as int + 1) * GRID_SIZE as int,
    ensures
        GRID_SIZE as int * (grid_axis(p) as int) <= p,
        p - GRID_SIZE as int * (grid_axis(p) as int) < GRID_SIZE as int,
{
    let g = GRID_SIZE as int;
    assert(p / g <= u8::MAX) by (nonlinear_arith)
        requires
            g == 50,
            0 <= p < (u8::MAX as int + 1) * g,
    ;
    assert(g * (p / g) <= p && p - g * (p / g) < g) by (nonlinear_arith)
        requires
            g == 50,
            0 <= p,
    ;
}

impl Default for Grid {
    /// The origin tile (column 0, row 0).
    fn default() -> (g: Grid)
        ensures
            g == (Grid { x: 0, y: 0 }),
    {
        Grid { x: 0, y: 0 }
    }
}

impl From<Grid> for Position {
    /// The top-left pixel of a tile: exact inverse of `Grid::from_position`
    /// for tile-aligned positions.
    fn from(grid: Grid) -> (p: Position)
        ensures
            p == position_of_grid(grid),
    {
        Position { x: GRID_SIZE * grid.x as u32, y: GRID_SIZE * grid.y as u32 }
    }
}

impl vstd::std_specs::convert::FromSpecImpl<Grid> for Position {
    open spec fn obeys_from_spec() -> bool {
        true
    }

    open spec fn from_spec(grid: Grid) -> Position {
        position_of_grid(grid)
    }
}

impl Default for Position {
    /// The top-left pixel of the screen.
    fn default() -> (p: Position)
        ensures
            p == (Position { x: 0, y: 0 }),
    {
        Position { x: 0, y: 0 }
    }
}

} // verus!
