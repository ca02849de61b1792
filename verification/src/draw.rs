//! What the game asks a renderer to paint, in grid coordinates.

use vstd::prelude::*;

verus! {

/// Side length of one grid cell, in pixels.
pub const BLOCK_SIZE: i32 = 15;

/// The palette entry a shape is painted with.
#[derive(Clone, Copy, Debug, PartialEq, Eq, Structural)]
pub enum Color {
    Snake,
    Food,
    FlashingFood,
    Border,
    Score,
    GameOver,
}

/// One shape to paint. Positions and sizes are in grid cells.
#[derive(Clone, Copy, Debug, PartialEq, Eq, Structural)]
pub enum DrawCommand {
    /// A filled cell at `(x, y)`.
    Block { color: Color, x: i32, y: i32 },
    /// A filled rectangle whose top-left cell is `(x, y)`.
    Rectangle { color: Color, x: i32, y: i32, width: i32, height: i32 },
    /// A number written in glyph blocks at `(x, y)`.
    Number { color: Color, value: u32, x: i32, y: i32 },
}

/// Pixel offset of a grid coordinate.
pub open spec fn pixel_offset(game_coord: int) -> int {
    game_coord * BLOCK_SIZE
}

/// Pixel offset of a grid coordinate.
pub fn to_coord(game_coord: i32) -> (pixels: i64)
    ensures
        pixels == pixel_offset(game_coord as int),
{
    assert(i32::MIN * 15 <= game_coord * BLOCK_SIZE <= i32::MAX * 15) by (nonlinear_arith)
        requires
            i32::MIN <= game_coord <= i32::MAX,
            BLOCK_SIZE == 15,
    ;
    (game_coord as i64) * (BLOCK_SIZE as i64)
}

/// Pixel offset of a grid coordinate as an unsigned window dimension:
/// negative offsets clamp to zero and offsets beyond `u32::MAX` clamp to it.
pub fn to_coord_u32(game_coord: i32) -> (pixels: u32)
    ensures
        pixel_offset(game_coord as int) <= 0 ==> pixels == 0,
        0 < pixel_offset(game_coord as int) <= u32::MAX ==> pixels == pixel_offset(
            game_coord as int,
        ),
        pixel_offset(game_coord as int) > u32::MAX ==> pixels == u32::MAX,
{
    let scaled = to_coord(game_coord);
    if scaled <= 0 {
        0
    } else if scaled > u32::MAX as i64 {
        u32::MAX
    } else {
        scaled as u32
    }
}

} // verus!
