use vstd::prelude::*;

verus! {

/// Pixels along one side of a grid cell.
pub const BLOCK_SIZE: i64 = 20;

/// What a shape on screen stands for; the window picks colour and form by it.
#[derive(Debug, Clone, Copy, PartialEq, Eq, Structural)]
pub enum Paint {
    Head,
    Body,
    Food,
    TopBorder,
    BottomBorder,
    LeftBorder,
    RightBorder,
    GameOver,
}

/// A rectangle to draw, in grid cells: its corner, its size, what it shows.
#[derive(Debug, Clone, Copy, PartialEq, Eq, Structural)]
pub struct DrawCommand {
    pub paint: Paint,
    pub x: i32,
    pub y: i32,
    pub width: i32,
    pub height: i32,
}

/// One cell at `c`.
pub open spec fn block(paint: Paint, c: (i32, i32)) -> DrawCommand {
    DrawCommand { paint, x: c.0, y: c.1, width: 1, height: 1 }
}

/// The pixel offset of grid coordinate `c`, held to the range of `u32`.
pub open spec fn pixels(c: i32) -> int {
    if c <= 0 {
        0
    } else if c * BLOCK_SIZE > u32::MAX {
        u32::MAX as int
    } else {
        c * BLOCK_SIZE
    }
}

/// The pixel offset of a grid coordinate, as a window size wants it:
/// nothing below zero, and at most `u32::MAX`.
pub fn to_coord_u32(game_coord: i32) -> (r: u32)
    ensures
        r == pixels(game_coord),
{
    let p: i64 = game_coord as i64 * BLOCK_SIZE;
    if p <= 0 {
        0
    } else if p > u32::MAX as i64 {
        u32::MAX
    } else {
        p as u32
    }
}

} // verus!
