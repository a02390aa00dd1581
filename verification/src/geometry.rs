//! The pixel grid: the window's extent, vectors on the grid, and the two
//! elementary rules (reflection at an edge, clamping to an interval) that the
//! moving parts are described with.

use vstd::prelude::*;

verus! {

/// Width of the window, in pixels.
pub const WINDOW_WIDTH: i32 = 800;

/// Height of the window, in pixels.
pub const WINDOW_HEIGHT: i32 = 600;

/// A point of the grid, or a displacement per frame.
#[derive(Clone, Copy, Debug, PartialEq, Eq)]
pub struct Vec2 {
    pub x: i32,
    pub y: i32,
}

impl Vec2 {
    /// The vector with the given components.
    pub fn new(x: i32, y: i32) -> (v: Vec2)
        ensures
            v.x == x,
            v.y == y,
    {
        Vec2 { x, y }
    }
}

/// Whether `coordinate` lies off the segment from `0` to `limit`, ends
/// included.
pub open spec fn outside(coordinate: int, limit: int) -> bool {
    coordinate < 0 || coordinate > limit
}

/// The velocity component that a body keeps after a move: reversed where the
/// move has carried `coordinate` beyond an edge, unchanged otherwise.
pub open spec fn reflected(coordinate: int, velocity: int, limit: int) -> int {
    if outside(coordinate, limit) {
        -velocity
    } else {
        velocity
    }
}

/// `value` snapped to the nearest point of the interval from `low` to `high`.
pub open spec fn clamped(value: int, low: int, high: int) -> int
    recommends
        low <= high,
{
    if value < low {
        low
    } else if value > high {
        high
    } else {
        value
    }
}

} // verus!
