//! Whole-number points of the screen, the render plane and the tile grid.

use vstd::prelude::*;

verus! {

/// A pair of whole-number coordinates: a pixel of the screen, a point of the
/// render plane, or a tile of the grid.
#[derive(Copy, Clone, Debug, PartialEq, Eq, Structural)]
pub struct Vector2 {
    pub x: i32,
    pub y: i32,
}

impl Vector2 {
    /// The point with the given coordinates.
    pub fn new(x: i32, y: i32) -> (point: Self)
        ensures
            point == (Vector2 { x, y }),
    {
        Vector2 { x, y }
    }
}

} // verus!
