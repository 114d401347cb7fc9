use vstd::prelude::*;

verus! {

/// A two-dimensional vector of signed 32-bit integers (pixel coordinates,
/// viewport sizes).
#[derive(Debug, Clone, Copy)]
pub struct Vec2I {
    pub x: i32,
    pub y: i32,
}

impl Vec2I {
    /// Builds the vector `(x, y)`.
    pub fn new(x: i32, y: i32) -> (v: Self)
        ensures
            v.x == x,
            v.y == y,
    {
        Self { x, y }
    }
}

impl Default for Vec2I {
    /// The origin `(0, 0)`.
    fn default() -> (v: Self)
        ensures
            v.x == 0,
            v.y == 0,
    {
        Self { x: 0, y: 0 }
    }
}

} // verus!
