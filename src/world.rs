use vstd::prelude::*;

verus! {

/// Horizontal extent of the playing field, in pixels.
pub const WORLD_WIDTH: i32 = 800;

/// Vertical extent of the playing field, in pixels.
pub const WORLD_HEIGHT: i32 = 600;

/// The static playing field: a rectangle whose borders are solid.
pub struct World;

impl World {
    /// A horizontal position collides when it lies on or beyond a side wall.
    pub fn has_collision_x(pos_x: i32) -> (r: bool)
        ensures
            r == (pos_x <= 0 || pos_x >= WORLD_WIDTH),
    {
        pos_x <= 0 || pos_x >= WORLD_WIDTH
    }

    /// A vertical position collides when it lies on or beyond the ceiling or the floor.
    pub fn has_collision_y(pos_y: i32) -> (r: bool)
        ensures
            r == (pos_y <= 0 || pos_y >= WORLD_HEIGHT),
    {
        pos_y <= 0 || pos_y >= WORLD_HEIGHT
    }
}

} // verus!
