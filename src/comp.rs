use vstd::prelude::*;

verus! {

/// A grid coordinate; the scheduler enforces no bounds on it.
#[derive(Clone, Copy, Debug, PartialEq, Eq, Structural)]
pub struct Position {
    pub x: i32,
    pub y: i32,
}

impl Position {
    pub fn new(x: i32, y: i32) -> (r: Position)
        ensures
            r.x == x,
            r.y == y,
    {
        Position { x, y }
    }

    /// One unit step in any direction from here stays within `i32`.
    pub open spec fn has_room(self) -> bool {
        i32::MIN < self.x < i32::MAX && i32::MIN < self.y < i32::MAX
    }

    /// This position moved by `(dx, dy)`.
    pub open spec fn offset(self, dx: int, dy: int) -> Position {
        Position { x: (self.x + dx) as i32, y: (self.y + dy) as i32 }
    }
}

/// A tile that can be walked on.
#[derive(Clone, Copy, Debug, PartialEq, Eq, Structural)]
pub struct Walkable;

} // verus!
