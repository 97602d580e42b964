//! Grid positions in character-cell coordinates, 0-based, with the grid
//! size as the exclusive upper bound. A move toward the decreasing side is
//! rejected before it would underflow; a move toward the increasing side is
//! applied and found out of bounds by the check that follows it.

use vstd::prelude::*;

use crate::direction::Direction;

verus! {

#[derive(Clone, Copy, PartialEq, Eq, Structural, Debug)]
pub struct Position {
    pub x: u16,
    pub y: u16,
}

/// Whether a pipe is still within the grid after a move.
#[derive(Clone, Copy, PartialEq, Eq, Structural, Debug)]
pub struct InScreenBounds(pub bool);

/// The mathematical coordinates one step from `p` in direction `dir`,
/// before any clamping to the machine's coordinate range.
pub open spec fn stepped_coords(p: Position, dir: Direction) -> (int, int) {
    match dir {
        Direction::Up => (p.x as int, p.y as int - 1),
        Direction::Down => (p.x as int, p.y as int + 1),
        Direction::Left => (p.x as int - 1, p.y as int),
        Direction::Right => (p.x as int + 1, p.y as int),
    }
}

/// Whether mathematical coordinates lie within a grid of the given size.
pub open spec fn coords_in_bounds(c: (int, int), size: (u16, u16)) -> bool {
    0 <= c.0 < size.0 && 0 <= c.1 < size.1
}

/// Whether mathematical coordinates are representable as a position at all.
pub open spec fn coords_representable(c: (int, int)) -> bool {
    0 <= c.0 <= u16::MAX && 0 <= c.1 <= u16::MAX
}

impl Position {
    /// Attempts to move one cell in `dir`. When the step stays inside the
    /// coordinate range the position takes the stepped value; a step that
    /// would leave the range (and so cannot be inside any grid) leaves the
    /// position unchanged. Either way the result reports whether the
    /// stepped coordinates lie within `size`.
    pub fn move_in(&mut self, dir: Direction, size: (u16, u16)) -> (r: InScreenBounds)
        ensures
            r.0 == coords_in_bounds(stepped_coords(*old(self), dir), size),
            coords_representable(stepped_coords(*old(self), dir)) ==> (
                final(self).x as int,
                final(self).y as int,
            ) == stepped_coords(*old(self), dir),
            !coords_representable(stepped_coords(*old(self), dir)) ==> *final(self) == *old(
                self,
            ),
    {
        match dir {
            Direction::Up => {
                if self.y == 0 {
                    return InScreenBounds(false);
                }
                self.y = self.y - 1;
            },
            Direction::Down => {
                if self.y == u16::MAX {
                    return InScreenBounds(false);
                }
                self.y = self.y + 1;
            },
            Direction::Left => {
                if self.x == 0 {
                    return InScreenBounds(false);
                }
                self.x = self.x - 1;
            },
            Direction::Right => {
                if self.x == u16::MAX {
                    return InScreenBounds(false);
                }
                self.x = self.x + 1;
            },
        }

        InScreenBounds(self.in_screen_bounds(size))
    }

    /// Whether the position lies within a grid of the given size.
    pub open spec fn in_bounds_spec(&self, size: (u16, u16)) -> bool {
        self.x < size.0 && self.y < size.1
    }

    /// Whether the position lies within a grid of the given size.
    #[verifier::when_used_as_spec(in_bounds_spec)]
    pub fn in_screen_bounds(&self, size: (u16, u16)) -> (r: bool)
        ensures
            r == (self.x < size.0 && self.y < size.1),
    {
        self.x < size.0 && self.y < size.1
    }
}

} // verus!
