//! A bare position that can be pushed around.

use vstd::prelude::*;
use crate::misc::{sat_add, saturate, Direction};

verus! {

/// A point of the screen.
#[derive(Clone, Copy, Debug, PartialEq, Eq, Structural)]
pub struct Player {
    /// Horizontal position in pixels.
    pub x: i64,
    /// Vertical position in pixels.
    pub y: i64,
}

/// The point `dist` pixels from `(x, y)` in the given direction, or the point
/// itself without a direction. North is up, where `y` decreases.
pub open spec fn pushed(x: i64, y: i64, dir: Option<Direction>, dist: i64) -> (i64, i64) {
    match dir {
        Some(Direction::N) => (x, saturate(y - dist)),
        Some(Direction::S) => (x, saturate(y + dist)),
        Some(Direction::W) => (saturate(x - dist), y),
        Some(Direction::E) => (saturate(x + dist), y),
        None => (x, y),
    }
}

/// The difference of two coordinates, held at the nearest limit of `i64`
/// where the exact difference does not fit.
fn sat_sub(a: i64, b: i64) -> (difference: i64)
    ensures
        difference == saturate(a - b),
{
    match a.checked_sub(b) {
        Some(difference) => difference,
        None => if b > 0 {
            i64::MIN
        } else {
            i64::MAX
        },
    }
}

impl Player {
    /// A player at the origin.
    pub fn new() -> (player: Player)
        ensures
            player == (Player { x: 0, y: 0 }),
    {
        Player { x: 0, y: 0 }
    }

    /// Moves the player `dist` pixels in the given direction.
    pub fn update_position(&mut self, dir: Option<Direction>, dist: i64)
        ensures
            (final(self).x, final(self).y) == pushed(old(self).x, old(self).y, dir, dist),
    {
        match dir {
            Some(Direction::N) => self.y = sat_sub(self.y, dist),
            Some(Direction::S) => self.y = sat_add(self.y, dist),
            Some(Direction::W) => self.x = sat_sub(self.x, dist),
            Some(Direction::E) => self.x = sat_add(self.x, dist),
            None => {},
        }
    }
}

} // verus!
