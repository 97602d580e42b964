//! The four-way compass direction a pipe travels in, with its random
//! "maybe turn" transition. A turn is always a quarter turn, never a
//! reversal, so the pair (previous, current) of any pipe's directions is
//! either equal or 90 degrees apart.

use vstd::prelude::*;

use crate::rng::{Rng, CHANCE_MAX};

verus! {

#[derive(Clone, Copy, PartialEq, Eq, Structural, Debug)]
pub enum Direction {
    Up,
    Down,
    Left,
    Right,
}

impl Direction {
    /// The direction after a quarter turn to the left.
    pub open spec fn turned_left_spec(self) -> Direction {
        match self {
            Direction::Up => Direction::Left,
            Direction::Down => Direction::Right,
            Direction::Left => Direction::Up,
            Direction::Right => Direction::Down,
        }
    }

    /// The direction after a quarter turn to the right.
    pub open spec fn turned_right_spec(self) -> Direction {
        match self {
            Direction::Up => Direction::Right,
            Direction::Down => Direction::Left,
            Direction::Left => Direction::Down,
            Direction::Right => Direction::Up,
        }
    }

    /// The opposite direction. A pipe never transitions to it.
    pub open spec fn reversed_spec(self) -> Direction {
        match self {
            Direction::Up => Direction::Down,
            Direction::Down => Direction::Up,
            Direction::Left => Direction::Right,
            Direction::Right => Direction::Left,
        }
    }

    pub fn turned_left(self) -> (r: Direction)
        ensures
            r == self.turned_left_spec(),
    {
        match self {
            Direction::Up => Direction::Left,
            Direction::Down => Direction::Right,
            Direction::Left => Direction::Up,
            Direction::Right => Direction::Down,
        }
    }

    pub fn turned_right(self) -> (r: Direction)
        ensures
            r == self.turned_right_spec(),
    {
        match self {
            Direction::Up => Direction::Right,
            Direction::Down => Direction::Left,
            Direction::Left => Direction::Down,
            Direction::Right => Direction::Up,
        }
    }

    /// With probability `turn_chance / CHANCE_MAX`, turns a quarter turn
    /// left or right (each equally likely); otherwise stays straight.
    /// A chance of 0 never turns; a chance of `CHANCE_MAX` always turns.
    pub fn maybe_turn(self, rng: &mut Rng, turn_chance: u32) -> (r: Direction)
        requires
            turn_chance <= CHANCE_MAX,
        ensures
            reachable_pair(self, r),
            turn_chance == 0 ==> r == self,
            turn_chance == CHANCE_MAX ==> r != self && (r == self.turned_left_spec()
                || r == self.turned_right_spec()),
    {
        if !rng.gen_chance(turn_chance) {
            return self;
        }

        if rng.gen_chance(CHANCE_MAX / 2) {
            self.turned_left()
        } else {
            self.turned_right()
        }
    }

    /// Uniform choice over the four directions.
    pub fn gen(rng: &mut Rng) -> Direction {
        match rng.gen_range(0, 4) {
            0 => Direction::Up,
            1 => Direction::Down,
            2 => Direction::Left,
            _ => Direction::Right,
        }
    }
}

/// Whether a pipe whose previous direction was `prev` can currently be
/// heading in `cur`: the directions are equal or a quarter turn apart.
pub open spec fn reachable_pair(prev: Direction, cur: Direction) -> bool {
    cur == prev || cur == prev.turned_left_spec() || cur == prev.turned_right_spec()
}

/// A reachable direction pair is never a reversal: the four opposite pairs
/// (up then down, left then right, and their mirrors) cannot arise from
/// staying straight or from a quarter turn.
pub proof fn lemma_reachable_pair_never_reversed(prev: Direction, cur: Direction)
    requires
        reachable_pair(prev, cur),
    ensures
        cur != prev.reversed_spec(),
{
}

} // verus!
