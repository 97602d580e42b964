//! The pipe entity: a position, a two-slot direction history, an optional
//! color and a fixed glyph kind. The glyph a pipe draws is a pure function
//! of its previous and current direction, and since a turn is always a
//! quarter turn, the reversed pairs can never be asked for.

use vstd::prelude::*;
use vstd::pervasive::unreached;

use crate::color::{gen_random_color, shifted_color, Color, ColorMode, Palette};
use crate::direction::{reachable_pair, Direction};
use crate::kind::Kind;
use crate::position::{
    coords_in_bounds, coords_representable, stepped_coords, InScreenBounds, Position,
};
use crate::rng::{Rng, CHANCE_MAX};

verus! {

/// A bounded history of two values: the current one and, once it has ever
/// been replaced, the one before it.
#[derive(Clone, Copy)]
pub struct HistoryKeeper<T: Copy> {
    previous: Option<T>,
    current: T,
}

impl<T: Copy> HistoryKeeper<T> {
    pub closed spec fn current_spec(self) -> T {
        self.current
    }

    pub closed spec fn previous_spec(self) -> Option<T> {
        self.previous
    }

    pub fn new(value: T) -> (r: HistoryKeeper<T>)
        ensures
            r.current_spec() == value,
            r.previous_spec() is None,
    {
        HistoryKeeper { previous: None, current: value }
    }

    pub fn current(&self) -> (r: T)
        ensures
            r == self.current_spec(),
    {
        self.current
    }

    pub fn previous(&self) -> (r: Option<T>)
        ensures
            r == self.previous_spec(),
    {
        self.previous
    }

    /// Replaces the current value, remembering it as the previous one.
    pub fn update(&mut self, value: T)
        ensures
            final(self).current_spec() == value,
            final(self).previous_spec() == Some(old(self).current_spec()),
    {
        self.previous = Some(self.current);
        self.current = value;
    }
}

/// The glyph a pipe draws for a transition from `prev` to `cur`: the same
/// direction twice gives the straight glyph for that direction, and the
/// four quarter-turn pairs each give one corner glyph. The reversed pairs
/// never arise from a well-formed pipe and are left unspecified.
pub open spec fn glyph_for(kind: Kind, prev: Direction, cur: Direction) -> char {
    if prev == cur {
        match cur {
            Direction::Up => kind.chars_spec()[0],
            Direction::Down => kind.chars_spec()[1],
            Direction::Left => kind.chars_spec()[2],
            Direction::Right => kind.chars_spec()[3],
        }
    } else if (prev == Direction::Up && cur == Direction::Left) || (prev == Direction::Right && cur
        == Direction::Down) {
        kind.chars_spec()[5]
    } else if (prev == Direction::Up && cur == Direction::Right) || (prev == Direction::Left && cur
        == Direction::Down) {
        kind.chars_spec()[4]
    } else if (prev == Direction::Down && cur == Direction::Left) || (prev == Direction::Right
        && cur == Direction::Up) {
        kind.chars_spec()[7]
    } else if (prev == Direction::Down && cur == Direction::Right) || (prev == Direction::Left
        && cur == Direction::Up) {
        kind.chars_spec()[6]
    } else {
        vstd::pervasive::arbitrary()
    }
}

/// Whether a fresh spawn's position sits on the grid edge its direction
/// points inward from: heading up starts on the bottom row, heading down on
/// the top row, heading left on the right column, heading right on the left
/// column.
pub open spec fn spawn_consistent(dir: Direction, pos: Position, size: (u16, u16)) -> bool {
    match dir {
        Direction::Up => pos.y == size.1 - 1 && pos.x < size.0,
        Direction::Down => pos.y == 0 && pos.x < size.0,
        Direction::Left => pos.x == size.0 - 1 && pos.y < size.1,
        Direction::Right => pos.x == 0 && pos.y < size.1,
    }
}

/// A random direction together with a position on the grid edge that the
/// direction points inward from.
pub fn gen_random_direction_and_position(size: (u16, u16), rng: &mut Rng) -> (r: (
    Direction,
    Position,
))
    requires
        size.0 >= 1,
        size.1 >= 1,
    ensures
        spawn_consistent(r.0, r.1, size),
        r.1.in_screen_bounds(size),
{
    let direction = Direction::gen(rng);
    let position = match direction {
        Direction::Up => Position { x: rng.gen_range_16(0, size.0), y: size.1 - 1 },
        Direction::Down => Position { x: rng.gen_range_16(0, size.0), y: 0 },
        Direction::Left => Position { x: size.0 - 1, y: rng.gen_range_16(0, size.1) },
        Direction::Right => Position { x: 0, y: rng.gen_range_16(0, size.1) },
    };
    (direction, position)
}

/// An optional color with its hue rotated by `hue_shift` degrees; an
/// absent color stays absent.
pub open spec fn shifted_opt_color(c: Option<Color>, hue_shift: u8) -> Option<Color> {
    match c {
        Some(cc) => Some(shifted_color(cc, (hue_shift as u32 * 1000) as u32)),
        None => None,
    }
}

#[derive(Clone, Copy)]
pub struct Pipe {
    pub history: HistoryKeeper<Direction>,
    pub position: Position,
    pub color: Option<Color>,
    pub kind: Kind,
}

impl Pipe {
    pub closed spec fn kind_spec(self) -> Kind {
        self.kind
    }

    pub closed spec fn current_dir_spec(self) -> Direction {
        self.history.current_spec()
    }

    /// The direction before the last turn; a pipe that has never ticked is
    /// treated as having gone straight, so it draws a straight glyph.
    pub closed spec fn prev_dir_spec(self) -> Direction {
        match self.history.previous_spec() {
            Some(d) => d,
            None => self.history.current_spec(),
        }
    }

    /// Well-formedness: the direction pair arose from straight moves and
    /// quarter turns, and the color, if any, is valid.
    pub open spec fn wf(self) -> bool {
        &&& reachable_pair(self.prev_dir_spec(), self.current_dir_spec())
        &&& match self.color {
            Some(c) => c.wf(),
            None => true,
        }
    }

    /// Spawns a pipe at a random edge of the grid, pointing inward, with a
    /// fresh random color for the given mode.
    pub fn new(size: (u16, u16), rng: &mut Rng, color_mode: ColorMode, palette: Palette, kind: Kind)
        -> (r: Pipe)
        requires
            size.0 >= 1,
            size.1 >= 1,
        ensures
            r.wf(),
            r.kind_spec() == kind,
            r.prev_dir_spec() == r.current_dir_spec(),
            spawn_consistent(r.current_dir_spec(), r.position, size),
            r.position.in_screen_bounds(size),
            r.color.is_none() <==> color_mode == ColorMode::Plain,
            color_mode == ColorMode::Ansi ==> (r.color matches Some(c) && c is Named),
            color_mode == ColorMode::Rgb ==> (r.color matches Some(c) && c matches
                Color::Sampled(ok) && crate::color::palette_admits(palette, ok)),
    {
        let color = gen_random_color(rng, color_mode, palette);
        let (direction, position) = gen_random_direction_and_position(size, rng);
        Pipe { history: HistoryKeeper::new(direction), position, color, kind }
    }

    /// A fresh spawn that inherits this pipe's color and kind exactly; only
    /// the position and direction are drawn anew.
    pub fn dup(&self, size: (u16, u16), rng: &mut Rng) -> (r: Pipe)
        requires
            self.wf(),
            size.0 >= 1,
            size.1 >= 1,
        ensures
            r.wf(),
            r.color == self.color,
            r.kind_spec() == self.kind_spec(),
            r.prev_dir_spec() == r.current_dir_spec(),
            spawn_consistent(r.current_dir_spec(), r.position, size),
            r.position.in_screen_bounds(size),
    {
        let (direction, position) = gen_random_direction_and_position(size, rng);
        Pipe { history: HistoryKeeper::new(direction), position, color: self.color, kind: self.kind }
    }

    /// A pipe in a chosen state, for deterministic embedding.
    pub fn new_at(position: Position, direction: Direction, color: Option<Color>, kind: Kind) -> (r:
        Pipe)
        requires
            color matches Some(c) ==> c.wf(),
        ensures
            r.wf(),
            r.position == position,
            r.color == color,
            r.kind_spec() == kind,
            r.current_dir_spec() == direction,
            r.prev_dir_spec() == direction,
    {
        Pipe { history: HistoryKeeper::new(direction), position, color, kind }
    }

    /// Advances the pipe one frame: it attempts to step one cell in its
    /// current direction. A step blocked at the decreasing edge reports
    /// out-of-bounds immediately and mutates nothing further. An applied
    /// step rotates the color's hue by `hue_shift` degrees and, when the
    /// pipe stayed on screen, remembers its direction and maybe turns.
    /// Reports whether the pipe is still within `size` after the step.
    pub fn tick(&mut self, size: (u16, u16), rng: &mut Rng, turn_chance: u32, hue_shift: u8) -> (r:
        InScreenBounds)
        requires
            old(self).wf(),
            turn_chance <= CHANCE_MAX,
        ensures
            final(self).wf(),
            final(self).kind_spec() == old(self).kind_spec(),
            r.0 == coords_in_bounds(
                stepped_coords(old(self).position, old(self).current_dir_spec()),
                size,
            ),
            coords_representable(stepped_coords(old(self).position, old(self).current_dir_spec()))
                ==> (final(self).position.x as int, final(self).position.y as int)
                == stepped_coords(old(self).position, old(self).current_dir_spec()),
            !coords_representable(stepped_coords(old(self).position, old(self).current_dir_spec()))
                ==> final(self).position == old(self).position,
            coords_representable(stepped_coords(old(self).position, old(self).current_dir_spec()))
                ==> final(self).color == shifted_opt_color(old(self).color, hue_shift),
            !coords_representable(stepped_coords(old(self).position, old(self).current_dir_spec()))
                ==> final(self).color == old(self).color,
            r.0 ==> final(self).prev_dir_spec() == old(self).current_dir_spec() && reachable_pair(
                old(self).current_dir_spec(),
                final(self).current_dir_spec(),
            ),
            r.0 && turn_chance == 0 ==> final(self).current_dir_spec()
                == old(self).current_dir_spec(),
            !r.0 ==> final(self).current_dir_spec() == old(self).current_dir_spec()
                && final(self).prev_dir_spec() == old(self).prev_dir_spec(),
    {
        let dir = self.history.current();
        let before = self.position;
        let in_bounds = self.position.move_in(dir, size);
        let step_applied = self.position.x != before.x || self.position.y != before.y;
        proof {
            // A step that could be applied moves exactly one coordinate, so
            // an unchanged position means the step was blocked.
            assert(step_applied == coords_representable(stepped_coords(before, dir)));
        }

        if step_applied && self.color.is_some() {
            let mut c = self.color.unwrap();
            c.update((hue_shift as u32) * 1000);
            self.color = Some(c);
        }

        if !in_bounds.0 {
            return InScreenBounds(false);
        }

        let next = dir.maybe_turn(rng, turn_chance);
        self.history.update(next);
        InScreenBounds(true)
    }

    /// The glyph the pipe draws on its current cell, chosen from its kind's
    /// table by the (previous, current) direction pair.
    pub fn to_char(&self) -> (c: char)
        requires
            self.wf(),
        ensures
            c == glyph_for(self.kind_spec(), self.prev_dir_spec(), self.current_dir_spec()),
    {
        let prev = match self.history.previous() {
            Some(d) => d,
            None => self.history.current(),
        };
        let cur = self.history.current();
        match (prev, cur) {
            (Direction::Up, Direction::Left) | (Direction::Right, Direction::Down) => {
                self.kind.top_right()
            },
            (Direction::Up, Direction::Right) | (Direction::Left, Direction::Down) => {
                self.kind.top_left()
            },
            (Direction::Down, Direction::Left) | (Direction::Right, Direction::Up) => {
                self.kind.bottom_right()
            },
            (Direction::Down, Direction::Right) | (Direction::Left, Direction::Up) => {
                self.kind.bottom_left()
            },
            (Direction::Up, Direction::Up) => self.kind.up(),
            (Direction::Down, Direction::Down) => self.kind.down(),
            (Direction::Left, Direction::Left) => self.kind.left(),
            (Direction::Right, Direction::Right) => self.kind.right(),
            _ => unreached(),
        }
    }

    pub fn current_direction(&self) -> (r: Direction)
        ensures
            r == self.current_dir_spec(),
    {
        self.history.current()
    }

    pub fn previous_direction(&self) -> (r: Option<Direction>)
        ensures
            r == self.history.previous_spec(),
    {
        self.history.previous()
    }

    pub fn kind(&self) -> (r: Kind)
        ensures
            r == self.kind_spec(),
    {
        self.kind
    }
}

} // verus!
