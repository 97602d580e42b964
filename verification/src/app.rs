//! The per-frame simulation: owns the terminal model, the generator, the
//! configuration and the live pipes. Each frame reacts to at most one
//! event, renders every pipe at its current cell (recording coverage),
//! advances every pipe, and replaces the ones that left the grid. The
//! caller runs the loop around it: it polls events, draws the returned
//! commands, sleeps, and resets when the covered fraction reaches the
//! threshold.

use vstd::prelude::*;

use crate::color::{palette_admits, Color, ColorMode};
use crate::config::Config;
use crate::direction::reachable_pair;
use crate::kind::KindSet;
use crate::pipe::{glyph_for, shifted_opt_color, spawn_consistent, Pipe};
use crate::position::{coords_in_bounds, coords_representable, stepped_coords};
use crate::rng::{Rng, CHANCE_MAX};
use crate::screen::count_true;
use crate::terminal::{Event, Terminal};

verus! {

/// What the frame loop should do next.
#[must_use]
#[derive(Clone, Copy, PartialEq, Eq, Structural, Debug)]
pub enum ControlFlow {
    Continue,
    Break,
    Reset,
}

/// One glyph to draw: at which logical cell, in which color.
#[derive(Clone, Copy, PartialEq, Eq, Structural, Debug)]
pub struct DrawCmd {
    pub x: u16,
    pub y: u16,
    pub color: Option<Color>,
    pub glyph: char,
}

/// Whether a draw command renders pipe `p` where it stands.
pub open spec fn cmd_matches(cmd: DrawCmd, p: Pipe) -> bool {
    &&& cmd.x == p.position.x
    &&& cmd.y == p.position.y
    &&& cmd.color == p.color
    &&& cmd.glyph == glyph_for(p.kind_spec(), p.prev_dir_spec(), p.current_dir_spec())
}

/// Whether `p` is a fresh spawn for this grid and configuration: on a grid
/// edge pointing inward, with no direction history yet, its kind from the
/// style set and its color drawn per the color mode.
pub open spec fn fresh_spawn(p: Pipe, size: (u16, u16), kinds: KindSet, config: Config) -> bool {
    &&& p.wf()
    &&& p.prev_dir_spec() == p.current_dir_spec()
    &&& spawn_consistent(p.current_dir_spec(), p.position, size)
    &&& p.position.in_bounds_spec(size)
    &&& kinds.kinds_spec().contains(p.kind_spec())
    &&& (p.color.is_none() <==> config.color_mode_spec() == ColorMode::Plain)
    &&& (config.color_mode_spec() == ColorMode::Ansi ==> (p.color matches Some(c) && c is Named))
    &&& (config.color_mode_spec() == ColorMode::Rgb ==> (p.color matches Some(c) && c matches
        Color::Sampled(ok) && palette_admits(config.palette_spec(), ok)))
}

/// How one frame leaves a pipe, given its state when the frame began. A
/// pipe whose step stayed on the grid is the stepped pipe: its history
/// advanced by at most a quarter turn, its kind kept, its hue rotated. One
/// whose step left the grid is replaced by a fresh edge spawn, which keeps
/// the old pipe's kind and color (rotated only if the step was applied)
/// when styles are inherited, and is drawn fresh per the color mode
/// otherwise.
pub open spec fn pipe_frame_relation(
    p_old: Pipe,
    p_new: Pipe,
    size: (u16, u16),
    kinds: KindSet,
    config: Config,
) -> bool {
    let stepped = stepped_coords(p_old.position, p_old.current_dir_spec());
    let rotated = shifted_opt_color(p_old.color, config.rainbow_spec());
    if coords_in_bounds(stepped, size) {
        &&& (p_new.position.x as int, p_new.position.y as int) == stepped
        &&& p_new.prev_dir_spec() == p_old.current_dir_spec()
        &&& reachable_pair(p_old.current_dir_spec(), p_new.current_dir_spec())
        &&& p_new.kind_spec() == p_old.kind_spec()
        &&& p_new.color == rotated
    } else {
        &&& p_new.prev_dir_spec() == p_new.current_dir_spec()
        &&& spawn_consistent(p_new.current_dir_spec(), p_new.position, size)
        &&& (config.inherit_style_spec() ==> p_new.kind_spec() == p_old.kind_spec()
            && p_new.color == (if coords_representable(stepped) {
            rotated
        } else {
            p_old.color
        }))
        &&& (!config.inherit_style_spec() ==> fresh_spawn(p_new, size, kinds, config))
    }
}

pub struct App {
    pub terminal: Terminal,
    pub rng: Rng,
    pub config: Config,
    pub kinds: KindSet,
    pub pipes: Vec<Pipe>,
}

impl App {
    /// The part of well-formedness that does not speak of the pipes: a
    /// usable grid, a validated configuration and a non-empty style set.
    pub open spec fn wf_base(self) -> bool {
        &&& self.terminal.wf()
        &&& self.terminal.size_spec().0 >= 1
        &&& self.terminal.size_spec().1 >= 1
        &&& self.kinds.wf()
        &&& self.config.validate_spec() is Ok
    }

    /// Well-formedness: a usable grid, a validated configuration, a
    /// non-empty style set, and every pipe valid and on the grid.
    pub open spec fn wf(self) -> bool {
        &&& self.wf_base()
        &&& forall|i: int|
            0 <= i < self.pipes@.len() ==> (#[trigger] self.pipes@[i]).wf()
                && self.pipes@[i].position.in_bounds_spec(self.terminal.size_spec())
    }

    /// Builds the simulation over a terminal model and spawns the
    /// configured number of pipes. A grid with no cells is unusable.
    pub fn new(terminal: Terminal, rng: Rng, config: Config) -> (r: Option<App>)
        requires
            terminal.wf(),
            config.wf(),
            config.validate_spec() is Ok,
        ensures
            match r {
                Some(app) => app.wf() && app.pipes@.len() == config.num_pipes_spec() && app.config
                    == config && app.kinds.kinds_spec() == config.kinds_seq_spec()
                    && app.terminal.size_spec() == terminal.size_spec(),
                None => terminal.size_spec().0 == 0 || terminal.size_spec().1 == 0,
            },
    {
        let size = terminal.size();
        if size.0 == 0 || size.1 == 0 {
            return None;
        }
        let kinds = config.kinds();
        let mut app = App { terminal, rng, config, kinds, pipes: Vec::new() };
        let pipes = app.create_pipes();
        app.pipes = pipes;
        Some(app)
    }

    /// Spawns one pipe with a random kind from the style set.
    pub fn create_pipe(&mut self) -> (p: Pipe)
        requires
            old(self).wf_base(),
        ensures
            final(self).wf_base(),
            final(self).terminal == old(self).terminal,
            final(self).config == old(self).config,
            final(self).kinds == old(self).kinds,
            final(self).pipes == old(self).pipes,
            p.wf(),
            p.position.in_bounds_spec(final(self).terminal.size_spec()),
            fresh_spawn(p, old(self).terminal.size_spec(), old(self).kinds, old(self).config),
    {
        let kind = self.kinds.choose_random(&mut self.rng);
        let size = self.terminal.size();
        Pipe::new(size, &mut self.rng, self.config.color_mode(), self.config.palette(), kind)
    }

    /// Spawns the configured number of pipes.
    pub fn create_pipes(&mut self) -> (r: Vec<Pipe>)
        requires
            old(self).wf_base(),
        ensures
            final(self).wf_base(),
            final(self).terminal == old(self).terminal,
            final(self).config == old(self).config,
            final(self).kinds == old(self).kinds,
            final(self).pipes == old(self).pipes,
            r@.len() == old(self).config.num_pipes_spec(),
            forall|i: int|
                0 <= i < r@.len() ==> (#[trigger] r@[i]).wf() && r@[i].position.in_bounds_spec(
                    final(self).terminal.size_spec(),
                ) && fresh_spawn(
                    r@[i],
                    old(self).terminal.size_spec(),
                    old(self).kinds,
                    old(self).config,
                ),
    {
        let n = self.config.num_pipes();
        let mut r: Vec<Pipe> = Vec::new();
        let mut i: u32 = 0;
        while i < n
            invariant
                i <= n,
                self.wf_base(),
                self.terminal == old(self).terminal,
                self.config == old(self).config,
                self.kinds == old(self).kinds,
                self.pipes == old(self).pipes,
                n == old(self).config.num_pipes_spec(),
                r@.len() == i,
                forall|j: int|
                    0 <= j < r@.len() ==> (#[trigger] r@[j]).wf() && r@[j].position.in_bounds_spec(
                        self.terminal.size_spec(),
                    ) && fresh_spawn(r@[j], self.terminal.size_spec(), self.kinds, self.config),
            decreases n - i,
        {
            let p = self.create_pipe();
            r.push(p);
            i = i + 1;
        }
        r
    }

    /// Replaces every pipe with a fresh spawn.
    fn respawn_pipes(&mut self)
        requires
            old(self).wf_base(),
        ensures
            final(self).wf(),
            final(self).terminal == old(self).terminal,
            final(self).config == old(self).config,
            final(self).kinds == old(self).kinds,
            final(self).pipes@.len() == old(self).pipes@.len(),
            forall|i: int|
                0 <= i < final(self).pipes@.len() ==> fresh_spawn(
                    #[trigger] final(self).pipes@[i],
                    old(self).terminal.size_spec(),
                    old(self).kinds,
                    old(self).config,
                ),
    {
        let n = self.pipes.len();
        let mut i: usize = 0;
        while i < n
            invariant
                i <= n,
                self.wf_base(),
                self.terminal == old(self).terminal,
                self.config == old(self).config,
                self.kinds == old(self).kinds,
                self.pipes@.len() == n,
                forall|j: int|
                    0 <= j < i ==> (#[trigger] self.pipes@[j]).wf()
                        && self.pipes@[j].position.in_bounds_spec(self.terminal.size_spec())
                        && fresh_spawn(
                        self.pipes@[j],
                        self.terminal.size_spec(),
                        self.kinds,
                        self.config,
                    ),
            decreases n - i,
        {
            let p = self.create_pipe();
            self.pipes[i] = p;
            i = i + 1;
        }
    }

    /// Starts a fresh round: uncovers the whole grid (the backend clears
    /// the display) and replaces every pipe with a fresh spawn on an edge,
    /// its kind from the style set and its color per the color mode.
    pub fn reset(&mut self)
        requires
            old(self).wf_base(),
        ensures
            final(self).wf(),
            final(self).terminal.size_spec() == old(self).terminal.size_spec(),
            final(self).terminal.max_char_width_spec() == old(self).terminal.max_char_width_spec(),
            final(self).config == old(self).config,
            final(self).kinds == old(self).kinds,
            final(self).pipes@.len() == old(self).pipes@.len(),
            forall|i: int|
                0 <= i < final(self).terminal.screen_spec().cells_spec().len()
                    ==> !final(self).terminal.screen_spec().cells_spec()[i],
            forall|i: int|
                0 <= i < final(self).pipes@.len() ==> fresh_spawn(
                    #[trigger] final(self).pipes@[i],
                    old(self).terminal.size_spec(),
                    old(self).kinds,
                    old(self).config,
                ),
    {
        self.terminal.clear();
        self.respawn_pipes();
    }

    /// Advances one pipe a frame: ticks it and, when it left the grid,
    /// replaces it in place, inheriting its style or respawning fresh per
    /// the configuration. The result is always a valid pipe on the grid,
    /// related to the old one as one frame demands.
    fn tick_pipe(&mut self, pipe: Pipe) -> (r: Pipe)
        requires
            old(self).wf_base(),
            pipe.wf(),
        ensures
            final(self).wf_base(),
            final(self).terminal == old(self).terminal,
            final(self).config == old(self).config,
            final(self).kinds == old(self).kinds,
            final(self).pipes == old(self).pipes,
            r.wf(),
            r.position.in_bounds_spec(final(self).terminal.size_spec()),
            pipe_frame_relation(
                pipe,
                r,
                old(self).terminal.size_spec(),
                old(self).kinds,
                old(self).config,
            ),
    {
        proof {
            self.config.lemma_validated_fractions();
        }
        let size = self.terminal.size();
        let mut p = pipe;
        let turn_chance = self.config.turn_chance();
        let hue_shift = self.config.rainbow();
        let stayed = p.tick(size, &mut self.rng, turn_chance, hue_shift);
        if !stayed.0 {
            if self.config.inherit_style() {
                p = p.dup(size, &mut self.rng);
            } else {
                p = self.create_pipe();
            }
        }
        p
    }

    /// Runs one frame. An exit or reset event short-circuits everything.
    /// Otherwise every pipe is rendered at its current cell — the returned
    /// commands, in pipe order, are what the backend must draw, and the
    /// covered cells are exactly the previously covered ones plus each
    /// pipe's cell — and then advanced.
    pub fn tick_frame(&mut self, event: Option<Event>) -> (r: (ControlFlow, Vec<DrawCmd>))
        requires
            old(self).wf(),
        ensures
            final(self).wf(),
            final(self).terminal.size_spec() == old(self).terminal.size_spec(),
            final(self).config == old(self).config,
            final(self).kinds == old(self).kinds,
            final(self).pipes@.len() == old(self).pipes@.len(),
            event == Some(Event::Exit) ==> r.0 == ControlFlow::Break && r.1@.len() == 0
                && *final(self) == *old(self),
            event == Some(Event::Reset) ==> r.0 == ControlFlow::Reset && r.1@.len() == 0
                && *final(self) == *old(self),
            event is None ==> {
                &&& r.0 == ControlFlow::Continue
                &&& r.1@.len() == old(self).pipes@.len()
                &&& forall|i: int|
                    0 <= i < r.1@.len() ==> cmd_matches(#[trigger] r.1@[i], old(self).pipes@[i])
                &&& final(self).terminal.screen_spec().cells_spec().len()
                    == old(self).terminal.screen_spec().cells_spec().len()
                &&& forall|c: int|
                    0 <= c < old(self).terminal.screen_spec().cells_spec().len() ==> (
                    #[trigger] final(self).terminal.screen_spec().cells_spec()[c] <==> (old(self).terminal.screen_spec().cells_spec()[c] || exists|k: int|
                        0 <= k < old(self).pipes@.len() && c == old(self).pipes@[k].position.y
                            * old(self).terminal.size_spec().0 + old(self).pipes@[k].position.x))
                &&& forall|i: int|
                    0 <= i < old(self).pipes@.len() ==> pipe_frame_relation(
                        old(self).pipes@[i],
                        #[trigger] final(self).pipes@[i],
                        old(self).terminal.size_spec(),
                        old(self).kinds,
                        old(self).config,
                    )
            },
    {
        match event {
            Option::Some(Event::Exit) => {
                return (ControlFlow::Break, Vec::new());
            },
            Option::Some(Event::Reset) => {
                return (ControlFlow::Reset, Vec::new());
            },
            Option::None => {},
        }

        let ghost pipes0 = self.pipes@;
        let ghost cells0 = self.terminal.screen_spec().cells_spec();
        let ghost gw = self.terminal.size_spec().0 as int;
        let ghost gh = self.terminal.size_spec().1 as int;
        proof {
            self.terminal.screen_spec().lemma_wf_dimensions();
        }

        let n = self.pipes.len();
        let mut cmds: Vec<DrawCmd> = Vec::new();
        let mut i: usize = 0;
        while i < n
            invariant
                i <= n,
                self.wf(),
                self.terminal.size_spec() == old(self).terminal.size_spec(),
                self.config == old(self).config,
                self.kinds == old(self).kinds,
                self.pipes@.len() == n,
                n == pipes0.len(),
                pipes0 == old(self).pipes@,
                cells0 == old(self).terminal.screen_spec().cells_spec(),
                gw == self.terminal.size_spec().0 as int,
                gh == self.terminal.size_spec().1 as int,
                cells0.len() == gw * gh,
                forall|j: int| i <= j < n ==> self.pipes@[j] == pipes0[j],
                cmds@.len() == i,
                forall|j: int| 0 <= j < i ==> cmd_matches(#[trigger] cmds@[j], pipes0[j]),
                self.terminal.screen_spec().cells_spec().len() == cells0.len(),
                forall|c: int|
                    0 <= c < cells0.len() ==> (#[trigger] self.terminal.screen_spec().cells_spec()[c] <==> (cells0[c] || exists|k: int|
                        0 <= k < i && c == pipes0[k].position.y * gw + pipes0[k].position.x)),
                forall|j: int|
                    0 <= j < i ==> pipe_frame_relation(
                        pipes0[j],
                        #[trigger] self.pipes@[j],
                        self.terminal.size_spec(),
                        self.kinds,
                        self.config,
                    ),
            decreases n - i,
        {
            let p = self.pipes[i];
            let glyph = p.to_char();
            let _phys = self.terminal.move_cursor_to(p.position.x, p.position.y);
            let ghost cells_before = self.terminal.screen_spec().cells_spec();
            self.terminal.print(glyph);
            proof {
                let flat = p.position.y * gw + p.position.x;
                crate::screen::lemma_cell_index_in_range(
                    p.position.x as int,
                    p.position.y as int,
                    gw,
                    gh,
                );
                assert forall|c: int| 0 <= c < cells0.len() implies (
                    #[trigger] self.terminal.screen_spec().cells_spec()[c] <==> (cells0[c]
                        || exists|k: int|
                        0 <= k < i + 1 && c == pipes0[k].position.y * gw
                            + pipes0[k].position.x)) by {
                    assert(self.terminal.screen_spec().cells_spec() == cells_before.update(
                        flat,
                        true,
                    ));
                    if c == flat {
                        assert(0 <= i < i + 1 && c == pipes0[i as int].position.y * gw
                            + pipes0[i as int].position.x);
                    } else {
                        assert(self.terminal.screen_spec().cells_spec()[c] == cells_before[c]);
                        if self.terminal.screen_spec().cells_spec()[c] && !cells0[c] {
                            let k = choose|k: int|
                                0 <= k < i && c == pipes0[k].position.y * gw
                                    + pipes0[k].position.x;
                            assert(0 <= k < i + 1 && c == pipes0[k].position.y * gw
                                + pipes0[k].position.x);
                        }
                        if exists|k: int|
                            0 <= k < i + 1 && c == pipes0[k].position.y * gw
                                + pipes0[k].position.x {
                            let k = choose|k: int|
                                0 <= k < i + 1 && c == pipes0[k].position.y * gw
                                    + pipes0[k].position.x;
                            assert(k != i);
                            assert(0 <= k < i && c == pipes0[k].position.y * gw
                                + pipes0[k].position.x);
                        }
                    }
                }
            }
            cmds.push(DrawCmd { x: p.position.x, y: p.position.y, color: p.color, glyph });
            let p2 = self.tick_pipe(p);
            self.pipes[i] = p2;
            i = i + 1;
        }
        (ControlFlow::Continue, cmds)
    }

    /// Whether the covered fraction is still below the reset threshold; a
    /// disabled threshold never triggers.
    pub open spec fn under_threshold_spec(self) -> bool {
        match self.config.reset_threshold_spec() {
            None => true,
            Some(t) => count_true(self.terminal.screen_spec().cells_spec()) * CHANCE_MAX
                < self.terminal.size_spec().0 as int * self.terminal.size_spec().1 as int * t,
        }
    }

    /// Whether the next round may continue: true until the covered fraction
    /// reaches the configured threshold.
    pub fn under_threshold(&self) -> (r: bool)
        requires
            self.wf(),
        ensures
            r == self.under_threshold_spec(),
    {
        match self.config.reset_threshold() {
            None => true,
            Some(t) => {
                let portion = self.terminal.portion_covered();
                proof {
                    crate::screen::lemma_count_true_bounds(
                        self.terminal.screen_spec().cells_spec(),
                    );
                    self.terminal.screen_spec().lemma_wf_dimensions();
                    self.config.lemma_validated_fractions();
                    assert(self.terminal.size_spec().0 as int * self.terminal.size_spec().1 as int
                        <= 65535 * 65535) by (nonlinear_arith)
                        requires
                            0 <= self.terminal.size_spec().0 <= 65535,
                            0 <= self.terminal.size_spec().1 <= 65535,
                    ;
                    assert(portion.0 <= portion.1);
                    assert(portion.1 as int * t as int <= 65535 * 65535 * 10000)
                        by (nonlinear_arith)
                        requires
                            0 <= portion.1 as int <= 65535 * 65535,
                            0 <= t <= 10000,
                    ;
                }
                (portion.0 as u64) * (CHANCE_MAX as u64) < (portion.1 as u64) * (t as u64)
            },
        }
    }

    /// Reacts to a terminal resize: rescales the grid, uncovers it and
    /// replaces every pipe with a fresh spawn on an edge of the new grid,
    /// as a full reset does. Reports false, changing nothing, when the new
    /// grid has no cells.
    pub fn handle_resize(&mut self, columns: u16, rows: u16) -> (r: bool)
        requires
            old(self).wf(),
        ensures
            r ==> final(self).wf() && final(self).terminal.size_spec() == (
                columns / old(self).terminal.max_char_width_spec(),
                rows,
            ) && final(self).config == old(self).config && final(self).kinds == old(self).kinds
                && final(self).pipes@.len() == old(self).pipes@.len() && (forall|i: int|
                0 <= i < final(self).terminal.screen_spec().cells_spec().len()
                    ==> !final(self).terminal.screen_spec().cells_spec()[i]) && (forall|i: int|
                0 <= i < final(self).pipes@.len() ==> fresh_spawn(
                    #[trigger] final(self).pipes@[i],
                    final(self).terminal.size_spec(),
                    old(self).kinds,
                    old(self).config,
                )),
            !r ==> *final(self) == *old(self)
                && (columns / old(self).terminal.max_char_width_spec() == 0 || rows == 0),
    {
        let grid_w = columns / self.terminal.max_char_width();
        if grid_w == 0 || rows == 0 {
            return false;
        }
        self.terminal.resize(columns, rows);
        self.respawn_pipes();
        true
    }
}

} // verus!
