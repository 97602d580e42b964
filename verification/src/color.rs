//! Pipe colors. A pipe is either uncolored, painted with one of twelve
//! named terminal colors, or painted with a sample from a palette in the
//! perceptually uniform oklch space. An oklch sample remembers its
//! components so its hue can be rotated a little every tick.
//!
//! Angles are stored in thousandths of a degree and the lightness and
//! chroma components in thousandths, so the library never touches floating
//! point; the conversion of a sample to display RGB is float work and is
//! left to the rendering edge outside the library.

use vstd::prelude::*;

use crate::rng::Rng;
use crate::terminal;

verus! {

/// A full turn of the hue circle, in thousandths of a degree.
pub const FULL_CIRCLE_MDEG: u32 = 360000;

#[derive(Clone, Copy, PartialEq, Eq, Structural, Debug)]
pub enum ColorMode {
    Ansi,
    Rgb,
    Plain,
}

#[derive(Clone, Copy, PartialEq, Eq, Structural, Debug)]
pub enum Palette {
    Default,
    Darker,
    Pastel,
    Matrix,
}

/// An oklch color with lightness and chroma in thousandths and the hue in
/// thousandths of a degree.
#[derive(Clone, Copy, PartialEq, Eq, Structural, Debug)]
pub struct Oklch {
    pub l_milli: u32,
    pub c_milli: u32,
    pub h_mdeg: u32,
}

/// A pipe's color: a named terminal color, or an oklch sample that the
/// renderer converts to display RGB.
#[derive(Clone, Copy, PartialEq, Eq, Structural, Debug)]
pub enum Color {
    Named(terminal::Color),
    Sampled(Oklch),
}

/// Whether a terminal color is one of the twelve named colors.
pub open spec fn is_ansi_color(c: terminal::Color) -> bool {
    !(c is Rgb)
}

impl Color {
    /// Well-formedness: a named color is one of the twelve ANSI names and a
    /// sample's hue is a valid angle.
    pub open spec fn wf(self) -> bool {
        match self {
            Color::Named(c) => is_ansi_color(c),
            Color::Sampled(ok) => ok.h_mdeg < FULL_CIRCLE_MDEG,
        }
    }

    /// Rotates a sampled color's hue by the given amount, wrapping at a full
    /// circle; a named color is left alone.
    pub fn update(&mut self, hue_shift_mdeg: u32)
        requires
            old(self).wf(),
            hue_shift_mdeg <= FULL_CIRCLE_MDEG,
        ensures
            final(self).wf(),
            *final(self) == shifted_color(*old(self), hue_shift_mdeg),
    {
        match *self {
            Color::Named(_) => {},
            Color::Sampled(ok) => {
                let h2 = (ok.h_mdeg + hue_shift_mdeg) % FULL_CIRCLE_MDEG;
                *self = Color::Sampled(
                    Oklch { l_milli: ok.l_milli, c_milli: ok.c_milli, h_mdeg: h2 },
                );
            },
        }
    }
}

/// `c` with its hue rotated by the given amount, wrapping at a full circle;
/// a named color is unaffected by hue rotation.
pub open spec fn shifted_color(c: Color, hue_shift_mdeg: u32) -> Color {
    match c {
        Color::Named(_) => c,
        Color::Sampled(ok) => Color::Sampled(
            Oklch {
                l_milli: ok.l_milli,
                c_milli: ok.c_milli,
                h_mdeg: ((ok.h_mdeg + hue_shift_mdeg) as int % FULL_CIRCLE_MDEG as int) as u32,
            },
        ),
    }
}

/// Rotating the hue twice is one rotation by the combined amount: the
/// angle wraps modulo a full circle, so repeated small shifts never drift
/// away from a single equivalent shift.
pub proof fn lemma_shifts_compose(c: Color, a: u32, b: u32)
    requires
        c.wf(),
        a <= FULL_CIRCLE_MDEG,
        b <= FULL_CIRCLE_MDEG,
    ensures
        shifted_color(shifted_color(c, a), b) == shifted_color(
            c,
            ((a + b) as int % FULL_CIRCLE_MDEG as int) as u32,
        ),
{
    match c {
        Color::Named(_) => {},
        Color::Sampled(ok) => {
            let m = FULL_CIRCLE_MDEG as int;
            let h = ok.h_mdeg as int;
            let a = a as int;
            let b = b as int;
            vstd::arithmetic::div_mod::lemma_mod_bound(h + a, m);
            vstd::arithmetic::div_mod::lemma_mod_bound(a + b, m);
            vstd::arithmetic::div_mod::lemma_add_mod_noop_right(b + h, a, m);
            vstd::arithmetic::div_mod::lemma_add_mod_noop_right(h, a + b, m);
        },
    }
}

impl Palette {
    /// The palette's hue range, in thousandths of a degree; a degenerate
    /// range fixes the hue.
    pub open spec fn hue_range_spec(self) -> (u32, u32) {
        match self {
            Palette::Matrix => (145000, 145000),
            _ => (0, FULL_CIRCLE_MDEG),
        }
    }

    /// The palette's lightness range, in thousandths.
    pub open spec fn lightness_range_spec(self) -> (u32, u32) {
        match self {
            Palette::Default => (750, 750),
            Palette::Darker => (650, 650),
            Palette::Pastel => (800, 800),
            Palette::Matrix => (500, 900),
        }
    }

    /// The palette's fixed chroma, in thousandths.
    pub open spec fn chroma_spec(self) -> u32 {
        match self {
            Palette::Default => 125,
            Palette::Darker => 110,
            Palette::Pastel => 85,
            Palette::Matrix => 110,
        }
    }

    pub fn get_hue_range(self) -> (r: (u32, u32))
        ensures
            r == self.hue_range_spec(),
    {
        match self {
            Palette::Matrix => (145000, 145000),
            _ => (0, FULL_CIRCLE_MDEG),
        }
    }

    pub fn get_lightness_range(self) -> (r: (u32, u32))
        ensures
            r == self.lightness_range_spec(),
    {
        match self {
            Palette::Default => (750, 750),
            Palette::Darker => (650, 650),
            Palette::Pastel => (800, 800),
            Palette::Matrix => (500, 900),
        }
    }

    pub fn get_chroma(self) -> (r: u32)
        ensures
            r == self.chroma_spec(),
    {
        match self {
            Palette::Default => 125,
            Palette::Darker => 110,
            Palette::Pastel => 85,
            Palette::Matrix => 110,
        }
    }
}

/// Where a value drawn from the range `lo..hi` can lie: a degenerate range
/// yields its endpoint, any other yields a value below the upper bound.
pub open spec fn in_sample_range(v: u32, lo: u32, hi: u32) -> bool {
    if lo == hi {
        v == lo
    } else {
        lo <= v < hi
    }
}

/// Draws from `lo..hi`, where a degenerate range yields its endpoint.
fn sample_range(rng: &mut Rng, lo: u32, hi: u32) -> (r: u32)
    requires
        lo <= hi,
    ensures
        in_sample_range(r, lo, hi),
{
    if lo == hi {
        lo
    } else {
        rng.gen_range(lo, hi)
    }
}

/// Whether an oklch sample is one the palette can produce.
pub open spec fn palette_admits(p: Palette, ok: Oklch) -> bool {
    &&& in_sample_range(ok.h_mdeg, p.hue_range_spec().0, p.hue_range_spec().1)
    &&& in_sample_range(ok.l_milli, p.lightness_range_spec().0, p.lightness_range_spec().1)
    &&& ok.c_milli == p.chroma_spec()
}

/// A color for a fresh pipe: nothing in the uncolored mode, a random named
/// color in ANSI mode, and a palette sample in RGB mode.
pub fn gen_random_color(rng: &mut Rng, color_mode: ColorMode, palette: Palette) -> (r: Option<
    Color,
>)
    ensures
        r.is_none() <==> color_mode == ColorMode::Plain,
        r matches Some(c) ==> c.wf(),
        color_mode == ColorMode::Ansi ==> (r matches Some(c) && c is Named),
        color_mode == ColorMode::Rgb ==> (r matches Some(c) && c matches Color::Sampled(ok)
            && palette_admits(palette, ok)),
{
    match color_mode {
        ColorMode::Ansi => Some(gen_random_ansi_color(rng)),
        ColorMode::Rgb => Some(gen_random_rgb_color(rng, palette)),
        ColorMode::Plain => None,
    }
}

/// A uniform choice among the twelve named terminal colors.
fn gen_random_ansi_color(rng: &mut Rng) -> (r: Color)
    ensures
        r.wf(),
        r is Named,
{
    let num = rng.gen_range(0, 12);
    let named = match num {
        0 => terminal::Color::Red,
        1 => terminal::Color::DarkRed,
        2 => terminal::Color::Green,
        3 => terminal::Color::DarkGreen,
        4 => terminal::Color::Yellow,
        5 => terminal::Color::DarkYellow,
        6 => terminal::Color::Blue,
        7 => terminal::Color::DarkBlue,
        8 => terminal::Color::Magenta,
        9 => terminal::Color::DarkMagenta,
        10 => terminal::Color::Cyan,
        _ => terminal::Color::DarkCyan,
    };
    Color::Named(named)
}

/// A sample from the palette's hue and lightness ranges at its fixed chroma.
fn gen_random_rgb_color(rng: &mut Rng, palette: Palette) -> (r: Color)
    ensures
        r.wf(),
        r matches Color::Sampled(ok) && palette_admits(palette, ok),
{
    let hue_range = palette.get_hue_range();
    let hue = sample_range(rng, hue_range.0, hue_range.1);
    let lightness_range = palette.get_lightness_range();
    let lightness = sample_range(rng, lightness_range.0, lightness_range.1);
    let chroma = palette.get_chroma();
    Color::Sampled(Oklch { l_milli: lightness, c_milli: chroma, h_mdeg: hue })
}

} // verus!
