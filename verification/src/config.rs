//! The resolved configuration the simulation consumes. Every field is
//! optional; each accessor supplies the documented default. Loading a
//! configuration (command line, config file, merging) happens outside the
//! library; validation of the resolved values happens here, before any
//! terminal state is touched.
//!
//! Fractions (the turn chance and the reset threshold) are expressed as a
//! numerator over [`CHANCE_MAX`]; a reset threshold of zero means resets by
//! coverage are disabled.

use vstd::prelude::*;

use crate::color::{ColorMode, Palette};
use crate::kind::{Kind, KindSet};
use crate::rng::CHANCE_MAX;

verus! {

/// A configuration rejected before the loop starts.
#[derive(Clone, Copy, PartialEq, Eq, Structural, Debug)]
pub enum ConfigError {
    /// A fixed frame delay and a target frame rate are mutually exclusive.
    DelayAndFps,
    /// The reset threshold must be a fraction within zero and one.
    ResetThresholdOutOfRange,
    /// The turn chance must be a fraction within zero and one.
    TurnChanceOutOfRange,
}

impl ConfigError {
    /// A one-line description for standard error.
    pub fn message(&self) -> (r: &'static str)
        ensures
            *self == ConfigError::DelayAndFps ==> r@ == "cannot specify both delay and fps"@,
            *self == ConfigError::ResetThresholdOutOfRange ==> r@
                == "reset threshold should be within 0 and 1"@,
            *self == ConfigError::TurnChanceOutOfRange ==> r@
                == "turn chance should be within 0 and 1"@,
    {
        match self {
            ConfigError::DelayAndFps => "cannot specify both delay and fps",
            ConfigError::ResetThresholdOutOfRange => "reset threshold should be within 0 and 1",
            ConfigError::TurnChanceOutOfRange => "turn chance should be within 0 and 1",
        }
    }
}

pub struct Config {
    pub color_mode: Option<ColorMode>,
    pub palette: Option<Palette>,
    /// Degrees of hue rotation per tick; zero disables the effect.
    pub rainbow: Option<u8>,
    pub delay_ms: Option<u64>,
    /// Target frames per second; zero means no sleep at all.
    pub fps: Option<u32>,
    /// Covered fraction (over [`CHANCE_MAX`]) that triggers a reset; zero
    /// disables resets by coverage.
    pub reset_threshold: Option<u32>,
    pub kinds: Option<KindSet>,
    pub bold: Option<bool>,
    pub inherit_style: Option<bool>,
    pub num_pipes: Option<u32>,
    /// Chance of a quarter turn per tick, over [`CHANCE_MAX`].
    pub turn_chance: Option<u32>,
}

impl Config {
    /// Well-formedness: a configured style set is itself well-formed.
    pub open spec fn wf(self) -> bool {
        match self.kinds {
            Some(ks) => ks.wf(),
            None => true,
        }
    }

    /// A configuration with nothing set: every accessor yields its default.
    pub fn unset() -> (r: Config)
        ensures
            r.wf(),
            r.color_mode is None,
            r.palette is None,
            r.rainbow is None,
            r.delay_ms is None,
            r.fps is None,
            r.reset_threshold is None,
            r.kinds is None,
            r.bold is None,
            r.inherit_style is None,
            r.num_pipes is None,
            r.turn_chance is None,
            r.validate_spec() is Ok,
    {
        Config {
            color_mode: None,
            palette: None,
            rainbow: None,
            delay_ms: None,
            fps: None,
            reset_threshold: None,
            kinds: None,
            bold: None,
            inherit_style: None,
            num_pipes: None,
            turn_chance: None,
        }
    }

    /// What validation finds, in the order the checks run: mutually
    /// exclusive pacing first, then each fraction's range.
    pub open spec fn validate_spec(self) -> Result<(), ConfigError> {
        if self.delay_ms is Some && self.fps is Some {
            Err(ConfigError::DelayAndFps)
        } else if self.reset_threshold matches Some(t) && t > CHANCE_MAX {
            Err(ConfigError::ResetThresholdOutOfRange)
        } else if self.turn_chance matches Some(t) && t > CHANCE_MAX {
            Err(ConfigError::TurnChanceOutOfRange)
        } else {
            Ok(())
        }
    }

    /// Checks the resolved values; a configuration that fails here is
    /// rejected before any terminal state changes.
    pub fn validate(&self) -> (r: Result<(), ConfigError>)
        ensures
            r == self.validate_spec(),
    {
        if self.delay_ms.is_some() && self.fps.is_some() {
            return Err(ConfigError::DelayAndFps);
        }
        if let Some(t) = self.reset_threshold {
            if t > CHANCE_MAX {
                return Err(ConfigError::ResetThresholdOutOfRange);
            }
        }
        if let Some(t) = self.turn_chance {
            if t > CHANCE_MAX {
                return Err(ConfigError::TurnChanceOutOfRange);
            }
        }
        Ok(())
    }

    pub open spec fn color_mode_spec(self) -> ColorMode {
        match self.color_mode {
            Some(m) => m,
            None => ColorMode::Ansi,
        }
    }

    pub fn color_mode(&self) -> (r: ColorMode)
        ensures
            r == self.color_mode_spec(),
    {
        match self.color_mode {
            Some(m) => m,
            None => ColorMode::Ansi,
        }
    }

    pub open spec fn palette_spec(self) -> Palette {
        match self.palette {
            Some(p) => p,
            None => Palette::Default,
        }
    }

    pub fn palette(&self) -> (r: Palette)
        ensures
            r == self.palette_spec(),
    {
        match self.palette {
            Some(p) => p,
            None => Palette::Default,
        }
    }

    pub open spec fn rainbow_spec(self) -> u8 {
        match self.rainbow {
            Some(n) => n,
            None => 0,
        }
    }

    pub fn rainbow(&self) -> (r: u8)
        ensures
            r == self.rainbow_spec(),
    {
        match self.rainbow {
            Some(n) => n,
            None => 0,
        }
    }

    pub open spec fn delay_ms_spec(self) -> u64 {
        match self.delay_ms {
            Some(d) => d,
            None => 20,
        }
    }

    /// The fixed delay between frames, in milliseconds.
    pub fn delay_ms(&self) -> (r: u64)
        ensures
            r == self.delay_ms_spec(),
    {
        match self.delay_ms {
            Some(d) => d,
            None => 20,
        }
    }

    /// How long to sleep after each frame: the fixed delay where one is
    /// set; a whole frame at the target rate where that is set instead,
    /// with a rate of zero meaning no sleep at all; else the default delay.
    pub open spec fn frame_delay_ms_spec(self) -> Option<u64> {
        match self.delay_ms {
            Some(d) => Some(d),
            None => match self.fps {
                Some(f) => if f == 0 {
                    None
                } else {
                    Some((1000int / f as int) as u64)
                },
                None => Some(20),
            },
        }
    }

    pub fn frame_delay_ms(&self) -> (r: Option<u64>)
        ensures
            r == self.frame_delay_ms_spec(),
    {
        match self.delay_ms {
            Some(d) => Some(d),
            None => match self.fps {
                Some(f) => if f == 0 {
                    None
                } else {
                    Some((1000 / f) as u64)
                },
                None => Some(20),
            },
        }
    }

    /// The covered fraction (over [`CHANCE_MAX`]) at which the screen
    /// resets: the default half unless set, and nothing at all when set to
    /// zero, which disables resets by coverage.
    pub open spec fn reset_threshold_spec(self) -> Option<u32> {
        match self.reset_threshold {
            Some(t) => if t == 0 {
                None
            } else {
                Some(t)
            },
            None => Some((CHANCE_MAX / 2) as u32),
        }
    }

    pub fn reset_threshold(&self) -> (r: Option<u32>)
        ensures
            r == self.reset_threshold_spec(),
    {
        match self.reset_threshold {
            Some(t) => if t == 0 {
                None
            } else {
                Some(t)
            },
            None => Some(CHANCE_MAX / 2),
        }
    }

    /// The kinds of the configured style set.
    pub open spec fn kinds_seq_spec(self) -> Seq<Kind> {
        match self.kinds {
            Some(ks) => ks.kinds_spec(),
            None => seq![Kind::Heavy],
        }
    }

    /// The configured style set, or the single default kind.
    pub fn kinds(&self) -> (r: KindSet)
        requires
            self.wf(),
        ensures
            r.wf(),
            r.kinds_spec() == self.kinds_seq_spec(),
    {
        match &self.kinds {
            Some(ks) => ks.duplicate(),
            None => KindSet::from_one(Kind::Heavy),
        }
    }

    pub open spec fn bold_spec(self) -> bool {
        match self.bold {
            Some(b) => b,
            None => true,
        }
    }

    pub fn bold(&self) -> (r: bool)
        ensures
            r == self.bold_spec(),
    {
        match self.bold {
            Some(b) => b,
            None => true,
        }
    }

    pub open spec fn inherit_style_spec(self) -> bool {
        match self.inherit_style {
            Some(b) => b,
            None => false,
        }
    }

    pub fn inherit_style(&self) -> (r: bool)
        ensures
            r == self.inherit_style_spec(),
    {
        match self.inherit_style {
            Some(b) => b,
            None => false,
        }
    }

    pub open spec fn num_pipes_spec(self) -> u32 {
        match self.num_pipes {
            Some(n) => n,
            None => 1,
        }
    }

    pub fn num_pipes(&self) -> (r: u32)
        ensures
            r == self.num_pipes_spec(),
    {
        match self.num_pipes {
            Some(n) => n,
            None => 1,
        }
    }

    pub open spec fn turn_chance_spec(self) -> u32 {
        match self.turn_chance {
            Some(t) => t,
            None => 1500,
        }
    }

    /// The chance of a quarter turn per tick, over [`CHANCE_MAX`]; the
    /// default is a fifteen-percent chance.
    pub fn turn_chance(&self) -> (r: u32)
        ensures
            r == self.turn_chance_spec(),
    {
        match self.turn_chance {
            Some(t) => t,
            None => 1500,
        }
    }

    /// A validated configuration's turn chance is a usable probability.
    pub proof fn lemma_validated_fractions(self)
        requires
            self.validate_spec() is Ok,
        ensures
            self.turn_chance_spec() <= CHANCE_MAX,
            self.reset_threshold_spec() matches Some(t) ==> t <= CHANCE_MAX,
    {
    }

    /// This configuration with every field that `other` sets overridden by
    /// `other`'s value, as when command-line flags override a config file.
    pub fn combine(self, other: Config) -> (r: Config)
        ensures
            r.color_mode == (if other.color_mode is Some {
                other.color_mode
            } else {
                self.color_mode
            }),
            r.palette == (if other.palette is Some {
                other.palette
            } else {
                self.palette
            }),
            r.rainbow == (if other.rainbow is Some {
                other.rainbow
            } else {
                self.rainbow
            }),
            r.delay_ms == (if other.delay_ms is Some {
                other.delay_ms
            } else {
                self.delay_ms
            }),
            r.fps == (if other.fps is Some {
                other.fps
            } else {
                self.fps
            }),
            r.reset_threshold == (if other.reset_threshold is Some {
                other.reset_threshold
            } else {
                self.reset_threshold
            }),
            (match (other.kinds, self.kinds) {
                (Some(ks), _) => r.kinds matches Some(rk) && rk.kinds_spec() == ks.kinds_spec(),
                (None, Some(ks)) => r.kinds matches Some(rk) && rk.kinds_spec() == ks.kinds_spec(),
                (None, None) => r.kinds is None,
            }),
            r.bold == (if other.bold is Some {
                other.bold
            } else {
                self.bold
            }),
            r.inherit_style == (if other.inherit_style is Some {
                other.inherit_style
            } else {
                self.inherit_style
            }),
            r.num_pipes == (if other.num_pipes is Some {
                other.num_pipes
            } else {
                self.num_pipes
            }),
            r.turn_chance == (if other.turn_chance is Some {
                other.turn_chance
            } else {
                self.turn_chance
            }),
            self.wf() && other.wf() ==> r.wf(),
    {
        let kinds: Option<KindSet> = match (other.kinds, self.kinds) {
            (Some(ks), _) => Some(ks),
            (None, Some(ks)) => Some(ks),
            (None, None) => None,
        };
        Config {
            color_mode: or_option(other.color_mode, self.color_mode),
            palette: or_option(other.palette, self.palette),
            rainbow: or_option(other.rainbow, self.rainbow),
            delay_ms: or_option(other.delay_ms, self.delay_ms),
            fps: or_option(other.fps, self.fps),
            reset_threshold: or_option(other.reset_threshold, self.reset_threshold),
            kinds,
            bold: or_option(other.bold, self.bold),
            inherit_style: or_option(other.inherit_style, self.inherit_style),
            num_pipes: or_option(other.num_pipes, self.num_pipes),
            turn_chance: or_option(other.turn_chance, self.turn_chance),
        }
    }
}

/// The first option when it is set, else the second.
fn or_option<T: Copy>(first: Option<T>, second: Option<T>) -> (r: Option<T>)
    ensures
        r == (if first is Some {
            first
        } else {
            second
        }),
{
    match first {
        Some(v) => Some(v),
        None => second,
    }
}

} // verus!
