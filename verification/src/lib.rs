//! Animated terminal "pipes" screensaver core: direction state machine,
//! glyph tables, pipe entities, screen-coverage tracking and the per-frame
//! simulation loop, all with verified contracts. The pseudo-random
//! generator and glyph width measurement are outside calls trusted at
//! their contracts; terminal I/O, configuration loading and color-space
//! conversion stay at the rendering edge outside the library.

pub mod rng;
pub mod direction;
pub mod position;
pub mod screen;
pub mod kind;
pub mod terminal;
pub mod color;
pub mod pipe;
pub mod config;
pub mod app;
