//! The core's model of the terminal: the grid of logical cells pipes move
//! on, scaled down from raw terminal columns by the widest glyph in use,
//! together with the coverage tracker. The raw escape-sequence I/O lives
//! outside the library; this type accounts for everything the simulation
//! needs to know about the screen.

use vstd::prelude::*;

use crate::kind::{custom_widths_spec, kinds_chars_spec, seq_max_u16_spec, KindSet};
use crate::screen::Screen;

verus! {

/// A text color: one of twelve named terminal colors, or an exact
/// red-green-blue triple.
#[derive(Clone, Copy, PartialEq, Eq, Structural, Debug)]
pub enum Color {
    Red,
    DarkRed,
    Green,
    DarkGreen,
    Yellow,
    DarkYellow,
    Blue,
    DarkBlue,
    Magenta,
    DarkMagenta,
    Cyan,
    DarkCyan,
    Rgb { r: u8, g: u8, b: u8 },
}

/// An input event the simulation reacts to. A terminal resize is reported
/// as a reset after the grid has been resized.
#[derive(Clone, Copy, PartialEq, Eq, Structural, Debug)]
pub enum Event {
    Exit,
    Reset,
}

/// Names what `unicode_width::UnicodeWidthChar::width` returns for a
/// character: its displayed width in columns, or `None` for a control
/// character.
pub uninterp spec fn char_width_of(c: char) -> Option<usize>;

/// Relies on `unicode_width::UnicodeWidthChar::width`: a table lookup whose
/// result depends on the character alone.
#[verifier::external_body]
fn char_display_width(c: char) -> (r: Option<usize>)
    ensures
        r == char_width_of(c),
{
    unicode_width::UnicodeWidthChar::width(c)
}

/// The measured width of a character, counting control characters as zero.
pub open spec fn width_or_zero(c: char) -> int {
    match char_width_of(c) {
        Some(w) => w as int,
        None => 0,
    }
}

/// The widest measured width among `s`, zero when `s` is empty.
pub open spec fn chars_max_width(s: Seq<char>) -> int
    decreases s.len(),
{
    if s.len() == 0 {
        0
    } else {
        let m = chars_max_width(s.drop_last());
        if width_or_zero(s.last()) > m {
            width_or_zero(s.last())
        } else {
            m
        }
    }
}

/// The widest of the measured widths and the custom override, if one is set.
pub open spec fn combined_max_width(s: Seq<char>, custom: Option<u16>) -> int {
    let m = chars_max_width(s);
    match custom {
        Some(w) => if w as int > m {
            w as int
        } else {
            m
        },
        None => m,
    }
}

/// `n` held to the range of a `u16`.
pub open spec fn clamp_u16(n: int) -> int {
    if n > u16::MAX as int {
        u16::MAX as int
    } else {
        n
    }
}

pub struct Terminal {
    screen: Screen,
    max_char_width: u16,
    size: (u16, u16),
}

impl Terminal {
    /// The grid size in logical cells: raw columns divided by the widest
    /// glyph display width, and raw rows.
    pub closed spec fn size_spec(self) -> (u16, u16) {
        self.size
    }

    /// The display width every logical cell is scaled by.
    pub closed spec fn max_char_width_spec(self) -> u16 {
        self.max_char_width
    }

    /// The coverage tracker over the logical grid.
    pub closed spec fn screen_spec(self) -> Screen {
        self.screen
    }

    /// Well-formedness: a positive cell width, a coverage grid that matches
    /// the logical size, and physical columns that stay representable.
    pub open spec fn wf(self) -> bool {
        &&& self.max_char_width_spec() >= 1
        &&& self.screen_spec().wf()
        &&& self.screen_spec().grid_width() == self.size_spec().0 as int
        &&& self.screen_spec().grid_height() == self.size_spec().1 as int
        &&& self.size_spec().0 as int * self.max_char_width_spec() as int <= u16::MAX as int
    }

    /// The widest display width over the given glyphs and the optional
    /// custom override, held to the range of a `u16`.
    pub fn determine_max_char_width(chars: &Vec<char>, custom_width: Option<u16>) -> (r: u16)
        ensures
            r as int == clamp_u16(combined_max_width(chars@, custom_width)),
    {
        let n = chars.len();
        let mut m: usize = 0;
        let mut i: usize = 0;
        while i < n
            invariant
                i <= n,
                n == chars@.len(),
                m == chars_max_width(chars@.subrange(0, i as int)),
            decreases n - i,
        {
            proof {
                assert(chars@.subrange(0, i as int + 1).drop_last() =~= chars@.subrange(
                    0,
                    i as int,
                ));
            }
            let w: usize = match char_display_width(chars[i]) {
                Some(w) => w,
                None => 0,
            };
            if w > m {
                m = w;
            }
            i = i + 1;
        }
        proof {
            assert(chars@.subrange(0, n as int) =~= chars@);
        }
        let combined: usize = match custom_width {
            Some(w) => if w as usize > m {
                w as usize
            } else {
                m
            },
            None => m,
        };
        if combined > u16::MAX as usize {
            u16::MAX
        } else {
            combined as u16
        }
    }

    /// A terminal model over a raw character grid of `columns` by `rows`,
    /// scaled by a known glyph width.
    pub fn new(columns: u16, rows: u16, max_char_width: u16) -> (t: Terminal)
        requires
            max_char_width >= 1,
        ensures
            t.wf(),
            t.max_char_width_spec() == max_char_width,
            t.size_spec() == (columns / max_char_width, rows),
            t.screen_spec().cells_spec().len() == t.size_spec().0 as int * t.size_spec().1 as int,
            forall|i: int|
                0 <= i < t.screen_spec().cells_spec().len() ==> !t.screen_spec().cells_spec()[i],
    {
        let grid_w = columns / max_char_width;
        proof {
            assert(grid_w as int * max_char_width as int <= columns as int) by (nonlinear_arith)
                requires
                    max_char_width >= 1,
                    grid_w == columns as int / max_char_width as int,
                    0 <= columns <= u16::MAX,
            ;
            assert(grid_w as int * rows as int <= u16::MAX as int * u16::MAX as int)
                by (nonlinear_arith)
                requires
                    0 <= grid_w <= u16::MAX,
                    0 <= rows <= u16::MAX,
            ;
        }
        let screen = Screen::new(grid_w as usize, rows as usize);
        Terminal { screen, max_char_width, size: (grid_w, rows) }
    }

    /// Builds the model for a style set: measures every glyph the set can
    /// draw, applies the set's custom width override, and scales the grid by
    /// the result. Returns nothing when every glyph measures zero wide.
    pub fn for_kind_set(columns: u16, rows: u16, kinds: &KindSet) -> (r: Option<Terminal>)
        ensures
            ({
                let w = clamp_u16(
                    combined_max_width(
                        kinds_chars_spec(kinds.kinds_spec()),
                        seq_max_u16_spec(custom_widths_spec(kinds.kinds_spec())),
                    ),
                );
                match r {
                    Some(t) => w >= 1 && t.wf() && t.max_char_width_spec() == w
                        && t.size_spec() == (columns as u16 / w as u16, rows) && forall|i: int|
                        0 <= i < t.screen_spec().cells_spec().len()
                            ==> !t.screen_spec().cells_spec()[i],
                    None => w == 0,
                }
            }),
    {
        let chars = kinds.chars();
        let custom = kinds.max_custom_width();
        let mcw = Self::determine_max_char_width(&chars, custom);
        if mcw == 0 {
            None
        } else {
            Some(Self::new(columns, rows, mcw))
        }
    }

    /// The logical grid size, in cells.
    pub fn size(&self) -> (r: (u16, u16))
        ensures
            r == self.size_spec(),
    {
        self.size
    }

    /// The display width every logical cell is scaled by.
    pub fn max_char_width(&self) -> (r: u16)
        ensures
            r == self.max_char_width_spec(),
    {
        self.max_char_width
    }

    /// Points the coverage cursor at logical cell (x, y) and returns the
    /// physical terminal column that cell starts at.
    pub fn move_cursor_to(&mut self, x: u16, y: u16) -> (phys_x: u16)
        requires
            old(self).wf(),
            x < old(self).size_spec().0,
            y < old(self).size_spec().1,
        ensures
            final(self).wf(),
            phys_x as int == x as int * old(self).max_char_width_spec() as int,
            final(self).size_spec() == old(self).size_spec(),
            final(self).max_char_width_spec() == old(self).max_char_width_spec(),
            final(self).screen_spec().cells_spec() == old(self).screen_spec().cells_spec(),
            final(self).screen_spec().cursor() == (x as int, y as int),
            final(self).screen_spec().cursor_in_range(),
    {
        proof {
            assert(x as int * self.max_char_width as int <= self.size.0 as int
                * self.max_char_width as int) by (nonlinear_arith)
                requires
                    0 <= x < self.size.0,
                    self.max_char_width >= 1,
            ;
        }
        self.screen.move_cursor_to(x as usize, y as usize);
        x * self.max_char_width
    }

    /// Records that a glyph was drawn on the cell under the cursor.
    pub fn print(&mut self, _glyph: char)
        requires
            old(self).wf(),
            old(self).screen_spec().cursor_in_range(),
        ensures
            final(self).wf(),
            final(self).size_spec() == old(self).size_spec(),
            final(self).max_char_width_spec() == old(self).max_char_width_spec(),
            final(self).screen_spec().cursor() == old(self).screen_spec().cursor(),
            final(self).screen_spec().cells_spec() == old(self).screen_spec().cells_spec().update(
                old(self).screen_spec().cursor().1 * old(self).screen_spec().grid_width()
                    + old(self).screen_spec().cursor().0,
                true,
            ),
    {
        self.screen.print();
    }

    /// The covered fraction of the grid, as covered cells over total cells.
    pub fn portion_covered(&self) -> (r: (usize, usize))
        requires
            self.wf(),
        ensures
            r.0 == crate::screen::count_true(self.screen_spec().cells_spec()),
            r.1 == self.size_spec().0 as int * self.size_spec().1 as int,
    {
        self.screen.portion_covered()
    }

    /// Uncovers the whole grid, after the backend has cleared the display.
    pub fn clear(&mut self)
        requires
            old(self).wf(),
        ensures
            final(self).wf(),
            final(self).size_spec() == old(self).size_spec(),
            final(self).max_char_width_spec() == old(self).max_char_width_spec(),
            forall|i: int|
                0 <= i < final(self).screen_spec().cells_spec().len()
                    ==> !final(self).screen_spec().cells_spec()[i],
            final(self).screen_spec().cells_spec().len()
                == old(self).screen_spec().cells_spec().len(),
    {
        self.screen.clear();
    }

    /// Rescales the grid to a new raw terminal size and uncovers it.
    pub fn resize(&mut self, columns: u16, rows: u16)
        requires
            old(self).wf(),
        ensures
            final(self).wf(),
            final(self).max_char_width_spec() == old(self).max_char_width_spec(),
            final(self).size_spec() == (columns / old(self).max_char_width_spec(), rows),
            forall|i: int|
                0 <= i < final(self).screen_spec().cells_spec().len()
                    ==> !final(self).screen_spec().cells_spec()[i],
    {
        let grid_w = columns / self.max_char_width;
        proof {
            assert(grid_w as int * self.max_char_width as int <= columns as int)
                by (nonlinear_arith)
                requires
                    self.max_char_width >= 1,
                    grid_w == columns as int / self.max_char_width as int,
                    0 <= columns <= u16::MAX,
            ;
            assert(grid_w as int * rows as int <= u16::MAX as int * u16::MAX as int)
                by (nonlinear_arith)
                requires
                    0 <= grid_w <= u16::MAX,
                    0 <= rows <= u16::MAX,
            ;
        }
        self.screen.resize(grid_w as usize, rows as usize);
        self.size = (grid_w, rows);
    }

    /// Whether the cell at logical (x, y) has been drawn on.
    pub fn is_covered(&self, x: u16, y: u16) -> (r: bool)
        requires
            self.wf(),
            x < self.size_spec().0,
            y < self.size_spec().1,
        ensures
            r == self.screen_spec().covered_at(x as int, y as int),
    {
        self.screen.is_covered(x as usize, y as usize)
    }
}

} // verus!
