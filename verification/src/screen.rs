//! Screen coverage tracker: a dense boolean grid over the visible character
//! cells, with a running count of covered cells so the covered fraction is
//! available without a scan. The count always equals the number of set
//! cells; marking an already-covered cell changes nothing.

use vstd::prelude::*;

verus! {

/// How many cells of `s` are covered.
pub open spec fn count_true(s: Seq<bool>) -> int
    decreases s.len(),
{
    if s.len() == 0 {
        0
    } else {
        count_true(s.drop_last()) + if s.last() {
            1int
        } else {
            0int
        }
    }
}

/// The covered count never exceeds the number of cells.
pub proof fn lemma_count_true_bounds(s: Seq<bool>)
    ensures
        0 <= count_true(s) <= s.len(),
    decreases s.len(),
{
    if s.len() > 0 {
        lemma_count_true_bounds(s.drop_last());
    }
}

/// Overwriting one cell moves the covered count by the difference between
/// the new and the old value of that cell.
pub proof fn lemma_count_true_update(s: Seq<bool>, i: int, v: bool)
    requires
        0 <= i < s.len(),
    ensures
        count_true(s.update(i, v)) == count_true(s) - (if s[i] {
            1int
        } else {
            0int
        }) + (if v {
            1int
        } else {
            0int
        }),
    decreases s.len(),
{
    let t = s.update(i, v);
    if i == s.len() - 1 {
        assert(t.drop_last() =~= s.drop_last());
    } else {
        assert(t.drop_last() =~= s.drop_last().update(i, v));
        lemma_count_true_update(s.drop_last(), i, v);
    }
}

/// A sequence of uncovered cells counts zero.
pub proof fn lemma_count_true_all_false(s: Seq<bool>)
    requires
        forall|i: int| 0 <= i < s.len() ==> !s[i],
    ensures
        count_true(s) == 0,
    decreases s.len(),
{
    if s.len() > 0 {
        lemma_count_true_all_false(s.drop_last());
    }
}

pub struct Screen {
    cells: Vec<bool>,
    cursor_x: usize,
    cursor_y: usize,
    width: usize,
    height: usize,
    num_covered: usize,
}

impl Screen {
    /// The coverage grid, row by row: cell (x, y) is entry `y * width + x`.
    pub closed spec fn cells_spec(self) -> Seq<bool> {
        self.cells@
    }

    pub closed spec fn grid_width(self) -> int {
        self.width as int
    }

    pub closed spec fn grid_height(self) -> int {
        self.height as int
    }

    pub closed spec fn cursor(self) -> (int, int) {
        (self.cursor_x as int, self.cursor_y as int)
    }

    /// Whether cell (x, y) has been covered.
    pub open spec fn covered_at(self, x: int, y: int) -> bool {
        self.cells_spec()[y * self.grid_width() + x]
    }

    /// Well-formedness: the grid holds width times height cells and the
    /// running count equals the number of covered cells.
    pub closed spec fn wf(self) -> bool {
        &&& self.cells@.len() == self.width * self.height
        &&& self.num_covered == count_true(self.cells@)
    }

    /// A well-formed grid holds exactly width times height cells, and its
    /// covered count is the number of covered cells.
    pub proof fn lemma_wf_dimensions(self)
        requires
            self.wf(),
        ensures
            self.cells_spec().len() == self.grid_width() * self.grid_height(),
    {
    }

    /// Whether the cursor points at a cell of the grid.
    pub open spec fn cursor_in_range(self) -> bool {
        &&& 0 <= self.cursor().0 < self.grid_width()
        &&& 0 <= self.cursor().1 < self.grid_height()
    }

    /// A fresh, fully uncovered grid with the cursor at the origin.
    pub fn new(width: usize, height: usize) -> (s: Screen)
        requires
            width * height <= usize::MAX,
        ensures
            s.wf(),
            s.grid_width() == width,
            s.grid_height() == height,
            s.cursor() == (0int, 0int),
            s.cells_spec().len() == width * height,
            forall|i: int| 0 <= i < s.cells_spec().len() ==> !s.cells_spec()[i],
    {
        let cells = make_uncovered_cells(width * height);
        proof {
            lemma_count_true_all_false(cells@);
        }
        Screen { cells, cursor_x: 0, cursor_y: 0, width, height, num_covered: 0 }
    }

    /// Uncovers every cell and zeroes the count; the cursor stays put.
    pub fn clear(&mut self)
        requires
            old(self).wf(),
        ensures
            final(self).wf(),
            final(self).grid_width() == old(self).grid_width(),
            final(self).grid_height() == old(self).grid_height(),
            final(self).cursor() == old(self).cursor(),
            final(self).cells_spec().len() == old(self).cells_spec().len(),
            forall|i: int| 0 <= i < final(self).cells_spec().len() ==> !final(self).cells_spec()[i],
    {
        let n = self.cells.len();
        let mut i: usize = 0;
        while i < n
            invariant
                i <= n,
                self.cells@.len() == n,
                forall|j: int| 0 <= j < i ==> !self.cells@[j],
                self.width == old(self).width,
                self.height == old(self).height,
                self.cursor_x == old(self).cursor_x,
                self.cursor_y == old(self).cursor_y,
                self.num_covered == old(self).num_covered,
            decreases n - i,
        {
            self.cells[i] = false;
            i = i + 1;
        }
        self.num_covered = 0;
        proof {
            lemma_count_true_all_false(self.cells@);
        }
    }

    /// Reallocates the grid to the new size; every cell starts uncovered and
    /// the cursor returns to the origin.
    pub fn resize(&mut self, width: usize, height: usize)
        requires
            width * height <= usize::MAX,
        ensures
            final(self).wf(),
            final(self).grid_width() == width,
            final(self).grid_height() == height,
            final(self).cursor() == (0int, 0int),
            final(self).cells_spec().len() == width * height,
            forall|i: int| 0 <= i < final(self).cells_spec().len() ==> !final(self).cells_spec()[i],
    {
        let cells = make_uncovered_cells(width * height);
        proof {
            lemma_count_true_all_false(cells@);
        }
        self.cells = cells;
        self.cursor_x = 0;
        self.cursor_y = 0;
        self.width = width;
        self.height = height;
        self.num_covered = 0;
    }

    /// Points the cursor at cell (x, y). Out-of-range coordinates are a
    /// programming defect, ruled out by the precondition.
    pub fn move_cursor_to(&mut self, x: usize, y: usize)
        requires
            x < old(self).grid_width(),
            y < old(self).grid_height(),
        ensures
            final(self).cursor() == (x as int, y as int),
            final(self).cells_spec() == old(self).cells_spec(),
            final(self).grid_width() == old(self).grid_width(),
            final(self).grid_height() == old(self).grid_height(),
            final(self).wf() == old(self).wf(),
            final(self).cursor_in_range(),
    {
        self.cursor_x = x;
        self.cursor_y = y;
    }

    /// Marks the cell under the cursor as covered. Marking a cell that is
    /// already covered changes nothing, so the count never double-counts.
    pub fn print(&mut self)
        requires
            old(self).wf(),
            old(self).cursor_in_range(),
        ensures
            final(self).wf(),
            final(self).grid_width() == old(self).grid_width(),
            final(self).grid_height() == old(self).grid_height(),
            final(self).cursor() == old(self).cursor(),
            final(self).cells_spec() == old(self).cells_spec().update(
                old(self).cursor().1 * old(self).grid_width() + old(self).cursor().0,
                true,
            ),
            old(self).covered_at(old(self).cursor().0, old(self).cursor().1) ==> final(self).cells_spec()
                == old(self).cells_spec(),
    {
        let n = self.cells.len();
        proof {
            lemma_cell_index_in_range(
                self.cursor_x as int,
                self.cursor_y as int,
                self.width as int,
                self.height as int,
            );
            assert(n == self.width * self.height);
        }
        let idx = self.cursor_y * self.width + self.cursor_x;
        if !self.cells[idx] {
            proof {
                lemma_count_true_update(self.cells@, idx as int, true);
                lemma_count_true_bounds(self.cells@.update(idx as int, true));
            }
            self.cells[idx] = true;
            self.num_covered = self.num_covered + 1;
        } else {
            proof {
                assert(self.cells@.update(idx as int, true) =~= self.cells@);
            }
        }
    }

    /// The covered fraction as an exact pair: covered cells over total cells.
    pub fn portion_covered(&self) -> (r: (usize, usize))
        requires
            self.wf(),
        ensures
            r.0 == count_true(self.cells_spec()),
            r.1 == self.grid_width() * self.grid_height(),
    {
        (self.num_covered, self.cells.len())
    }

    /// Whether cell (x, y) has been covered.
    pub fn is_covered(&self, x: usize, y: usize) -> (r: bool)
        requires
            self.wf(),
            x < self.grid_width(),
            y < self.grid_height(),
        ensures
            r == self.covered_at(x as int, y as int),
    {
        let n = self.cells.len();
        proof {
            lemma_cell_index_in_range(
                x as int,
                y as int,
                self.width as int,
                self.height as int,
            );
            assert(n == self.width * self.height);
        }
        self.cells[y * self.width + x]
    }
}

/// A cell inside the grid has its flat index inside the cell vector.
pub proof fn lemma_cell_index_in_range(x: int, y: int, width: int, height: int)
    requires
        0 <= x < width,
        0 <= y < height,
    ensures
        0 <= y * width + x < width * height,
{
    assert(0 <= y * width + x < width * height) by (nonlinear_arith)
        requires
            0 <= x < width,
            0 <= y < height,
    ;
}

/// Builds a vector of `n` uncovered cells.
fn make_uncovered_cells(n: usize) -> (v: Vec<bool>)
    ensures
        v@.len() == n,
        forall|i: int| 0 <= i < n ==> !v@[i],
{
    let mut v: Vec<bool> = Vec::new();
    let mut i: usize = 0;
    while i < n
        invariant
            i <= n,
            v@.len() == i,
            forall|j: int| 0 <= j < i ==> !v@[j],
        decreases n - i,
    {
        v.push(false);
        i = i + 1;
    }
    v
}

} // verus!
