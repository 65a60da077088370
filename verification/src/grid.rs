//! The grid: a fixed-size row-major rectangle of cells with bounds-checked
//! access, whole-grid fill and clear, the paint brush, and the per-cell
//! display color.

use vstd::prelude::*;

use crate::cells::{empty_cell, Cell, Rgba};
use vstd::pervasive::VecAdditionalExecFns;

verus! {

/// The one failure a grid access can meet.
#[derive(Copy, Clone, Debug, PartialEq, Eq, Structural)]
pub enum GridError {
    OutOfBounds,
}

/// Flat index of column `x`, row `y` in a row-major grid `w` cells wide.
pub open spec fn pos(w: int, x: int, y: int) -> int {
    y * w + x
}

/// Row-major flat indices stay inside a `w` by `h` rectangle.
pub proof fn lemma_rowmajor_in_range(w: int, h: int, x: int, y: int)
    by (nonlinear_arith)
    requires
        0 <= x < w,
        0 <= y < h,
    ensures
        0 <= y * w + x < w * h,
{
}

/// Distinct coordinates have distinct row-major flat indices.
pub proof fn lemma_rowmajor_distinct(w: int, x1: int, y1: int, x2: int, y2: int)
    by (nonlinear_arith)
    requires
        0 <= x1 < w,
        0 <= x2 < w,
        !(x1 == x2 && y1 == y2),
    ensures
        y1 * w + x1 != y2 * w + x2,
{
}

/// Stepping one row down adds one row's width to the flat index.
pub proof fn lemma_rowmajor_down(w: int, x: int, y: int)
    by (nonlinear_arith)
    ensures
        (y + 1) * w + x == y * w + x + w,
{
}

/// A slot in an earlier row has a smaller flat index than any slot in a
/// later row.
pub proof fn lemma_rowmajor_row_lt(w: int, x1: int, y1: int, x2: int, y2: int)
    by (nonlinear_arith)
    requires
        0 <= x1 < w,
        0 <= x2 < w,
        y1 < y2,
    ensures
        y1 * w + x1 < y2 * w + x2,
{
}

/// A flat index at or past the last row's start lies in the last row.
pub proof fn lemma_rowmajor_last_row(w: int, h: int, x: int, y: int)
    by (nonlinear_arith)
    requires
        0 <= x < w,
        0 <= y < h,
        y * w + x >= (h - 1) * w,
    ensures
        y == h - 1,
{
}

/// Does `(xx, yy)` lie under the paint brush centered at `(x, y)`? The
/// brush is a small blob: the center, the three cells above, the three
/// below, and two to each side.
pub open spec fn brush_covers(x: int, y: int, xx: int, yy: int) -> bool {
    ||| (xx == x && yy == y)
    ||| (xx == x - 1 && yy == y - 1)
    ||| (xx == x && yy == y - 1)
    ||| (xx == x + 1 && yy == y - 1)
    ||| (xx == x - 2 && yy == y)
    ||| (xx == x - 1 && yy == y)
    ||| (xx == x + 1 && yy == y)
    ||| (xx == x + 2 && yy == y)
    ||| (xx == x - 1 && yy == y + 1)
    ||| (xx == x && yy == y + 1)
    ||| (xx == x + 1 && yy == y + 1)
}

/// A fixed `width` by `height` rectangle of cells, row-major, allocated
/// once and mutated in place.
pub struct Grid {
    pub(crate) width: usize,
    pub(crate) height: usize,
    pub(crate) cells: Vec<Cell>,
}

impl View for Grid {
    type V = Seq<Cell>;

    closed spec fn view(&self) -> Seq<Cell> {
        self.cells@
    }
}

/// Within the crate: the view is the stored cell vector and the spec
/// dimensions are the stored fields.
pub(crate) proof fn reveal_grid(g: Grid)
    ensures
        g@ == g.cells@,
        g.spec_width() == g.width as int,
        g.spec_height() == g.height as int,
{
}

impl Grid {
    pub closed spec fn spec_width(&self) -> int {
        self.width as int
    }

    pub closed spec fn spec_height(&self) -> int {
        self.height as int
    }

    /// The stored cells fill the rectangle exactly.
    pub open spec fn wf(&self) -> bool {
        self@.len() == self.spec_width() * self.spec_height()
    }

    /// The cell at column `x`, row `y`.
    pub open spec fn cell_at(&self, x: int, y: int) -> Cell {
        self@[pos(self.spec_width(), x, y)]
    }

    /// Is `(x, y)` inside the rectangle?
    pub open spec fn in_bounds(&self, x: int, y: int) -> bool {
        0 <= x < self.spec_width() && 0 <= y < self.spec_height()
    }

    /// A `width` by `height` grid, every slot empty.
    pub fn new(width: usize, height: usize) -> (g: Grid)
        requires
            width * height <= usize::MAX,
        ensures
            g.wf(),
            g.spec_width() == width,
            g.spec_height() == height,
            forall|q: int| 0 <= q < g@.len() ==> g@[q] == empty_cell(),
    {
        let n: usize = width * height;
        let mut cells: Vec<Cell> = Vec::new();
        let mut i: usize = 0;
        while i < n
            invariant
                i <= n,
                cells@.len() == i,
                forall|q: int| 0 <= q < i ==> cells@[q] == empty_cell(),
            decreases n - i,
        {
            cells.push(Cell::spawn_empty());
            i = i + 1;
        }
        Grid { width, height, cells }
    }

    /// The grid's width in cells.
    pub fn width(&self) -> (w: usize)
        ensures
            w == self.spec_width(),
    {
        self.width
    }

    /// The grid's height in cells.
    pub fn height(&self) -> (h: usize)
        ensures
            h == self.spec_height(),
    {
        self.height
    }

    /// The cell at `(x, y)`, or `OutOfBounds` when the coordinates fall
    /// outside the rectangle.
    pub fn get(&self, x: usize, y: usize) -> (r: Result<Cell, GridError>)
        requires
            self.wf(),
        ensures
            self.in_bounds(x as int, y as int) ==> r == Ok::<Cell, GridError>(
                self.cell_at(x as int, y as int),
            ),
            !self.in_bounds(x as int, y as int) ==> r == Err::<Cell, GridError>(
                GridError::OutOfBounds,
            ),
    {
        if x < self.width && y < self.height {
            proof {
                lemma_rowmajor_in_range(
                    self.spec_width(),
                    self.spec_height(),
                    x as int,
                    y as int,
                );
                vstd::std_specs::vec::axiom_spec_len(&self.cells);
            }
            Ok(self.cells[y * self.width + x])
        } else {
            Err(GridError::OutOfBounds)
        }
    }

    /// Overwrite the cell at `(x, y)`, or fail with `OutOfBounds` leaving
    /// the grid unchanged.
    pub fn set(&mut self, x: usize, y: usize, cell: Cell) -> (r: Result<(), GridError>)
        requires
            old(self).wf(),
        ensures
            final(self).wf(),
            final(self).spec_width() == old(self).spec_width(),
            final(self).spec_height() == old(self).spec_height(),
            old(self).in_bounds(x as int, y as int) ==> r == Ok::<(), GridError>(())
                && final(self)@ == old(self)@.update(
                pos(old(self).spec_width(), x as int, y as int),
                cell,
            ),
            !old(self).in_bounds(x as int, y as int) ==> r == Err::<(), GridError>(
                GridError::OutOfBounds,
            ) && final(self)@ == old(self)@,
    {
        if x < self.width && y < self.height {
            proof {
                lemma_rowmajor_in_range(
                    self.spec_width(),
                    self.spec_height(),
                    x as int,
                    y as int,
                );
                vstd::std_specs::vec::axiom_spec_len(&self.cells);
            }
            self.cells.set(y * self.width + x, cell);
            Ok(())
        } else {
            Err(GridError::OutOfBounds)
        }
    }

    /// Set every slot to `cell`.
    pub fn fill(&mut self, cell: Cell)
        requires
            old(self).wf(),
        ensures
            final(self).wf(),
            final(self).spec_width() == old(self).spec_width(),
            final(self).spec_height() == old(self).spec_height(),
            final(self)@.len() == old(self)@.len(),
            forall|q: int| 0 <= q < final(self)@.len() ==> final(self)@[q] == cell,
    {
        let n = self.cells.len();
        let mut i: usize = 0;
        while i < n
            invariant
                i <= n,
                self.cells@.len() == n,
                self.width == old(self).width,
                self.height == old(self).height,
                forall|q: int| 0 <= q < i ==> self.cells@[q] == cell,
            decreases n - i,
        {
            self.cells.set(i, cell);
            i = i + 1;
        }
    }

    /// Reset every slot to the canonical empty cell.
    pub fn clear(&mut self)
        requires
            old(self).wf(),
        ensures
            final(self).wf(),
            final(self).spec_width() == old(self).spec_width(),
            final(self).spec_height() == old(self).spec_height(),
            final(self)@.len() == old(self)@.len(),
            forall|q: int| 0 <= q < final(self)@.len() ==> final(self)@[q] == empty_cell(),
    {
        let e = Cell::spawn_empty();
        self.fill(e);
    }

    /// Paint `cell` at `(x, y)` when that lies inside the rectangle;
    /// out-of-range coordinates are ignored.
    fn paint_at(&mut self, x: usize, y: usize, cell: Cell)
        requires
            old(self).wf(),
        ensures
            final(self).wf(),
            final(self).spec_width() == old(self).spec_width(),
            final(self).spec_height() == old(self).spec_height(),
            forall|xx: int, yy: int|
                old(self).in_bounds(xx, yy) ==> final(self).cell_at(xx, yy) == (if xx
                    == x as int && yy == y as int {
                    cell
                } else {
                    old(self).cell_at(xx, yy)
                }),
    {
        let ghost w = self.spec_width();
        let ghost h = self.spec_height();
        let r = self.set(x, y, cell);
        proof {
            if (x as int) < w && (y as int) < h {
                lemma_rowmajor_in_range(w, h, x as int, y as int);
                assert forall|xx: int, yy: int|
                    0 <= xx < w && 0 <= yy < h && !(xx == x as int && yy
                        == y as int) implies self.cell_at(xx, yy) == old(self).cell_at(
                    xx,
                    yy,
                ) by {
                    lemma_rowmajor_in_range(w, h, xx, yy);
                    lemma_rowmajor_distinct(w, xx, yy, x as int, y as int);
                }
            }
        }
    }

    /// Paint a small blob of `cell` centered at `(x, y)`: the center, the
    /// three cells above, two to each side, and the three below. Covered
    /// coordinates that fall outside the grid are silently skipped, so
    /// painting at the edge clips instead of failing.
    pub fn apply_brush(&mut self, x: usize, y: usize, cell: Cell)
        requires
            old(self).wf(),
        ensures
            final(self).wf(),
            final(self).spec_width() == old(self).spec_width(),
            final(self).spec_height() == old(self).spec_height(),
            forall|xx: int, yy: int|
                old(self).in_bounds(xx, yy) ==> final(self).cell_at(xx, yy) == (if brush_covers(
                    x as int,
                    y as int,
                    xx,
                    yy,
                ) {
                    cell
                } else {
                    old(self).cell_at(xx, yy)
                }),
    {
        if x >= 1 && y >= 1 {
            self.paint_at(x - 1, y - 1, cell);
        }
        if y >= 1 {
            self.paint_at(x, y - 1, cell);
        }
        if y >= 1 && x < usize::MAX {
            self.paint_at(x + 1, y - 1, cell);
        }
        if x >= 2 {
            self.paint_at(x - 2, y, cell);
        }
        if x >= 1 {
            self.paint_at(x - 1, y, cell);
        }
        self.paint_at(x, y, cell);
        if x < usize::MAX {
            self.paint_at(x + 1, y, cell);
        }
        if x < usize::MAX - 1 {
            self.paint_at(x + 2, y, cell);
        }
        if x >= 1 && y < usize::MAX {
            self.paint_at(x - 1, y + 1, cell);
        }
        if y < usize::MAX {
            self.paint_at(x, y + 1, cell);
        }
        if x < usize::MAX && y < usize::MAX {
            self.paint_at(x + 1, y + 1, cell);
        }
    }

    /// The display color of the cell at `(x, y)`, or `OutOfBounds`.
    pub fn cell_color(&self, x: usize, y: usize) -> (r: Result<Rgba, GridError>)
        requires
            self.wf(),
        ensures
            self.in_bounds(x as int, y as int) ==> r == Ok::<Rgba, GridError>(
                self.cell_at(x as int, y as int).color,
            ),
            !self.in_bounds(x as int, y as int) ==> r == Err::<Rgba, GridError>(
                GridError::OutOfBounds,
            ),
    {
        match self.get(x, y) {
            Ok(c) => Ok(c.color),
            Err(e) => Err(e),
        }
    }
}

} // verus!
