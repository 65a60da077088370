//! One simulation tick. The scan visits rows from the bottom of the grid
//! upward and, within a row, columns left to right; a second pass then
//! clears every settled flag so the next tick starts fresh. The whole
//! tick is mirrored by the spec function `step_spec`.

use vstd::prelude::*;

use crate::cell_updates::{cell_rule, update_cell};
use crate::cells::{cleared_cell, Cell};
use crate::grid::{reveal_grid, Grid};
use vstd::pervasive::VecAdditionalExecFns;

verus! {

/// The scan's remaining work within row `y`: the rule applied at columns
/// `x, x + 1, ..., w - 1` in order.
pub open spec fn scan_row(s: Seq<Cell>, w: int, h: int, y: int, x: int) -> Seq<Cell>
    decreases w - x,
{
    if x < 0 || x >= w {
        s
    } else {
        scan_row(cell_rule(s, w, h, x, y), w, h, y, x + 1)
    }
}

/// The scan's remaining work: rows `y, y - 1, ..., 0` in order, each
/// swept left to right.
pub open spec fn scan_rows(s: Seq<Cell>, w: int, h: int, y: int) -> Seq<Cell>
    decreases y + 1,
{
    if y < 0 {
        s
    } else {
        scan_rows(scan_row(s, w, h, y, 0), w, h, y - 1)
    }
}

/// One full scan of a `w` by `h` grid, bottom row first.
pub open spec fn scan_grid(s: Seq<Cell>, w: int, h: int) -> Seq<Cell> {
    scan_rows(s, w, h, h - 1)
}

/// Every settled flag cleared, everything else kept.
pub open spec fn clear_flags(s: Seq<Cell>) -> Seq<Cell> {
    Seq::new(s.len(), |q: int| cleared_cell(s[q]))
}

/// One full tick: the scan, then the end-of-tick flag reset.
pub open spec fn step_spec(s: Seq<Cell>, w: int, h: int) -> Seq<Cell> {
    clear_flags(scan_grid(s, w, h))
}

/// `n` full ticks in a row.
pub open spec fn step_n(s: Seq<Cell>, w: int, h: int, n: nat) -> Seq<Cell>
    decreases n,
{
    if n == 0 {
        s
    } else {
        step_spec(step_n(s, w, h, (n - 1) as nat), w, h)
    }
}

impl Grid {
    /// One scan pass: apply the per-cell rule to every cell, visiting the
    /// bottom row first and each row left to right. Cells moved by the
    /// scan keep their settled flag until `reset_moved` runs.
    pub fn scan(&mut self)
        requires
            old(self).wf(),
        ensures
            final(self).wf(),
            final(self).spec_width() == old(self).spec_width(),
            final(self).spec_height() == old(self).spec_height(),
            final(self)@ == scan_grid(
                old(self)@,
                old(self).spec_width(),
                old(self).spec_height(),
            ),
    {
        let w = self.width;
        let h = self.height;
        let ghost orig = self@;
        proof {
            reveal_grid(*self);
        }
        let mut y: usize = h;
        while y > 0
            invariant
                self.wf(),
                self.spec_width() == w as int,
                self.spec_height() == h as int,
                y <= h,
                scan_rows(self@, w as int, h as int, y as int - 1) == scan_grid(
                    orig,
                    w as int,
                    h as int,
                ),
            decreases y,
        {
            y = y - 1;
            proof {
                assert(scan_rows(self@, w as int, h as int, y as int) == scan_rows(
                    scan_row(self@, w as int, h as int, y as int, 0),
                    w as int,
                    h as int,
                    y as int - 1,
                ));
            }
            let mut x: usize = 0;
            while x < w
                invariant
                    self.wf(),
                    self.spec_width() == w as int,
                    self.spec_height() == h as int,
                    x <= w,
                    y < h,
                    scan_rows(
                        scan_row(self@, w as int, h as int, y as int, x as int),
                        w as int,
                        h as int,
                        y as int - 1,
                    ) == scan_grid(orig, w as int, h as int),
                decreases w - x,
            {
                let ghost before = self@;
                update_cell(x, y, self);
                proof {
                    assert(scan_row(before, w as int, h as int, y as int, x as int)
                        == scan_row(self@, w as int, h as int, y as int, x as int + 1));
                }
                x = x + 1;
            }
            proof {
                assert(scan_row(self@, w as int, h as int, y as int, w as int) == self@);
            }
        }
        proof {
            assert(scan_rows(self@, w as int, h as int, -1) == self@);
        }
    }

    /// Clear every settled flag; runs once per tick, after the scan.
    pub fn reset_moved(&mut self)
        requires
            old(self).wf(),
        ensures
            final(self).wf(),
            final(self).spec_width() == old(self).spec_width(),
            final(self).spec_height() == old(self).spec_height(),
            final(self)@ == clear_flags(old(self)@),
    {
        let ghost orig = self@;
        proof {
            reveal_grid(*self);
        }
        let n = self.cells.len();
        let mut i: usize = 0;
        while i < n
            invariant
                i <= n,
                self.cells@.len() == n,
                self.width == old(self).width,
                self.height == old(self).height,
                orig.len() == n,
                forall|q: int| 0 <= q < i ==> self.cells@[q] == cleared_cell(orig[q]),
                forall|q: int| i <= q < n ==> self.cells@[q] == orig[q],
            decreases n - i,
        {
            let mut c = self.cells[i];
            c.is_moved = false;
            self.cells.set(i, c);
            i = i + 1;
        }
        proof {
            reveal_grid(*self);
            assert(self@ =~= clear_flags(orig));
        }
    }

    /// One full tick: scan every cell as in `scan`, then clear the
    /// settled flags so the next tick can move every cell again.
    pub fn step(&mut self)
        requires
            old(self).wf(),
        ensures
            final(self).wf(),
            final(self).spec_width() == old(self).spec_width(),
            final(self).spec_height() == old(self).spec_height(),
            final(self)@ == step_spec(
                old(self)@,
                old(self).spec_width(),
                old(self).spec_height(),
            ),
    {
        self.scan();
        self.reset_moved();
    }
}

} // verus!
