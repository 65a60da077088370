//! The per-cell movement rules. Each rule has a mathematical mirror over
//! `Seq<Cell>` (`sand_rule`, `water_rule`, `cell_rule`) and an executable
//! form proved equal to it. A rule is skipped entirely when the visited
//! cell sits in the bottom row or has already settled this tick; every
//! boundary is checked before the neighbor behind it is read.

use vstd::prelude::*;

use crate::cells::{
    empty_cell, flipped_cell, settled_cell, Cell, CellState, Direction,
};
use crate::grid::{lemma_rowmajor_down, lemma_rowmajor_in_range, pos, reveal_grid, Grid};
use vstd::pervasive::VecAdditionalExecFns;

verus! {

/// One application of the sand rule at `(x, y)`: fall straight down into
/// an empty slot, else sink through water directly below (the two cells
/// trade places), else slide down-left, else down-right, else stay.
pub open spec fn sand_rule(s: Seq<Cell>, w: int, h: int, x: int, y: int) -> Seq<Cell> {
    let p = pos(w, x, y);
    let c = s[p];
    if y == h - 1 || c.is_moved {
        s
    } else {
        let d = p + w;
        if s[d] == empty_cell() {
            s.update(d, settled_cell(c)).update(p, empty_cell())
        } else if s[d].state == CellState::Water {
            s.update(d, settled_cell(c)).update(p, settled_cell(s[d]))
        } else if x > 0 && s[d - 1] == empty_cell() {
            s.update(d - 1, settled_cell(c)).update(p, empty_cell())
        } else if x < w - 1 && s[d + 1] == empty_cell() {
            s.update(d + 1, settled_cell(c)).update(p, empty_cell())
        } else {
            s
        }
    }
}

/// One application of the water rule at `(x, y)`: fall straight down,
/// else slide down-left, else down-right, else spill sideways in the
/// cell's biased direction, else flip the bias without moving.
pub open spec fn water_rule(s: Seq<Cell>, w: int, h: int, x: int, y: int) -> Seq<Cell> {
    let p = pos(w, x, y);
    let c = s[p];
    if y == h - 1 || c.is_moved {
        s
    } else {
        let d = p + w;
        if s[d] == empty_cell() {
            s.update(d, settled_cell(c)).update(p, empty_cell())
        } else if x > 0 && s[d - 1] == empty_cell() {
            s.update(d - 1, settled_cell(c)).update(p, empty_cell())
        } else if x < w - 1 && s[d + 1] == empty_cell() {
            s.update(d + 1, settled_cell(c)).update(p, empty_cell())
        } else if x > 0 && s[p - 1] == empty_cell() && c.move_direction == Direction::Left {
            s.update(p - 1, settled_cell(c)).update(p, empty_cell())
        } else if x < w - 1 && s[p + 1] == empty_cell() && c.move_direction
            == Direction::Right {
            s.update(p + 1, settled_cell(c)).update(p, empty_cell())
        } else {
            s.update(p, flipped_cell(c))
        }
    }
}

/// The rule dispatched by the visited cell's kind; empty and stone slots
/// are inert.
pub open spec fn cell_rule(s: Seq<Cell>, w: int, h: int, x: int, y: int) -> Seq<Cell> {
    match s[pos(w, x, y)].state {
        CellState::Sand => sand_rule(s, w, h, x, y),
        CellState::Water => water_rule(s, w, h, x, y),
        _ => s,
    }
}

/// `c` marked as displaced once this tick.
fn settle(c: Cell) -> (r: Cell)
    ensures
        r == settled_cell(c),
{
    Cell { is_moved: true, ..c }
}

/// `c` with its horizontal bias flipped; a neutral bias stays neutral.
fn flip(c: Cell) -> (r: Cell)
    ensures
        r == flipped_cell(c),
{
    match c.move_direction {
        Direction::Left => Cell { move_direction: Direction::Right, ..c },
        Direction::Right => Cell { move_direction: Direction::Left, ..c },
        Direction::Neutral => c,
    }
}

/// Apply the sand rule to the cell at `(x, y)`.
pub fn update_sand(x: usize, y: usize, grid: &mut Grid)
    requires
        old(grid).wf(),
        old(grid).in_bounds(x as int, y as int),
    ensures
        final(grid).wf(),
        final(grid).spec_width() == old(grid).spec_width(),
        final(grid).spec_height() == old(grid).spec_height(),
        final(grid)@ == sand_rule(
            old(grid)@,
            old(grid).spec_width(),
            old(grid).spec_height(),
            x as int,
            y as int,
        ),
{
    let w = grid.width;
    let h = grid.height;
    proof {
        vstd::std_specs::vec::axiom_spec_len(&grid.cells);
        reveal_grid(*grid);
        lemma_rowmajor_in_range(w as int, h as int, x as int, y as int);
    }
    let p: usize = y * w + x;
    if y == h - 1 || grid.cells[p].is_moved {
        return ;
    }
    proof {
        lemma_rowmajor_down(w as int, x as int, y as int);
        lemma_rowmajor_in_range(w as int, h as int, x as int, y as int + 1);
        if x as int > 0 {
            lemma_rowmajor_in_range(w as int, h as int, x as int - 1, y as int + 1);
        }
        if (x as int) < w as int - 1 {
            lemma_rowmajor_in_range(w as int, h as int, x as int + 1, y as int + 1);
        }
    }
    let d: usize = p + w;
    let e = Cell::spawn_empty();
    let c = grid.cells[p];
    if grid.cells[d] == e {
        grid.cells.set(d, settle(c));
        grid.cells.set(p, e);
    } else if grid.cells[d].state == CellState::Water {
        let under = grid.cells[d];
        grid.cells.set(d, settle(c));
        grid.cells.set(p, settle(under));
    } else if x > 0 && grid.cells[d - 1] == e {
        grid.cells.set(d - 1, settle(c));
        grid.cells.set(p, e);
    } else if x + 1 < w && grid.cells[d + 1] == e {
        grid.cells.set(d + 1, settle(c));
        grid.cells.set(p, e);
    }
    proof {
        reveal_grid(*grid);
    }
}

/// Apply the water rule to the cell at `(x, y)`.
pub fn update_water(x: usize, y: usize, grid: &mut Grid)
    requires
        old(grid).wf(),
        old(grid).in_bounds(x as int, y as int),
    ensures
        final(grid).wf(),
        final(grid).spec_width() == old(grid).spec_width(),
        final(grid).spec_height() == old(grid).spec_height(),
        final(grid)@ == water_rule(
            old(grid)@,
            old(grid).spec_width(),
            old(grid).spec_height(),
            x as int,
            y as int,
        ),
{
    let w = grid.width;
    let h = grid.height;
    proof {
        vstd::std_specs::vec::axiom_spec_len(&grid.cells);
        reveal_grid(*grid);
        lemma_rowmajor_in_range(w as int, h as int, x as int, y as int);
    }
    let p: usize = y * w + x;
    if y == h - 1 || grid.cells[p].is_moved {
        return ;
    }
    proof {
        lemma_rowmajor_down(w as int, x as int, y as int);
        lemma_rowmajor_in_range(w as int, h as int, x as int, y as int + 1);
        if x as int > 0 {
            lemma_rowmajor_in_range(w as int, h as int, x as int - 1, y as int + 1);
        }
        if (x as int) < w as int - 1 {
            lemma_rowmajor_in_range(w as int, h as int, x as int + 1, y as int);
            lemma_rowmajor_in_range(w as int, h as int, x as int + 1, y as int + 1);
        }
    }
    let d: usize = p + w;
    let e = Cell::spawn_empty();
    let c = grid.cells[p];
    if grid.cells[d] == e {
        grid.cells.set(d, settle(c));
        grid.cells.set(p, e);
    } else if x > 0 && grid.cells[d - 1] == e {
        grid.cells.set(d - 1, settle(c));
        grid.cells.set(p, e);
    } else if x + 1 < w && grid.cells[d + 1] == e {
        grid.cells.set(d + 1, settle(c));
        grid.cells.set(p, e);
    } else if x > 0 && grid.cells[p - 1] == e && matches!(c.move_direction, Direction::Left) {
        grid.cells.set(p - 1, settle(c));
        grid.cells.set(p, e);
    } else if x + 1 < w && grid.cells[p + 1] == e && matches!(
        c.move_direction,
        Direction::Right,
    ) {
        grid.cells.set(p + 1, settle(c));
        grid.cells.set(p, e);
    } else {
        grid.cells.set(p, flip(c));
    }
    proof {
        reveal_grid(*grid);
    }
}

/// Apply the rule that the kind of the cell at `(x, y)` selects.
pub fn update_cell(x: usize, y: usize, grid: &mut Grid)
    requires
        old(grid).wf(),
        old(grid).in_bounds(x as int, y as int),
    ensures
        final(grid).wf(),
        final(grid).spec_width() == old(grid).spec_width(),
        final(grid).spec_height() == old(grid).spec_height(),
        final(grid)@ == cell_rule(
            old(grid)@,
            old(grid).spec_width(),
            old(grid).spec_height(),
            x as int,
            y as int,
        ),
{
    proof {
        vstd::std_specs::vec::axiom_spec_len(&grid.cells);
        reveal_grid(*grid);
        lemma_rowmajor_in_range(
            grid.spec_width(),
            grid.spec_height(),
            x as int,
            y as int,
        );
    }
    let p: usize = y * grid.width + x;
    match grid.cells[p].state {
        CellState::Sand => update_sand(x, y, grid),
        CellState::Water => update_water(x, y, grid),
        _ => {},
    }
    proof {
        reveal_grid(*grid);
    }
}

} // verus!
