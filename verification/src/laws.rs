//! Laws of the simulation, proved once and for all grids: conservation of
//! substance, bottom-row stability, the single-displacement guard,
//! gravity precedence, sand sinking through water, the trapped-water bias
//! flip, and the fixedness of scenes with nothing left to move.

use vstd::prelude::*;

use crate::cell_updates::cell_rule;
use crate::cells::{
    cleared_cell, empty_cell, flipped_cell, settled_cell, type_of, Cell, CellState, CellType,
    Direction,
};
use crate::grid::{
    lemma_rowmajor_down, lemma_rowmajor_in_range, lemma_rowmajor_last_row,
    lemma_rowmajor_row_lt, pos,
};
use crate::step::{clear_flags, scan_grid, scan_row, scan_rows, step_n, step_spec};

verus! {

/// How many cells of `s` hold kind `k`.
pub open spec fn kind_count(s: Seq<Cell>, k: CellState) -> int
    decreases s.len(),
{
    if s.len() == 0 {
        0
    } else {
        kind_count(s.drop_last(), k) + (if s.last().state == k {
            1int
        } else {
            0int
        })
    }
}

/// Updating one slot adjusts each kind's count by what left and what
/// arrived there.
proof fn lemma_kind_count_update(s: Seq<Cell>, i: int, c: Cell, k: CellState)
    requires
        0 <= i < s.len(),
    ensures
        kind_count(s.update(i, c), k) == kind_count(s, k) - (if s[i].state == k {
            1int
        } else {
            0int
        }) + (if c.state == k {
            1int
        } else {
            0int
        }),
    decreases s.len(),
{
    let t = s.update(i, c);
    if i == s.len() - 1 {
        assert(t.drop_last() =~= s.drop_last());
        assert(t.last() == c);
    } else {
        assert(t.drop_last() =~= s.drop_last().update(i, c));
        lemma_kind_count_update(s.drop_last(), i, c, k);
        assert(t.last() == s.last());
    }
}

/// Two writes that permute the kinds held at two distinct slots leave
/// every kind's count unchanged.
proof fn lemma_kind_count_move(s: Seq<Cell>, a: int, b: int, u: Cell, v: Cell, k: CellState)
    requires
        0 <= a < s.len(),
        0 <= b < s.len(),
        a != b,
        (u.state == s[a].state && v.state == s[b].state) || (u.state == s[b].state && v.state
            == s[a].state),
    ensures
        kind_count(s.update(a, u).update(b, v), k) == kind_count(s, k),
{
    lemma_kind_count_update(s, a, u, k);
    lemma_kind_count_update(s.update(a, u), b, v, k);
}

/// The neighbor flat indices the rule at `(x, y)` may touch are in range.
proof fn lemma_rule_indices(w: int, h: int, x: int, y: int)
    requires
        0 <= x < w,
        0 <= y < h,
    ensures
        0 <= pos(w, x, y) < w * h,
        y < h - 1 ==> pos(w, x, y) + w == pos(w, x, y + 1) && 0 <= pos(w, x, y + 1) < w * h,
        y < h - 1 && x > 0 ==> 0 <= pos(w, x - 1, y + 1) < w * h,
        y < h - 1 && x < w - 1 ==> 0 <= pos(w, x + 1, y + 1) < w * h,
        x > 0 ==> 0 <= pos(w, x - 1, y) < w * h,
        x < w - 1 ==> 0 <= pos(w, x + 1, y) < w * h,
{
    lemma_rowmajor_in_range(w, h, x, y);
    lemma_rowmajor_down(w, x, y);
    if y < h - 1 {
        lemma_rowmajor_in_range(w, h, x, y + 1);
        if x > 0 {
            lemma_rowmajor_in_range(w, h, x - 1, y + 1);
        }
        if x < w - 1 {
            lemma_rowmajor_in_range(w, h, x + 1, y + 1);
        }
    }
    if x > 0 {
        lemma_rowmajor_in_range(w, h, x - 1, y);
    }
    if x < w - 1 {
        lemma_rowmajor_in_range(w, h, x + 1, y);
    }
}

/// One application of the rule preserves every kind's count: each move
/// trades places with an empty slot or, for sinking sand, with the water
/// below, and a bias flip moves nothing.
proof fn lemma_rule_conserves(s: Seq<Cell>, w: int, h: int, x: int, y: int, k: CellState)
    requires
        s.len() == w * h,
        0 <= x < w,
        0 <= y < h,
    ensures
        cell_rule(s, w, h, x, y).len() == s.len(),
        kind_count(cell_rule(s, w, h, x, y), k) == kind_count(s, k),
{
    lemma_rule_indices(w, h, x, y);
    let p = pos(w, x, y);
    let c = s[p];
    if (c.state == CellState::Sand || c.state == CellState::Water) && y != h - 1
        && !c.is_moved {
        let d = p + w;
        if c.state == CellState::Sand {
            if s[d] == empty_cell() {
                lemma_kind_count_move(s, d, p, settled_cell(c), empty_cell(), k);
            } else if s[d].state == CellState::Water {
                lemma_kind_count_move(s, d, p, settled_cell(c), settled_cell(s[d]), k);
            } else if x > 0 && s[d - 1] == empty_cell() {
                lemma_kind_count_move(s, d - 1, p, settled_cell(c), empty_cell(), k);
            } else if x < w - 1 && s[d + 1] == empty_cell() {
                lemma_kind_count_move(s, d + 1, p, settled_cell(c), empty_cell(), k);
            }
        } else {
            if s[d] == empty_cell() {
                lemma_kind_count_move(s, d, p, settled_cell(c), empty_cell(), k);
            } else if x > 0 && s[d - 1] == empty_cell() {
                lemma_kind_count_move(s, d - 1, p, settled_cell(c), empty_cell(), k);
            } else if x < w - 1 && s[d + 1] == empty_cell() {
                lemma_kind_count_move(s, d + 1, p, settled_cell(c), empty_cell(), k);
            } else if x > 0 && s[p - 1] == empty_cell() && c.move_direction == Direction::Left {
                lemma_kind_count_move(s, p - 1, p, settled_cell(c), empty_cell(), k);
            } else if x < w - 1 && s[p + 1] == empty_cell() && c.move_direction
                == Direction::Right {
                lemma_kind_count_move(s, p + 1, p, settled_cell(c), empty_cell(), k);
            } else {
                lemma_kind_count_update(s, p, flipped_cell(c), k);
            }
        }
    }
}

/// A left-to-right sweep of one row preserves every kind's count.
proof fn lemma_scan_row_conserves(s: Seq<Cell>, w: int, h: int, y: int, x: int, k: CellState)
    requires
        s.len() == w * h,
        0 <= y < h,
    ensures
        scan_row(s, w, h, y, x).len() == s.len(),
        kind_count(scan_row(s, w, h, y, x), k) == kind_count(s, k),
    decreases w - x,
{
    if x < 0 || x >= w {
    } else {
        lemma_rule_conserves(s, w, h, x, y, k);
        lemma_scan_row_conserves(cell_rule(s, w, h, x, y), w, h, y, x + 1, k);
    }
}

/// Sweeping the rows from `y` down to the top preserves every kind's count.
proof fn lemma_scan_rows_conserves(s: Seq<Cell>, w: int, h: int, y: int, k: CellState)
    requires
        s.len() == w * h,
        y <= h - 1,
    ensures
        scan_rows(s, w, h, y).len() == s.len(),
        kind_count(scan_rows(s, w, h, y), k) == kind_count(s, k),
    decreases y + 1,
{
    if y < 0 {
    } else {
        lemma_scan_row_conserves(s, w, h, y, 0, k);
        lemma_scan_rows_conserves(scan_row(s, w, h, y, 0), w, h, y - 1, k);
    }
}

/// Clearing the settled flags changes no kind.
proof fn lemma_clear_flags_conserves(s: Seq<Cell>, k: CellState)
    ensures
        clear_flags(s).len() == s.len(),
        kind_count(clear_flags(s), k) == kind_count(s, k),
    decreases s.len(),
{
    if s.len() == 0 {
    } else {
        lemma_clear_flags_conserves(s.drop_last(), k);
        assert(clear_flags(s).drop_last() =~= clear_flags(s.drop_last()));
        assert(clear_flags(s).last() == cleared_cell(s.last()));
    }
}

/// Conservation: a tick neither creates nor destroys any substance. Every
/// kind — sand, water, stone, and the empty slot alike — holds exactly as
/// many cells after a step as before it; even the sand-through-water swap
/// only trades the two cells' places.
pub proof fn lemma_step_conserves_kinds(s: Seq<Cell>, w: int, h: int, k: CellState)
    requires
        s.len() == w * h,
    ensures
        step_spec(s, w, h).len() == s.len(),
        kind_count(step_spec(s, w, h), k) == kind_count(s, k),
{
    lemma_scan_rows_conserves(s, w, h, h - 1, k);
    lemma_clear_flags_conserves(scan_grid(s, w, h), k);
}

/// Bottom-row stability, first half: the rule never applies in the bottom
/// row. Visiting a bottom-row cell is a no-op whatever its kind.
pub proof fn lemma_bottom_row_rule_inert(s: Seq<Cell>, w: int, h: int, x: int)
    ensures
        cell_rule(s, w, h, x, h - 1) == s,
{
}

/// A slot no step can disturb: it holds neither an empty cell nor water
/// (so nothing ever moves in), and its cell is stone or sits in the
/// bottom row (so it never moves out).
pub open spec fn anchored(s: Seq<Cell>, w: int, h: int, q: int) -> bool {
    &&& s[q].state != CellState::Dead
    &&& s[q].state != CellState::Water
    &&& (s[q].state == CellState::Stone || q >= (h - 1) * w)
}

/// One application of the rule anywhere leaves an anchored slot unchanged.
proof fn lemma_rule_keeps_anchored(s: Seq<Cell>, w: int, h: int, x: int, y: int, q: int)
    requires
        s.len() == w * h,
        0 <= x < w,
        0 <= y < h,
        0 <= q < s.len(),
        anchored(s, w, h, q),
    ensures
        cell_rule(s, w, h, x, y).len() == s.len(),
        cell_rule(s, w, h, x, y)[q] == s[q],
{
    lemma_rule_indices(w, h, x, y);
    let p = pos(w, x, y);
    if p == q && s[q].state == CellState::Sand {
        lemma_rowmajor_last_row(w, h, x, y);
    }
}

/// A row sweep leaves an anchored slot unchanged.
proof fn lemma_scan_row_keeps_anchored(
    s: Seq<Cell>,
    w: int,
    h: int,
    y: int,
    x: int,
    q: int,
)
    requires
        s.len() == w * h,
        0 <= y < h,
        0 <= q < s.len(),
        anchored(s, w, h, q),
    ensures
        scan_row(s, w, h, y, x).len() == s.len(),
        scan_row(s, w, h, y, x)[q] == s[q],
    decreases w - x,
{
    if x < 0 || x >= w {
    } else {
        lemma_rule_keeps_anchored(s, w, h, x, y, q);
        lemma_scan_row_keeps_anchored(cell_rule(s, w, h, x, y), w, h, y, x + 1, q);
    }
}

/// The whole scan leaves an anchored slot unchanged.
proof fn lemma_scan_rows_keeps_anchored(s: Seq<Cell>, w: int, h: int, y: int, q: int)
    requires
        s.len() == w * h,
        y <= h - 1,
        0 <= q < s.len(),
        anchored(s, w, h, q),
    ensures
        scan_rows(s, w, h, y).len() == s.len(),
        scan_rows(s, w, h, y)[q] == s[q],
    decreases y + 1,
{
    if y < 0 {
    } else {
        lemma_scan_row_keeps_anchored(s, w, h, y, 0, q);
        lemma_scan_rows_keeps_anchored(scan_row(s, w, h, y, 0), w, h, y - 1, q);
    }
}

/// Bottom-row stability: a sand or stone cell in the bottom row is still
/// there after a step, changed only by the end-of-tick flag reset. (A
/// water cell in the bottom row can still trade places with sand sinking
/// from directly above, and an empty bottom slot can be filled.)
pub proof fn lemma_bottom_solid_stays(s: Seq<Cell>, w: int, h: int, x: int)
    requires
        s.len() == w * h,
        0 <= x < w,
        1 <= h,
        s[pos(w, x, h - 1)].state == CellState::Sand || s[pos(w, x, h - 1)].state
            == CellState::Stone,
    ensures
        step_spec(s, w, h)[pos(w, x, h - 1)] == cleared_cell(s[pos(w, x, h - 1)]),
{
    lemma_rowmajor_in_range(w, h, x, h - 1);
    let q = pos(w, x, h - 1);
    lemma_scan_rows_keeps_anchored(s, w, h, h - 1, q);
}

/// Stone is inert: wherever a stone cell stands, a step leaves it there,
/// changed only by the end-of-tick flag reset.
pub proof fn lemma_stone_never_moves(s: Seq<Cell>, w: int, h: int, x: int, y: int)
    requires
        s.len() == w * h,
        0 <= x < w,
        0 <= y < h,
        s[pos(w, x, y)].state == CellState::Stone,
    ensures
        step_spec(s, w, h)[pos(w, x, y)] == cleared_cell(s[pos(w, x, y)]),
{
    lemma_rowmajor_in_range(w, h, x, y);
    lemma_scan_rows_keeps_anchored(s, w, h, h - 1, pos(w, x, y));
}

/// Single displacement, first half: the rule leaves a cell that has
/// already been displaced this tick alone; visiting it changes nothing.
pub proof fn lemma_rule_skips_settled(s: Seq<Cell>, w: int, h: int, x: int, y: int)
    requires
        s[pos(w, x, y)].is_moved,
    ensures
        cell_rule(s, w, h, x, y) == s,
{
}

/// Single displacement, second half: every cell the rule writes anywhere
/// but the visited slot carries the settled flag, and only an empty slot
/// — or, under sinking sand, the water directly below — is ever written
/// over. Together with the first half: a cell the scan has moved is
/// settled at its destination and is never moved by its own rule again
/// within the same tick.
pub proof fn lemma_rule_settles_movers(s: Seq<Cell>, w: int, h: int, x: int, y: int)
    requires
        s.len() == w * h,
        0 <= x < w,
        0 <= y < h,
    ensures
        forall|q: int|
            0 <= q < s.len() && q != pos(w, x, y) && cell_rule(s, w, h, x, y)[q] != s[q]
                ==> cell_rule(s, w, h, x, y)[q].is_moved && (s[q] == empty_cell() || s[q].state
                == CellState::Water),
{
    lemma_rule_indices(w, h, x, y);
}

/// Gravity precedence: a sand or water cell with the slot directly below
/// it empty falls straight down — never diagonally, never sideways —
/// settling there and leaving an empty slot behind.
pub proof fn lemma_gravity_precedence(s: Seq<Cell>, w: int, h: int, x: int, y: int)
    requires
        s.len() == w * h,
        0 <= x < w,
        0 <= y < h - 1,
        s[pos(w, x, y)].state == CellState::Sand || s[pos(w, x, y)].state == CellState::Water,
        !s[pos(w, x, y)].is_moved,
        s[pos(w, x, y + 1)] == empty_cell(),
    ensures
        cell_rule(s, w, h, x, y) == s.update(
            pos(w, x, y + 1),
            settled_cell(s[pos(w, x, y)]),
        ).update(pos(w, x, y), empty_cell()),
{
    lemma_rule_indices(w, h, x, y);
}

/// Sand sinks through water: sand directly above water trades places with
/// it in one application of the rule — sand below, water above, both
/// settled for the rest of the tick.
pub proof fn lemma_sand_sinks_through_water(s: Seq<Cell>, w: int, h: int, x: int, y: int)
    requires
        s.len() == w * h,
        0 <= x < w,
        0 <= y < h - 1,
        s[pos(w, x, y)].state == CellState::Sand,
        !s[pos(w, x, y)].is_moved,
        s[pos(w, x, y + 1)].state == CellState::Water,
    ensures
        cell_rule(s, w, h, x, y) == s.update(
            pos(w, x, y + 1),
            settled_cell(s[pos(w, x, y)]),
        ).update(pos(w, x, y), settled_cell(s[pos(w, x, y + 1)])),
        cell_rule(s, w, h, x, y)[pos(w, x, y + 1)].state == CellState::Sand,
        cell_rule(s, w, h, x, y)[pos(w, x, y)].state == CellState::Water,
{
    lemma_rule_indices(w, h, x, y);
}

/// Trapped water flips its bias: a water cell whose five reachable
/// neighbors — below, the two diagonals below, left, and right — are all
/// solid does not move; carrying a left bias, it leaves the rule with a
/// right bias, ready to probe the other side next tick.
pub proof fn lemma_trapped_water_flips_bias(s: Seq<Cell>, w: int, h: int, x: int, y: int)
    requires
        s.len() == w * h,
        1 <= x < w - 1,
        0 <= y < h - 1,
        s[pos(w, x, y)].state == CellState::Water,
        !s[pos(w, x, y)].is_moved,
        s[pos(w, x, y)].move_direction == Direction::Left,
        type_of(s[pos(w, x, y + 1)].state) == CellType::Solid,
        type_of(s[pos(w, x - 1, y + 1)].state) == CellType::Solid,
        type_of(s[pos(w, x + 1, y + 1)].state) == CellType::Solid,
        type_of(s[pos(w, x - 1, y)].state) == CellType::Solid,
        type_of(s[pos(w, x + 1, y)].state) == CellType::Solid,
    ensures
        cell_rule(s, w, h, x, y) == s.update(pos(w, x, y), flipped_cell(s[pos(w, x, y)])),
        cell_rule(s, w, h, x, y)[pos(w, x, y)].move_direction == Direction::Right,
        cell_rule(s, w, h, x, y)[pos(w, x, y)].state == CellState::Water,
{
    lemma_rule_indices(w, h, x, y);
}

/// The slot above `(x, y)` holds no unsettled sand (or there is no row
/// above); sinking sand is the one thing that can still displace trapped
/// water during the rest of the tick.
spec fn no_unsettled_sand_above(s: Seq<Cell>, w: int, x: int, y: int) -> bool {
    y == 0 || s[pos(w, x, y - 1)].state != CellState::Sand || s[pos(w, x, y - 1)].is_moved
}

/// The trapped-water configuration at `(x, y)`: unsettled left-biased
/// water walled in by stone on the five sides its rule can reach, with no
/// unsettled sand directly above.
spec fn trapped_water_at(s: Seq<Cell>, w: int, h: int, x: int, y: int) -> bool {
    &&& s[pos(w, x, y)].state == CellState::Water
    &&& !s[pos(w, x, y)].is_moved
    &&& s[pos(w, x, y)].move_direction == Direction::Left
    &&& s[pos(w, x, y + 1)].state == CellState::Stone
    &&& s[pos(w, x - 1, y + 1)].state == CellState::Stone
    &&& s[pos(w, x + 1, y + 1)].state == CellState::Stone
    &&& s[pos(w, x - 1, y)].state == CellState::Stone
    &&& s[pos(w, x + 1, y)].state == CellState::Stone
    &&& no_unsettled_sand_above(s, w, x, y)
}

/// The rule leaves an occupied slot alone unless it is the one visited,
/// or it holds water right below unsettled sand being visited.
proof fn lemma_rule_keeps_occupied_slot(s: Seq<Cell>, w: int, h: int, xv: int, yv: int, q: int)
    requires
        s.len() == w * h,
        0 <= xv < w,
        0 <= yv < h,
        0 <= q < s.len(),
        q != pos(w, xv, yv),
        s[q] != empty_cell(),
        !(q == pos(w, xv, yv + 1) && s[pos(w, xv, yv)].state == CellState::Sand && !s[pos(
            w,
            xv,
            yv,
        )].is_moved && s[q].state == CellState::Water),
    ensures
        cell_rule(s, w, h, xv, yv).len() == s.len(),
        cell_rule(s, w, h, xv, yv)[q] == s[q],
{
    lemma_rule_indices(w, h, xv, yv);
}

/// Nothing the rule writes anywhere is unsettled sand: moved cells arrive
/// settled, vacated slots become empty, and only water flips in place.
proof fn lemma_rule_never_writes_unsettled_sand(
    s: Seq<Cell>,
    w: int,
    h: int,
    xv: int,
    yv: int,
    q: int,
)
    requires
        s.len() == w * h,
        0 <= xv < w,
        0 <= yv < h,
        0 <= q < s.len(),
        s[q].state != CellState::Sand || s[q].is_moved,
    ensures
        cell_rule(s, w, h, xv, yv)[q].state != CellState::Sand || cell_rule(
            s,
            w,
            h,
            xv,
            yv,
        )[q].is_moved,
{
    lemma_rule_indices(w, h, xv, yv);
}

/// A visit the scan makes before it reaches the trapped water — in a
/// lower row, or to its left in the same row — keeps the configuration.
proof fn lemma_visit_keeps_trapped(s: Seq<Cell>, w: int, h: int, x: int, y: int, xv: int, yv: int)
    requires
        s.len() == w * h,
        1 <= x < w - 1,
        0 <= y < h - 1,
        0 <= xv < w,
        0 <= yv < h,
        trapped_water_at(s, w, h, x, y),
        yv > y || (yv == y && xv < x),
    ensures
        cell_rule(s, w, h, xv, yv).len() == s.len(),
        cell_rule(s, w, h, xv, yv)[pos(w, x, y)] == s[pos(w, x, y)],
        trapped_water_at(cell_rule(s, w, h, xv, yv), w, h, x, y),
{
    let p = pos(w, x, y);
    lemma_rule_indices(w, h, x, y);
    lemma_rule_indices(w, h, xv, yv);
    if yv > y {
        lemma_rowmajor_row_lt(w, x, y, xv, yv);
    }
    lemma_rowmajor_row_lt(w, x, y, xv, yv + 1);
    lemma_rule_keeps_occupied_slot(s, w, h, xv, yv, p);
    lemma_rule_keeps_anchored(s, w, h, xv, yv, pos(w, x, y + 1));
    lemma_rule_keeps_anchored(s, w, h, xv, yv, pos(w, x - 1, y + 1));
    lemma_rule_keeps_anchored(s, w, h, xv, yv, pos(w, x + 1, y + 1));
    lemma_rule_keeps_anchored(s, w, h, xv, yv, pos(w, x - 1, y));
    lemma_rule_keeps_anchored(s, w, h, xv, yv, pos(w, x + 1, y));
    if y > 0 {
        lemma_rowmajor_in_range(w, h, x, y - 1);
        lemma_rule_never_writes_unsettled_sand(s, w, h, xv, yv, pos(w, x, y - 1));
    }
}

/// A visit the scan makes after the trapped water has flipped — to its
/// right in the same row, or in a higher row — leaves the water cell and
/// the slot above it alone.
proof fn lemma_visit_keeps_flipped(s: Seq<Cell>, w: int, h: int, x: int, y: int, xv: int, yv: int)
    requires
        s.len() == w * h,
        0 <= x < w,
        0 <= y < h,
        0 <= xv < w,
        0 <= yv < h,
        s[pos(w, x, y)].state == CellState::Water,
        no_unsettled_sand_above(s, w, x, y),
        yv < y || (yv == y && xv > x),
    ensures
        cell_rule(s, w, h, xv, yv).len() == s.len(),
        cell_rule(s, w, h, xv, yv)[pos(w, x, y)] == s[pos(w, x, y)],
        no_unsettled_sand_above(cell_rule(s, w, h, xv, yv), w, x, y),
{
    let p = pos(w, x, y);
    lemma_rowmajor_in_range(w, h, x, y);
    lemma_rule_indices(w, h, xv, yv);
    if yv < y {
        lemma_rowmajor_row_lt(w, xv, yv, x, y);
        if yv + 1 < y {
            lemma_rowmajor_row_lt(w, xv, yv + 1, x, y);
        }
    } else {
        lemma_rowmajor_row_lt(w, x, y, xv, yv + 1);
    }
    lemma_rule_keeps_occupied_slot(s, w, h, xv, yv, p);
    if y > 0 {
        lemma_rowmajor_in_range(w, h, x, y - 1);
        lemma_rule_never_writes_unsettled_sand(s, w, h, xv, yv, pos(w, x, y - 1));
    }
}

/// Sweeping a row below the trapped water keeps the configuration.
proof fn lemma_sweep_below_keeps_trapped(
    s: Seq<Cell>,
    w: int,
    h: int,
    x: int,
    y: int,
    yv: int,
    x0: int,
)
    requires
        s.len() == w * h,
        1 <= x < w - 1,
        0 <= y < h - 1,
        y < yv < h,
        trapped_water_at(s, w, h, x, y),
    ensures
        scan_row(s, w, h, yv, x0).len() == s.len(),
        scan_row(s, w, h, yv, x0)[pos(w, x, y)] == s[pos(w, x, y)],
        trapped_water_at(scan_row(s, w, h, yv, x0), w, h, x, y),
    decreases w - x0,
{
    if x0 < 0 || x0 >= w {
    } else {
        lemma_visit_keeps_trapped(s, w, h, x, y, x0, yv);
        lemma_sweep_below_keeps_trapped(cell_rule(s, w, h, x0, yv), w, h, x, y, yv, x0 + 1);
    }
}

/// Sweeping the rest of a row (or any row above) after the flip leaves
/// the flipped water and the slot above it alone.
proof fn lemma_sweep_after_keeps_flipped(
    s: Seq<Cell>,
    w: int,
    h: int,
    x: int,
    y: int,
    yv: int,
    x0: int,
)
    requires
        s.len() == w * h,
        0 <= x < w,
        0 <= y < h,
        0 <= yv < h,
        yv < y || (yv == y && x0 > x),
        s[pos(w, x, y)].state == CellState::Water,
        no_unsettled_sand_above(s, w, x, y),
    ensures
        scan_row(s, w, h, yv, x0).len() == s.len(),
        scan_row(s, w, h, yv, x0)[pos(w, x, y)] == s[pos(w, x, y)],
        no_unsettled_sand_above(scan_row(s, w, h, yv, x0), w, x, y),
    decreases w - x0,
{
    if x0 < 0 || x0 >= w {
    } else {
        lemma_visit_keeps_flipped(s, w, h, x, y, x0, yv);
        lemma_sweep_after_keeps_flipped(cell_rule(s, w, h, x0, yv), w, h, x, y, yv, x0 + 1);
    }
}

/// Sweeping the trapped water's own row flips its bias in place: the
/// visits left of it keep the walls standing, its own visit flips it, and
/// the visits right of it cannot touch it.
proof fn lemma_sweep_row_of_trapped(s: Seq<Cell>, w: int, h: int, x: int, y: int, x0: int)
    requires
        s.len() == w * h,
        1 <= x < w - 1,
        0 <= y < h - 1,
        0 <= x0 <= x,
        trapped_water_at(s, w, h, x, y),
    ensures
        scan_row(s, w, h, y, x0).len() == s.len(),
        scan_row(s, w, h, y, x0)[pos(w, x, y)] == flipped_cell(s[pos(w, x, y)]),
        no_unsettled_sand_above(scan_row(s, w, h, y, x0), w, x, y),
    decreases w - x0,
{
    if x0 == x {
        lemma_trapped_water_flips_bias(s, w, h, x, y);
        let r = cell_rule(s, w, h, x, y);
        lemma_rowmajor_in_range(w, h, x, y);
        if y > 0 {
            lemma_rowmajor_in_range(w, h, x, y - 1);
            lemma_rowmajor_row_lt(w, x, y - 1, x, y);
        }
        lemma_sweep_after_keeps_flipped(r, w, h, x, y, y, x + 1);
    } else {
        lemma_visit_keeps_trapped(s, w, h, x, y, x0, y);
        lemma_sweep_row_of_trapped(cell_rule(s, w, h, x0, y), w, h, x, y, x0 + 1);
    }
}

/// Sweeping the rows above the trapped water, after its flip, leaves it
/// alone.
proof fn lemma_rows_above_keep_flipped(s: Seq<Cell>, w: int, h: int, x: int, y: int, y1: int)
    requires
        s.len() == w * h,
        0 <= x < w,
        0 <= y < h,
        y1 <= y - 1,
        s[pos(w, x, y)].state == CellState::Water,
        no_unsettled_sand_above(s, w, x, y),
    ensures
        scan_rows(s, w, h, y1).len() == s.len(),
        scan_rows(s, w, h, y1)[pos(w, x, y)] == s[pos(w, x, y)],
    decreases y1 + 1,
{
    if y1 < 0 {
    } else {
        lemma_sweep_after_keeps_flipped(s, w, h, x, y, y1, 0);
        lemma_rows_above_keep_flipped(scan_row(s, w, h, y1, 0), w, h, x, y, y1 - 1);
    }
}

/// The whole scan, started anywhere at or below the trapped water's row,
/// flips its bias in place.
proof fn lemma_scan_flips_trapped(s: Seq<Cell>, w: int, h: int, x: int, y: int, y0: int)
    requires
        s.len() == w * h,
        1 <= x < w - 1,
        0 <= y < h - 1,
        y <= y0 <= h - 1,
        trapped_water_at(s, w, h, x, y),
    ensures
        scan_rows(s, w, h, y0).len() == s.len(),
        scan_rows(s, w, h, y0)[pos(w, x, y)] == flipped_cell(s[pos(w, x, y)]),
    decreases y0 + 1,
{
    if y0 == y {
        lemma_sweep_row_of_trapped(s, w, h, x, y, 0);
        lemma_rows_above_keep_flipped(scan_row(s, w, h, y, 0), w, h, x, y, y - 1);
    } else {
        lemma_sweep_below_keeps_trapped(s, w, h, x, y, y0, 0);
        lemma_scan_flips_trapped(scan_row(s, w, h, y0, 0), w, h, x, y, y0 - 1);
    }
}

/// Trapped water flips its bias over a whole tick: left-biased water
/// walled in by stone below, on both lower diagonals, and to both sides,
/// with no unsettled sand directly above it, is still in place after one
/// full step, biased right and unsettled. (Unsettled sand directly above
/// is the one disturbance: it would sink into the water and carry it
/// upward.)
pub proof fn lemma_step_flips_trapped_water(s: Seq<Cell>, w: int, h: int, x: int, y: int)
    requires
        s.len() == w * h,
        1 <= x < w - 1,
        0 <= y < h - 1,
        s[pos(w, x, y)].state == CellState::Water,
        !s[pos(w, x, y)].is_moved,
        s[pos(w, x, y)].move_direction == Direction::Left,
        s[pos(w, x, y + 1)].state == CellState::Stone,
        s[pos(w, x - 1, y + 1)].state == CellState::Stone,
        s[pos(w, x + 1, y + 1)].state == CellState::Stone,
        s[pos(w, x - 1, y)].state == CellState::Stone,
        s[pos(w, x + 1, y)].state == CellState::Stone,
        y == 0 || s[pos(w, x, y - 1)].state != CellState::Sand || s[pos(w, x, y - 1)].is_moved,
    ensures
        step_spec(s, w, h)[pos(w, x, y)] == cleared_cell(flipped_cell(s[pos(w, x, y)])),
        step_spec(s, w, h)[pos(w, x, y)].state == CellState::Water,
        step_spec(s, w, h)[pos(w, x, y)].move_direction == Direction::Right,
        !step_spec(s, w, h)[pos(w, x, y)].is_moved,
{
    lemma_rowmajor_in_range(w, h, x, y);
    lemma_scan_flips_trapped(s, w, h, x, y, h - 1);
}

/// The sinking pair at `(x, y)`: unsettled sand directly above water that
/// rests on the bottom row, with no unsettled sand above the pair.
spec fn sink_pair_at(s: Seq<Cell>, w: int, h: int, x: int, y: int) -> bool {
    &&& s[pos(w, x, y)].state == CellState::Sand
    &&& !s[pos(w, x, y)].is_moved
    &&& s[pos(w, x, y + 1)].state == CellState::Water
    &&& no_unsettled_sand_above(s, w, x, y)
}

/// Sweeping the bottom row changes nothing: the rule is inert there.
proof fn lemma_bottom_sweep_identity(s: Seq<Cell>, w: int, h: int, x0: int)
    ensures
        scan_row(s, w, h, h - 1, x0) == s,
    decreases w - x0,
{
    if x0 < 0 || x0 >= w {
    } else {
        lemma_bottom_row_rule_inert(s, w, h, x0);
        lemma_bottom_sweep_identity(s, w, h, x0 + 1);
    }
}

/// A visit left of the sinking pair, in the sand's row, keeps the pair.
proof fn lemma_visit_keeps_sink_pair(s: Seq<Cell>, w: int, h: int, x: int, y: int, xv: int)
    requires
        s.len() == w * h,
        0 <= x < w,
        0 <= y < h - 1,
        0 <= xv < x,
        sink_pair_at(s, w, h, x, y),
    ensures
        cell_rule(s, w, h, xv, y).len() == s.len(),
        cell_rule(s, w, h, xv, y)[pos(w, x, y)] == s[pos(w, x, y)],
        cell_rule(s, w, h, xv, y)[pos(w, x, y + 1)] == s[pos(w, x, y + 1)],
        sink_pair_at(cell_rule(s, w, h, xv, y), w, h, x, y),
{
    lemma_rule_indices(w, h, xv, y);
    lemma_rowmajor_in_range(w, h, x, y);
    lemma_rowmajor_in_range(w, h, x, y + 1);
    lemma_rowmajor_row_lt(w, x, y, xv, y + 1);
    lemma_rowmajor_row_lt(w, xv, y, x, y + 1);
    lemma_rule_keeps_occupied_slot(s, w, h, xv, y, pos(w, x, y));
    lemma_rule_keeps_occupied_slot(s, w, h, xv, y, pos(w, x, y + 1));
    if y > 0 {
        lemma_rowmajor_in_range(w, h, x, y - 1);
        lemma_rule_never_writes_unsettled_sand(s, w, h, xv, y, pos(w, x, y - 1));
    }
}

/// Sweeping the sand's row swaps the pair: visits to the left keep it,
/// the sand's own visit trades the two cells' places, and visits to the
/// right cannot touch either.
proof fn lemma_sweep_sink_row(s: Seq<Cell>, w: int, h: int, x: int, y: int, x0: int)
    requires
        s.len() == w * h,
        0 <= x < w,
        0 <= y,
        y == h - 2,
        0 <= x0 <= x,
        sink_pair_at(s, w, h, x, y),
    ensures
        scan_row(s, w, h, y, x0).len() == s.len(),
        scan_row(s, w, h, y, x0)[pos(w, x, y)] == settled_cell(s[pos(w, x, y + 1)]),
        scan_row(s, w, h, y, x0)[pos(w, x, y + 1)] == settled_cell(s[pos(w, x, y)]),
        no_unsettled_sand_above(scan_row(s, w, h, y, x0), w, x, y),
    decreases w - x0,
{
    let d = pos(w, x, y + 1);
    if x0 == x {
        lemma_sand_sinks_through_water(s, w, h, x, y);
        let r = cell_rule(s, w, h, x, y);
        lemma_rowmajor_in_range(w, h, x, y);
        lemma_rowmajor_in_range(w, h, x, y + 1);
        if y > 0 {
            lemma_rowmajor_in_range(w, h, x, y - 1);
            lemma_rowmajor_row_lt(w, x, y - 1, x, y);
            lemma_rowmajor_row_lt(w, x, y - 1, x, y + 1);
        }
        lemma_sweep_after_keeps_flipped(r, w, h, x, y, y, x + 1);
        lemma_scan_row_keeps_anchored(r, w, h, y, x + 1, d);
    } else {
        lemma_visit_keeps_sink_pair(s, w, h, x, y, x0);
        lemma_sweep_sink_row(cell_rule(s, w, h, x0, y), w, h, x, y, x0 + 1);
    }
}

/// The whole scan, started anywhere at or below the sand's row, swaps the
/// sinking pair and leaves it swapped.
proof fn lemma_scan_sinks_pair(s: Seq<Cell>, w: int, h: int, x: int, y: int, y0: int)
    requires
        s.len() == w * h,
        0 <= x < w,
        0 <= y,
        y == h - 2,
        y <= y0 <= h - 1,
        sink_pair_at(s, w, h, x, y),
    ensures
        scan_rows(s, w, h, y0).len() == s.len(),
        scan_rows(s, w, h, y0)[pos(w, x, y)] == settled_cell(s[pos(w, x, y + 1)]),
        scan_rows(s, w, h, y0)[pos(w, x, y + 1)] == settled_cell(s[pos(w, x, y)]),
    decreases y0 + 1,
{
    let d = pos(w, x, y + 1);
    if y0 == y {
        lemma_sweep_sink_row(s, w, h, x, y, 0);
        let s1 = scan_row(s, w, h, y, 0);
        lemma_rowmajor_in_range(w, h, x, y + 1);
        lemma_rows_above_keep_flipped(s1, w, h, x, y, y - 1);
        lemma_scan_rows_keeps_anchored(s1, w, h, y - 1, d);
    } else {
        lemma_bottom_sweep_identity(s, w, h, 0);
        lemma_scan_sinks_pair(s, w, h, x, y, y0 - 1);
    }
}

/// Bottom-row stability for water: a water cell in the bottom row with no
/// unsettled sand directly above it is still there after a step, changed
/// only by the end-of-tick flag reset. (Unsettled sand directly above is
/// the one disturbance: it sinks into the water and carries it upward.)
pub proof fn lemma_bottom_water_stays(s: Seq<Cell>, w: int, h: int, x: int)
    requires
        s.len() == w * h,
        0 <= x < w,
        1 <= h,
        s[pos(w, x, h - 1)].state == CellState::Water,
        h == 1 || s[pos(w, x, h - 2)].state != CellState::Sand || s[pos(w, x, h - 2)].is_moved,
    ensures
        step_spec(s, w, h)[pos(w, x, h - 1)] == cleared_cell(s[pos(w, x, h - 1)]),
{
    lemma_rowmajor_in_range(w, h, x, h - 1);
    lemma_bottom_sweep_identity(s, w, h, 0);
    lemma_rows_above_keep_flipped(s, w, h, x, h - 1, h - 2);
}

/// Sand sinks through water over a whole tick: unsettled sand directly
/// above water that rests on the bottom row — the uncontested case, where
/// the water has nowhere else to go — has traded places with it after one
/// full step: sand below, water above, both unsettled again. (Unsettled
/// sand directly above the pair would sink into the risen water in the
/// same tick and disturb it.)
pub proof fn lemma_step_sinks_sand_to_the_floor(s: Seq<Cell>, w: int, h: int, x: int, y: int)
    requires
        s.len() == w * h,
        0 <= x < w,
        0 <= y,
        y == h - 2,
        s[pos(w, x, y)].state == CellState::Sand,
        !s[pos(w, x, y)].is_moved,
        s[pos(w, x, y + 1)].state == CellState::Water,
        y == 0 || s[pos(w, x, y - 1)].state != CellState::Sand || s[pos(w, x, y - 1)].is_moved,
    ensures
        step_spec(s, w, h)[pos(w, x, y)] == cleared_cell(settled_cell(s[pos(w, x, y + 1)])),
        step_spec(s, w, h)[pos(w, x, y + 1)] == cleared_cell(settled_cell(s[pos(w, x, y)])),
        step_spec(s, w, h)[pos(w, x, y)].state == CellState::Water,
        step_spec(s, w, h)[pos(w, x, y + 1)].state == CellState::Sand,
{
    lemma_rowmajor_in_range(w, h, x, y);
    lemma_rowmajor_in_range(w, h, x, y + 1);
    lemma_scan_sinks_pair(s, w, h, x, y, h - 1);
}

/// A scene with nothing left to move: every slot is empty or stone, and
/// no settled flag is set.
pub open spec fn settled_scene(s: Seq<Cell>) -> bool {
    forall|q: int|
        0 <= q < s.len() ==> (s[q].state == CellState::Dead || s[q].state == CellState::Stone)
            && !s[q].is_moved
}

/// In a settled scene the rule is a no-op everywhere.
proof fn lemma_rule_inert_in_settled_scene(s: Seq<Cell>, w: int, h: int, x: int, y: int)
    requires
        s.len() == w * h,
        0 <= x < w,
        0 <= y < h,
        settled_scene(s),
    ensures
        cell_rule(s, w, h, x, y) == s,
{
    lemma_rowmajor_in_range(w, h, x, y);
}

/// In a settled scene a row sweep is a no-op.
proof fn lemma_scan_row_inert(s: Seq<Cell>, w: int, h: int, y: int, x: int)
    requires
        s.len() == w * h,
        0 <= y < h,
        settled_scene(s),
    ensures
        scan_row(s, w, h, y, x) == s,
    decreases w - x,
{
    if x < 0 || x >= w {
    } else {
        lemma_rule_inert_in_settled_scene(s, w, h, x, y);
        lemma_scan_row_inert(s, w, h, y, x + 1);
    }
}

/// In a settled scene the whole scan is a no-op.
proof fn lemma_scan_rows_inert(s: Seq<Cell>, w: int, h: int, y: int)
    requires
        s.len() == w * h,
        y <= h - 1,
        settled_scene(s),
    ensures
        scan_rows(s, w, h, y) == s,
    decreases y + 1,
{
    if y < 0 {
    } else {
        lemma_scan_row_inert(s, w, h, y, 0);
        lemma_scan_rows_inert(s, w, h, y - 1);
    }
}

/// Idempotent settle: a grid holding only empty and stone cells, none of
/// them flagged, is unchanged by a step.
pub proof fn lemma_settled_scene_fixed(s: Seq<Cell>, w: int, h: int)
    requires
        s.len() == w * h,
        settled_scene(s),
    ensures
        step_spec(s, w, h) == s,
{
    lemma_scan_rows_inert(s, w, h, h - 1);
    assert(clear_flags(s) =~= s);
}

/// Idempotent settle, for any number of ticks: a grid holding only empty
/// and stone cells, none of them flagged, never changes again.
pub proof fn lemma_settled_scene_fixed_forever(s: Seq<Cell>, w: int, h: int, n: nat)
    requires
        s.len() == w * h,
        settled_scene(s),
    ensures
        step_n(s, w, h, n) == s,
    decreases n,
{
    if n == 0 {
    } else {
        lemma_settled_scene_fixed_forever(s, w, h, (n - 1) as nat);
        lemma_settled_scene_fixed(s, w, h);
    }
}

} // verus!
