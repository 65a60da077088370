//! Runtime configuration: the grid dimensions and the brush the host
//! starts painting with, gathered in one place so a host can set them at
//! startup instead of compiling them in.

use vstd::prelude::*;

use crate::cells::{empty_cell, sand_cell, stone_cell, water_cell, Cell, CellState, Direction};
use crate::grid::Grid;

verus! {

/// What a host chooses at startup: the grid's size in cells and the kind
/// of cell its brush paints first.
#[derive(Copy, Clone, Debug, PartialEq, Eq, Structural)]
pub struct SimConfig {
    pub grid_width: usize,
    pub grid_height: usize,
    pub initial_brush_kind: CellState,
}

impl SimConfig {
    /// The empty grid this configuration asks for.
    pub fn initial_grid(&self) -> (g: Grid)
        requires
            self.grid_width * self.grid_height <= usize::MAX,
        ensures
            g.wf(),
            g.spec_width() == self.grid_width,
            g.spec_height() == self.grid_height,
            forall|q: int| 0 <= q < g@.len() ==> g@[q] == empty_cell(),
    {
        Grid::new(self.grid_width, self.grid_height)
    }

    /// The brush cell this configuration starts with: a fresh cell of the
    /// configured kind, its bias drawn at random where the kind moves.
    pub fn initial_brush(&self) -> (c: Cell)
        ensures
            c.state == self.initial_brush_kind,
            self.initial_brush_kind == CellState::Dead ==> c == empty_cell(),
            self.initial_brush_kind == CellState::Stone ==> c == stone_cell(),
            self.initial_brush_kind == CellState::Sand ==> c == sand_cell(c.move_direction)
                && (c.move_direction == Direction::Left || c.move_direction == Direction::Right),
            self.initial_brush_kind == CellState::Water ==> c == water_cell(c.move_direction)
                && (c.move_direction == Direction::Left || c.move_direction == Direction::Right),
    {
        match self.initial_brush_kind {
            CellState::Dead => Cell::spawn_empty(),
            CellState::Sand => Cell::spawn_sand(),
            CellState::Water => Cell::spawn_water(),
            CellState::Stone => Cell::spawn_stone(),
        }
    }
}

} // verus!
