//! A discrete falling-sand automaton: a rectangular grid of cells (empty,
//! sand, water, stone) advanced one tick at a time by simple local rules.
//!
//! The grid is a bounds-checked container. One `step` scans it from the
//! bottom row upward, left to right within each row, moving each sand and
//! water cell at most once — sand falls, sinks through water, and slides
//! diagonally; water falls, slides, spills sideways along its bias, and
//! flips that bias when trapped — and then clears the per-tick settled
//! flags. Every boundary is checked before the neighbor behind it is
//! read, and the laws of the automaton (conservation, bottom-row
//! stability, gravity precedence, and the rest) are proved once for all
//! grids.

pub mod cell_updates;
pub mod cells;
pub mod config;
pub mod grid;
pub mod laws;
pub mod step;
