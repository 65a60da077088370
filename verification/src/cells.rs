//! The cell model: the substance a grid slot holds, its derived
//! classification, a liquid's horizontal bias, the once-per-tick settled
//! flag, and the display color fixed by the substance.

use vstd::prelude::*;

verus! {

/// The substance a grid slot holds. `Dead` is the empty slot.
#[derive(Copy, Clone, Debug, PartialEq, Eq, Structural)]
pub enum CellState {
    Dead,
    Sand,
    Water,
    Stone,
}

/// A liquid's preferred horizontal spill direction. `Neutral` means no
/// preference; only moving substances carry a `Left` or `Right` bias.
#[derive(Copy, Clone, Debug, PartialEq, Eq, Structural)]
pub enum Direction {
    Right,
    Left,
    Neutral,
}

/// Coarse classification of a substance, always derived from its kind:
/// sand and stone are solid, water is liquid, the empty slot is vacant.
#[derive(Copy, Clone, Debug, PartialEq, Eq, Structural)]
pub enum CellType {
    Solid,
    Liquid,
    Vacant,
}

/// A display color, one byte per channel.
#[derive(Copy, Clone, Debug, PartialEq, Eq, Structural)]
pub struct Rgba {
    pub r: u8,
    pub g: u8,
    pub b: u8,
    pub a: u8,
}

/// One grid slot.
#[derive(Copy, Clone, Debug, PartialEq, Eq, Structural)]
pub struct Cell {
    pub state: CellState,
    pub cell_type: CellType,
    pub move_direction: Direction,
    pub is_moved: bool,
    pub color: Rgba,
}

/// The classification that belongs to each substance.
pub open spec fn type_of(k: CellState) -> CellType {
    match k {
        CellState::Dead => CellType::Vacant,
        CellState::Sand => CellType::Solid,
        CellState::Water => CellType::Liquid,
        CellState::Stone => CellType::Solid,
    }
}

/// The display color fixed by each substance.
pub open spec fn color_of(k: CellState) -> Rgba {
    match k {
        CellState::Dead => Rgba { r: 10, g: 10, b: 10, a: 255 },
        CellState::Sand => Rgba { r: 255, g: 204, b: 92, a: 255 },
        CellState::Water => Rgba { r: 71, g: 140, b: 207, a: 255 },
        CellState::Stone => Rgba { r: 151, g: 125, b: 139, a: 255 },
    }
}

/// The canonical empty cell; an "is this slot empty" check compares
/// against this exact value.
pub open spec fn empty_cell() -> Cell {
    Cell {
        state: CellState::Dead,
        cell_type: CellType::Vacant,
        move_direction: Direction::Neutral,
        is_moved: false,
        color: color_of(CellState::Dead),
    }
}

/// A fresh sand cell with bias `d`, not yet settled this tick.
pub open spec fn sand_cell(d: Direction) -> Cell {
    Cell {
        state: CellState::Sand,
        cell_type: CellType::Solid,
        move_direction: d,
        is_moved: false,
        color: color_of(CellState::Sand),
    }
}

/// A fresh water cell with bias `d`, not yet settled this tick.
pub open spec fn water_cell(d: Direction) -> Cell {
    Cell {
        state: CellState::Water,
        cell_type: CellType::Liquid,
        move_direction: d,
        is_moved: false,
        color: color_of(CellState::Water),
    }
}

/// A fresh stone cell; stone is inert and carries no bias.
pub open spec fn stone_cell() -> Cell {
    Cell {
        state: CellState::Stone,
        cell_type: CellType::Solid,
        move_direction: Direction::Neutral,
        is_moved: false,
        color: color_of(CellState::Stone),
    }
}

/// `c` after being displaced once in the current tick.
pub open spec fn settled_cell(c: Cell) -> Cell {
    Cell { is_moved: true, ..c }
}

/// `c` with its horizontal bias flipped; a neutral bias stays neutral.
pub open spec fn flipped_cell(c: Cell) -> Cell {
    match c.move_direction {
        Direction::Left => Cell { move_direction: Direction::Right, ..c },
        Direction::Right => Cell { move_direction: Direction::Left, ..c },
        Direction::Neutral => c,
    }
}

/// `c` with its settled flag cleared, as every cell is at the end of a tick.
pub open spec fn cleared_cell(c: Cell) -> Cell {
    Cell { is_moved: false, ..c }
}

/// Relies on `rand::random::<bool>` (the standard distribution): a fair
/// coin flip. Nothing is promised of the result.
#[verifier::external_body]
fn random_bool() -> bool {
    rand::random()
}

impl Cell {
    /// The canonical empty cell.
    pub fn spawn_empty() -> (c: Cell)
        ensures
            c == empty_cell(),
    {
        Cell {
            state: CellState::Dead,
            cell_type: CellType::Vacant,
            move_direction: Direction::Neutral,
            is_moved: false,
            color: Rgba { r: 10, g: 10, b: 10, a: 255 },
        }
    }

    /// A sand cell with the given initial bias; lets a caller supply a
    /// deterministic bias source in place of the random one.
    pub fn sand_with_bias(d: Direction) -> (c: Cell)
        ensures
            c == sand_cell(d),
    {
        Cell {
            state: CellState::Sand,
            cell_type: CellType::Solid,
            move_direction: d,
            is_moved: false,
            color: Rgba { r: 255, g: 204, b: 92, a: 255 },
        }
    }

    /// A water cell with the given initial bias; lets a caller supply a
    /// deterministic bias source in place of the random one.
    pub fn water_with_bias(d: Direction) -> (c: Cell)
        ensures
            c == water_cell(d),
    {
        Cell {
            state: CellState::Water,
            cell_type: CellType::Liquid,
            move_direction: d,
            is_moved: false,
            color: Rgba { r: 71, g: 140, b: 207, a: 255 },
        }
    }

    /// A sand cell whose initial bias is drawn at random.
    pub fn spawn_sand() -> (c: Cell)
        ensures
            c == sand_cell(c.move_direction),
            c.move_direction == Direction::Left || c.move_direction == Direction::Right,
    {
        if random_bool() {
            Cell::sand_with_bias(Direction::Left)
        } else {
            Cell::sand_with_bias(Direction::Right)
        }
    }

    /// A water cell whose initial bias is drawn at random.
    pub fn spawn_water() -> (c: Cell)
        ensures
            c == water_cell(c.move_direction),
            c.move_direction == Direction::Left || c.move_direction == Direction::Right,
    {
        if random_bool() {
            Cell::water_with_bias(Direction::Left)
        } else {
            Cell::water_with_bias(Direction::Right)
        }
    }

    /// A stone cell.
    pub fn spawn_stone() -> (c: Cell)
        ensures
            c == stone_cell(),
    {
        Cell {
            state: CellState::Stone,
            cell_type: CellType::Solid,
            move_direction: Direction::Neutral,
            is_moved: false,
            color: Rgba { r: 151, g: 125, b: 139, a: 255 },
        }
    }
}

} // verus!
