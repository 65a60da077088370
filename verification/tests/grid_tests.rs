use macro_sand::cells::{Cell, CellState, CellType, Direction, Rgba};
use macro_sand::config::SimConfig;
use macro_sand::grid::{Grid, GridError};

#[test]
fn new_grid_is_empty() {
    let g = Grid::new(4, 3);
    assert_eq!(g.width(), 4);
    assert_eq!(g.height(), 3);
    for y in 0..3 {
        for x in 0..4 {
            assert_eq!(g.get(x, y).unwrap(), Cell::spawn_empty());
        }
    }
}

#[test]
fn get_set_roundtrip() {
    let mut g = Grid::new(3, 3);
    let stone = Cell::spawn_stone();
    assert_eq!(g.set(2, 1, stone), Ok(()));
    assert_eq!(g.get(2, 1).unwrap(), stone);
    for y in 0..3 {
        for x in 0..3 {
            if !(x == 2 && y == 1) {
                assert_eq!(g.get(x, y).unwrap(), Cell::spawn_empty());
            }
        }
    }
}

#[test]
fn out_of_bounds_is_rejected() {
    let mut g = Grid::new(3, 3);
    assert_eq!(g.get(3, 0), Err(GridError::OutOfBounds));
    assert_eq!(g.get(0, 3), Err(GridError::OutOfBounds));
    assert_eq!(g.get(usize::MAX, usize::MAX), Err(GridError::OutOfBounds));
    assert_eq!(g.set(3, 0, Cell::spawn_sand()), Err(GridError::OutOfBounds));
    assert_eq!(g.set(0, 3, Cell::spawn_sand()), Err(GridError::OutOfBounds));
    for y in 0..3 {
        for x in 0..3 {
            assert_eq!(g.get(x, y).unwrap(), Cell::spawn_empty());
        }
    }
    assert_eq!(g.cell_color(7, 7), Err(GridError::OutOfBounds));
}

#[test]
fn fill_and_clear() {
    let mut g = Grid::new(3, 2);
    let stone = Cell::spawn_stone();
    g.fill(stone);
    for y in 0..2 {
        for x in 0..3 {
            assert_eq!(g.get(x, y).unwrap(), stone);
        }
    }
    g.clear();
    for y in 0..2 {
        for x in 0..3 {
            assert_eq!(g.get(x, y).unwrap(), Cell::spawn_empty());
        }
    }
}

#[test]
fn brush_paints_blob_in_the_middle() {
    let mut g = Grid::new(7, 7);
    let stone = Cell::spawn_stone();
    g.apply_brush(3, 3, stone);
    let covered = [
        (3, 3),
        (2, 2),
        (3, 2),
        (4, 2),
        (1, 3),
        (2, 3),
        (4, 3),
        (5, 3),
        (2, 4),
        (3, 4),
        (4, 4),
    ];
    for y in 0..7 {
        for x in 0..7 {
            let want = covered.contains(&(x, y));
            let got = g.get(x, y).unwrap();
            if want {
                assert_eq!(got, stone, "expected stone at ({x}, {y})");
            } else {
                assert_eq!(got, Cell::spawn_empty(), "expected empty at ({x}, {y})");
            }
        }
    }
}

#[test]
fn brush_clips_at_the_corner() {
    let mut g = Grid::new(5, 5);
    let stone = Cell::spawn_stone();
    g.apply_brush(0, 0, stone);
    let covered = [(0, 0), (1, 0), (2, 0), (0, 1), (1, 1)];
    let mut painted = 0;
    for y in 0..5 {
        for x in 0..5 {
            let got = g.get(x, y).unwrap();
            if covered.contains(&(x, y)) {
                assert_eq!(got, stone, "expected stone at ({x}, {y})");
                painted += 1;
            } else {
                assert_eq!(got, Cell::spawn_empty(), "expected empty at ({x}, {y})");
            }
        }
    }
    assert_eq!(painted, 5);
}

#[test]
fn cell_colors_match_their_kind() {
    let mut g = Grid::new(4, 1);
    g.set(1, 0, Cell::spawn_sand()).unwrap();
    g.set(2, 0, Cell::spawn_water()).unwrap();
    g.set(3, 0, Cell::spawn_stone()).unwrap();
    assert_eq!(g.cell_color(0, 0).unwrap(), Rgba { r: 10, g: 10, b: 10, a: 255 });
    assert_eq!(g.cell_color(1, 0).unwrap(), Rgba { r: 255, g: 204, b: 92, a: 255 });
    assert_eq!(g.cell_color(2, 0).unwrap(), Rgba { r: 71, g: 140, b: 207, a: 255 });
    assert_eq!(g.cell_color(3, 0).unwrap(), Rgba { r: 151, g: 125, b: 139, a: 255 });
}

#[test]
fn config_builds_grid_and_brush() {
    let config = SimConfig { grid_width: 6, grid_height: 4, initial_brush_kind: CellState::Water };
    let g = config.initial_grid();
    assert_eq!(g.width(), 6);
    assert_eq!(g.height(), 4);
    assert_eq!(g.get(5, 3).unwrap(), Cell::spawn_empty());
    let brush = config.initial_brush();
    assert_eq!(brush.state, CellState::Water);
    assert!(brush.move_direction == Direction::Left || brush.move_direction == Direction::Right);

    let stone_config = SimConfig { grid_width: 2, grid_height: 2, initial_brush_kind: CellState::Stone };
    assert_eq!(stone_config.initial_brush(), Cell::spawn_stone());
}

#[test]
fn spawned_cells_are_well_formed() {
    let e = Cell::spawn_empty();
    assert_eq!(e.state, CellState::Dead);
    assert_eq!(e.cell_type, CellType::Vacant);
    assert_eq!(e.move_direction, Direction::Neutral);
    assert!(!e.is_moved);

    let s = Cell::spawn_sand();
    assert_eq!(s.state, CellState::Sand);
    assert_eq!(s.cell_type, CellType::Solid);
    assert!(s.move_direction == Direction::Left || s.move_direction == Direction::Right);
    assert!(!s.is_moved);

    let w = Cell::spawn_water();
    assert_eq!(w.state, CellState::Water);
    assert_eq!(w.cell_type, CellType::Liquid);
    assert!(w.move_direction == Direction::Left || w.move_direction == Direction::Right);
    assert!(!w.is_moved);

    let t = Cell::spawn_stone();
    assert_eq!(t.state, CellState::Stone);
    assert_eq!(t.cell_type, CellType::Solid);
    assert_eq!(t.move_direction, Direction::Neutral);
    assert!(!t.is_moved);

    let sb = Cell::sand_with_bias(Direction::Right);
    assert_eq!(sb.state, CellState::Sand);
    assert_eq!(sb.move_direction, Direction::Right);
    let wb = Cell::water_with_bias(Direction::Left);
    assert_eq!(wb.state, CellState::Water);
    assert_eq!(wb.move_direction, Direction::Left);
}
