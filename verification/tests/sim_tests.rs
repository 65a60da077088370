use macro_sand::cell_updates::{update_sand, update_water};
use macro_sand::cells::{Cell, CellState, Direction};
use macro_sand::grid::Grid;

fn kinds(g: &Grid) -> Vec<CellState> {
    let mut v = Vec::new();
    for y in 0..g.height() {
        for x in 0..g.width() {
            v.push(g.get(x, y).unwrap().state);
        }
    }
    v
}

fn count_kind(g: &Grid, k: CellState) -> usize {
    kinds(g).iter().filter(|s| **s == k).count()
}

#[test]
fn sand_falls_to_the_bottom_and_stops() {
    let mut g = Grid::new(3, 3);
    g.set(1, 0, Cell::sand_with_bias(Direction::Left)).unwrap();

    g.step();
    assert_eq!(g.get(1, 0).unwrap().state, CellState::Dead);
    assert_eq!(g.get(1, 1).unwrap().state, CellState::Sand);
    assert_eq!(g.get(1, 2).unwrap().state, CellState::Dead);

    g.step();
    assert_eq!(g.get(1, 1).unwrap().state, CellState::Dead);
    assert_eq!(g.get(1, 2).unwrap().state, CellState::Sand);

    let before = kinds(&g);
    g.step();
    assert_eq!(kinds(&g), before);
}

#[test]
fn water_falls_straight_down_when_below_is_empty() {
    let mut g = Grid::new(3, 2);
    g.set(1, 0, Cell::water_with_bias(Direction::Left)).unwrap();
    g.step();
    assert_eq!(g.get(1, 0).unwrap().state, CellState::Dead);
    assert_eq!(g.get(0, 1).unwrap().state, CellState::Dead);
    assert_eq!(g.get(1, 1).unwrap().state, CellState::Water);
    assert_eq!(g.get(2, 1).unwrap().state, CellState::Dead);
}

#[test]
fn sand_slides_down_left_before_down_right() {
    let mut g = Grid::new(3, 2);
    g.set(1, 0, Cell::sand_with_bias(Direction::Right)).unwrap();
    g.set(1, 1, Cell::spawn_stone()).unwrap();
    g.step();
    assert_eq!(g.get(0, 1).unwrap().state, CellState::Sand);
    assert_eq!(g.get(2, 1).unwrap().state, CellState::Dead);
    assert_eq!(g.get(1, 0).unwrap().state, CellState::Dead);
}

#[test]
fn sand_slides_down_right_when_left_is_blocked() {
    let mut g = Grid::new(3, 2);
    g.set(1, 0, Cell::sand_with_bias(Direction::Left)).unwrap();
    g.set(1, 1, Cell::spawn_stone()).unwrap();
    g.set(0, 1, Cell::spawn_stone()).unwrap();
    g.step();
    assert_eq!(g.get(2, 1).unwrap().state, CellState::Sand);
    assert_eq!(g.get(1, 0).unwrap().state, CellState::Dead);
}

#[test]
fn sand_sinks_through_water() {
    let mut g = Grid::new(3, 2);
    g.set(1, 0, Cell::sand_with_bias(Direction::Left)).unwrap();
    g.set(1, 1, Cell::water_with_bias(Direction::Right)).unwrap();
    g.step();
    assert_eq!(g.get(1, 0).unwrap().state, CellState::Water);
    assert_eq!(g.get(1, 1).unwrap().state, CellState::Sand);
    assert_eq!(count_kind(&g, CellState::Sand), 1);
    assert_eq!(count_kind(&g, CellState::Water), 1);
}

#[test]
fn trapped_water_flips_bias_without_moving() {
    let mut g = Grid::new(3, 2);
    g.set(0, 0, Cell::spawn_stone()).unwrap();
    g.set(1, 0, Cell::water_with_bias(Direction::Left)).unwrap();
    g.set(2, 0, Cell::spawn_stone()).unwrap();
    g.set(0, 1, Cell::spawn_stone()).unwrap();
    g.set(1, 1, Cell::spawn_stone()).unwrap();
    g.set(2, 1, Cell::spawn_stone()).unwrap();

    g.step();
    let w = g.get(1, 0).unwrap();
    assert_eq!(w.state, CellState::Water);
    assert_eq!(w.move_direction, Direction::Right);

    g.step();
    let w = g.get(1, 0).unwrap();
    assert_eq!(w.state, CellState::Water);
    assert_eq!(w.move_direction, Direction::Left);
}

#[test]
fn water_spreads_in_its_biased_direction() {
    let mut g = Grid::new(3, 2);
    g.set(0, 1, Cell::spawn_stone()).unwrap();
    g.set(1, 1, Cell::spawn_stone()).unwrap();
    g.set(2, 1, Cell::spawn_stone()).unwrap();
    g.set(1, 0, Cell::water_with_bias(Direction::Left)).unwrap();
    g.step();
    let w = g.get(0, 0).unwrap();
    assert_eq!(w.state, CellState::Water);
    assert_eq!(w.move_direction, Direction::Left);
    assert_eq!(g.get(1, 0).unwrap().state, CellState::Dead);
}

#[test]
fn water_with_right_bias_spreads_right() {
    let mut g = Grid::new(3, 2);
    g.set(0, 1, Cell::spawn_stone()).unwrap();
    g.set(1, 1, Cell::spawn_stone()).unwrap();
    g.set(2, 1, Cell::spawn_stone()).unwrap();
    g.set(1, 0, Cell::water_with_bias(Direction::Right)).unwrap();
    g.step();
    let w = g.get(2, 0).unwrap();
    assert_eq!(w.state, CellState::Water);
    assert_eq!(w.move_direction, Direction::Right);
    assert_eq!(g.get(1, 0).unwrap().state, CellState::Dead);
}

#[test]
fn water_slides_at_most_one_cell_per_tick() {
    let mut g = Grid::new(4, 2);
    for x in 0..4 {
        g.set(x, 1, Cell::spawn_stone()).unwrap();
    }
    g.set(2, 0, Cell::water_with_bias(Direction::Left)).unwrap();
    g.step();
    assert_eq!(g.get(0, 0).unwrap().state, CellState::Dead);
    assert_eq!(g.get(1, 0).unwrap().state, CellState::Water);
    assert_eq!(g.get(2, 0).unwrap().state, CellState::Dead);
}

#[test]
fn water_at_the_left_edge_flips_instead_of_escaping() {
    let mut g = Grid::new(2, 2);
    g.set(0, 1, Cell::spawn_stone()).unwrap();
    g.set(1, 1, Cell::spawn_stone()).unwrap();
    g.set(0, 0, Cell::water_with_bias(Direction::Left)).unwrap();

    g.step();
    let w = g.get(0, 0).unwrap();
    assert_eq!(w.state, CellState::Water);
    assert_eq!(w.move_direction, Direction::Right);

    g.step();
    assert_eq!(g.get(0, 0).unwrap().state, CellState::Dead);
    assert_eq!(g.get(1, 0).unwrap().state, CellState::Water);
}

#[test]
fn edge_columns_and_bottom_row_step_safely() {
    let mut g = Grid::new(3, 2);
    g.set(0, 0, Cell::sand_with_bias(Direction::Left)).unwrap();
    g.set(2, 0, Cell::water_with_bias(Direction::Right)).unwrap();
    g.set(0, 1, Cell::sand_with_bias(Direction::Right)).unwrap();
    g.set(1, 1, Cell::water_with_bias(Direction::Left)).unwrap();
    g.set(2, 1, Cell::spawn_stone()).unwrap();
    for _ in 0..6 {
        g.step();
    }
    assert_eq!(count_kind(&g, CellState::Sand), 2);
    assert_eq!(count_kind(&g, CellState::Water), 2);
    assert_eq!(count_kind(&g, CellState::Stone), 1);
}

#[test]
fn steps_conserve_every_kind() {
    let mut g = Grid::new(5, 4);
    g.set(0, 0, Cell::sand_with_bias(Direction::Left)).unwrap();
    g.set(2, 0, Cell::water_with_bias(Direction::Right)).unwrap();
    g.set(4, 0, Cell::sand_with_bias(Direction::Right)).unwrap();
    g.set(2, 1, Cell::water_with_bias(Direction::Left)).unwrap();
    g.set(1, 2, Cell::spawn_stone()).unwrap();
    g.set(2, 2, Cell::spawn_stone()).unwrap();
    g.set(3, 3, Cell::water_with_bias(Direction::Left)).unwrap();

    let sand = count_kind(&g, CellState::Sand);
    let water = count_kind(&g, CellState::Water);
    let stone = count_kind(&g, CellState::Stone);
    let empty = count_kind(&g, CellState::Dead);
    for _ in 0..5 {
        g.step();
        assert_eq!(count_kind(&g, CellState::Sand), sand);
        assert_eq!(count_kind(&g, CellState::Water), water);
        assert_eq!(count_kind(&g, CellState::Stone), stone);
        assert_eq!(count_kind(&g, CellState::Dead), empty);
    }
}

#[test]
fn grid_without_movables_never_changes() {
    let mut g = Grid::new(4, 3);
    g.set(0, 0, Cell::spawn_stone()).unwrap();
    g.set(2, 1, Cell::spawn_stone()).unwrap();
    g.set(3, 0, Cell::spawn_stone()).unwrap();
    let mut snapshot = Vec::new();
    for y in 0..3 {
        for x in 0..4 {
            snapshot.push(g.get(x, y).unwrap());
        }
    }
    for _ in 0..5 {
        g.step();
        let mut now = Vec::new();
        for y in 0..3 {
            for x in 0..4 {
                now.push(g.get(x, y).unwrap());
            }
        }
        assert_eq!(now, snapshot);
    }
}

#[test]
fn bottom_row_cells_stay_put() {
    let mut g = Grid::new(3, 2);
    g.set(0, 1, Cell::sand_with_bias(Direction::Left)).unwrap();
    g.set(1, 1, Cell::spawn_stone()).unwrap();
    g.set(2, 1, Cell::water_with_bias(Direction::Right)).unwrap();
    g.step();
    assert_eq!(g.get(0, 1).unwrap().state, CellState::Sand);
    assert_eq!(g.get(1, 1).unwrap().state, CellState::Stone);
    assert_eq!(g.get(2, 1).unwrap().state, CellState::Water);
}

#[test]
fn scan_settles_movers_and_reset_clears_them() {
    let mut g = Grid::new(3, 3);
    g.set(1, 0, Cell::sand_with_bias(Direction::Left)).unwrap();
    g.scan();
    let moved = g.get(1, 1).unwrap();
    assert_eq!(moved.state, CellState::Sand);
    assert!(moved.is_moved);

    g.scan();
    assert_eq!(g.get(1, 1).unwrap().state, CellState::Sand);
    assert_eq!(g.get(1, 2).unwrap().state, CellState::Dead);

    g.reset_moved();
    assert!(!g.get(1, 1).unwrap().is_moved);
    g.scan();
    assert_eq!(g.get(1, 2).unwrap().state, CellState::Sand);
}

#[test]
fn update_functions_respect_the_settled_flag() {
    let mut g = Grid::new(3, 3);
    let mut settled = Cell::sand_with_bias(Direction::Left);
    settled.is_moved = true;
    g.set(1, 0, settled).unwrap();
    update_sand(1, 0, &mut g);
    assert_eq!(g.get(1, 0).unwrap().state, CellState::Sand);
    assert_eq!(g.get(1, 1).unwrap().state, CellState::Dead);

    let mut w = Cell::water_with_bias(Direction::Right);
    w.is_moved = true;
    g.set(0, 0, w).unwrap();
    update_water(0, 0, &mut g);
    assert_eq!(g.get(0, 0).unwrap().state, CellState::Water);
    assert_eq!(g.get(0, 1).unwrap().state, CellState::Dead);
}
