use rust_of_life::cell::Cell;
use rust_of_life::grid::Grid;
use rust_of_life::grid_row::GridRow;

fn set_all(grid: &mut Grid, alive: &[(usize, usize)]) {
    for &(x, y) in alive {
        assert!(x < grid.width() && y < grid.height());
        grid.set_alive(x, y, true);
    }
}

fn assert_pattern(grid: &Grid, alive: &[(usize, usize)]) {
    for y in 0..grid.height() {
        for x in 0..grid.width() {
            let expected = alive.contains(&(x, y));
            assert_eq!(
                grid.get_cell(x, y).is_alive(),
                expected,
                "cell ({}, {}) should be {}",
                x,
                y,
                if expected { "alive" } else { "dead" }
            );
        }
    }
}

#[test]
fn cell_operations() {
    let mut cell = Cell::default();
    assert!(!cell.is_alive());
    cell.arise();
    assert!(cell.is_alive());
    cell.die();
    assert!(!cell.is_alive());
    cell.set_alive(true);
    assert!(cell.is_alive());
    let built = Cell::default().alive(true);
    assert!(built.is_alive());
    let built_dead = built.alive(false);
    assert!(!built_dead.is_alive());
}

#[test]
fn grid_row_starts_dead_and_updates() {
    let mut row = GridRow::new(4);
    assert_eq!(row.len(), 4);
    for i in 0..4 {
        assert!(!row.get(i).is_alive());
    }
    row.set_alive(2, true);
    assert!(row.get(2).is_alive());
    assert!(!row.get(1).is_alive());
    let copy = row.duplicate();
    assert!(copy.get(2).is_alive());
    assert_eq!(copy.len(), 4);
}

#[test]
fn new_grid_is_fully_dead() {
    let grid = Grid::new(7, 3);
    assert_eq!(grid.width(), 7);
    assert_eq!(grid.height(), 3);
    assert_pattern(&grid, &[]);
}

#[test]
fn all_dead_grid_stays_dead() {
    let mut grid = Grid::new(6, 5);
    for _ in 0..4 {
        grid.iterate();
        assert_pattern(&grid, &[]);
    }
}

#[test]
fn block_is_a_still_life() {
    let block = [(1, 1), (2, 1), (1, 2), (2, 2)];
    let mut grid = Grid::new(4, 4);
    set_all(&mut grid, &block);
    grid.iterate();
    assert_pattern(&grid, &block);
    grid.iterate();
    assert_pattern(&grid, &block);
}

#[test]
fn blinker_oscillates() {
    let horizontal = [(1, 2), (2, 2), (3, 2)];
    let vertical = [(2, 1), (2, 2), (2, 3)];
    let mut grid = Grid::new(5, 5);
    set_all(&mut grid, &horizontal);
    grid.iterate();
    assert_pattern(&grid, &vertical);
    grid.iterate();
    assert_pattern(&grid, &horizontal);
}

#[test]
fn lonely_cells_die() {
    // a lone cell has 0 alive neighbors, a pair 1 each: all die
    let mut grid = Grid::new(5, 5);
    set_all(&mut grid, &[(1, 1), (3, 3), (4, 3)]);
    grid.iterate();
    assert_pattern(&grid, &[]);
}

#[test]
fn overcrowded_cell_dies_and_corners_are_born() {
    // the center of a plus shape has 4 alive neighbors and dies; each
    // diagonal dead cell next to it has exactly 3 and is born
    let plus = [(1, 0), (0, 1), (1, 1), (2, 1), (1, 2)];
    let mut grid = Grid::new(3, 3);
    set_all(&mut grid, &plus);
    grid.iterate();
    assert_pattern(
        &grid,
        &[(1, 0), (0, 1), (2, 1), (1, 2), (0, 0), (2, 0), (0, 2), (2, 2)],
    );
}

#[test]
fn neighbor_counts_at_boundary() {
    let grid = Grid::new(4, 3);
    // corners
    assert_eq!(grid.get_neighbors(0, 0).len(), 3);
    assert_eq!(grid.get_neighbors(3, 0).len(), 3);
    assert_eq!(grid.get_neighbors(0, 2).len(), 3);
    assert_eq!(grid.get_neighbors(3, 2).len(), 3);
    // non-corner edges
    assert_eq!(grid.get_neighbors(1, 0).len(), 5);
    assert_eq!(grid.get_neighbors(0, 1).len(), 5);
    assert_eq!(grid.get_neighbors(3, 1).len(), 5);
    assert_eq!(grid.get_neighbors(2, 2).len(), 5);
    // interior
    assert_eq!(grid.get_neighbors(1, 1).len(), 8);
    assert_eq!(grid.get_neighbors(2, 1).len(), 8);
}

#[test]
fn neighbors_report_life_states() {
    let mut grid = Grid::new(3, 3);
    set_all(&mut grid, &[(0, 0), (1, 0), (2, 2)]);
    let neighbors = grid.get_neighbors(1, 1);
    assert_eq!(neighbors.len(), 8);
    let alive = neighbors.iter().filter(|c| c.is_alive()).count();
    assert_eq!(alive, 3);
    // far outside the grid there are no neighbors at all
    assert_eq!(grid.get_neighbors(10, 10).len(), 0);
    // just outside the corner, the corner and its two edge mates exist
    assert_eq!(grid.get_neighbors(-1, -1).len(), 1);
}

#[test]
fn snapshot_is_independent() {
    let mut grid = Grid::new(3, 3);
    set_all(&mut grid, &[(1, 1)]);
    let copy = grid.snapshot();
    grid.set_alive(1, 1, false);
    assert!(copy.get_cell(1, 1).is_alive());
    assert!(!grid.get_cell(1, 1).is_alive());
}
