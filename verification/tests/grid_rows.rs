use blockfall::grid::{Cell, Grid};
use blockfall::shape::PieceType;

fn fill_row(grid: &mut Grid, y: usize) {
    for x in 0..10 {
        grid.cells[y][x] = Cell::Locked;
    }
}

#[test]
fn new_grid_is_empty() {
    let grid = Grid::new();
    for y in 0..20 {
        for x in 0..10 {
            assert_eq!(grid.cells[y][x], Cell::Empty);
        }
    }
}

#[test]
fn is_locked_answers_false_outside_the_grid() {
    let mut grid = Grid::new();
    fill_row(&mut grid, 0);
    fill_row(&mut grid, 19);
    assert!(grid.is_locked(0, 0));
    assert!(grid.is_locked(19, 9));
    assert!(!grid.is_locked(-1, 0));
    assert!(!grid.is_locked(20, 0));
    assert!(!grid.is_locked(0, -1));
    assert!(!grid.is_locked(0, 10));
    assert!(!grid.is_locked(i64::MIN, i64::MAX));
}

#[test]
fn is_locked_tells_landed_from_falling() {
    let mut grid = Grid::new();
    grid.cells[4][3] = Cell::Locked;
    grid.cells[4][4] = Cell::Occupied(PieceType::Bar);
    assert!(grid.is_locked(4, 3));
    assert!(!grid.is_locked(4, 4));
    assert!(!grid.is_locked(4, 5));
}

#[test]
fn row_is_full_only_with_ten_landed_blocks() {
    let mut grid = Grid::new();
    fill_row(&mut grid, 7);
    assert!(grid.is_row_full(7));
    assert!(!grid.is_row_full(6));
    grid.cells[7][9] = Cell::Empty;
    assert!(!grid.is_row_full(7));
    grid.cells[7][9] = Cell::Occupied(PieceType::TShape);
    assert!(!grid.is_row_full(7));
    grid.cells[7][9] = Cell::Locked;
    assert!(grid.is_row_full(7));
}

#[test]
fn collapse_moves_the_rows_above_down_by_one() {
    let mut grid = Grid::new();
    grid.cells[0][0] = Cell::Locked;
    grid.cells[1][1] = Cell::Locked;
    grid.cells[2][2] = Cell::Occupied(PieceType::Bar);
    fill_row(&mut grid, 3);
    grid.cells[4][4] = Cell::Locked;
    let before = grid;
    grid.collapse_row(3);
    assert_eq!(grid.cells[0], [Cell::Empty; 10]);
    assert_eq!(grid.cells[1], before.cells[0]);
    assert_eq!(grid.cells[2], before.cells[1]);
    assert_eq!(grid.cells[3], before.cells[2]);
    for y in 4..20 {
        assert_eq!(grid.cells[y], before.cells[y]);
    }
}

#[test]
fn collapse_of_the_top_row_empties_it() {
    let mut grid = Grid::new();
    fill_row(&mut grid, 0);
    grid.cells[1][5] = Cell::Locked;
    let before = grid;
    grid.collapse_row(0);
    assert_eq!(grid.cells[0], [Cell::Empty; 10]);
    for y in 1..20 {
        assert_eq!(grid.cells[y], before.cells[y]);
    }
}

#[test]
fn clearing_an_empty_grid_counts_nothing() {
    let mut grid = Grid::new();
    assert_eq!(grid.clear_full_rows(), 0);
    assert_eq!(grid, Grid::new());
}

#[test]
fn clearing_the_bottom_row_shifts_every_other_row() {
    let mut grid = Grid::new();
    fill_row(&mut grid, 19);
    grid.cells[18][0] = Cell::Locked;
    grid.cells[18][9] = Cell::Locked;
    grid.cells[17][4] = Cell::Locked;
    grid.cells[5][2] = Cell::Locked;
    let before = grid;
    assert_eq!(grid.clear_full_rows(), 1);
    assert_eq!(grid.cells[0], [Cell::Empty; 10]);
    for y in 1..20 {
        assert_eq!(grid.cells[y], before.cells[y - 1]);
    }
}

#[test]
fn clearing_four_rows_at_once() {
    let mut grid = Grid::new();
    for y in 16..20 {
        fill_row(&mut grid, y);
    }
    grid.cells[15][3] = Cell::Locked;
    grid.cells[14][7] = Cell::Locked;
    let before = grid;
    assert_eq!(grid.clear_full_rows(), 4);
    for y in 0..4 {
        assert_eq!(grid.cells[y], [Cell::Empty; 10]);
    }
    for y in 4..20 {
        assert_eq!(grid.cells[y], before.cells[y - 4]);
    }
}

#[test]
fn clearing_rows_that_are_apart() {
    let mut grid = Grid::new();
    fill_row(&mut grid, 19);
    grid.cells[18][1] = Cell::Locked;
    fill_row(&mut grid, 17);
    grid.cells[16][2] = Cell::Locked;
    grid.cells[15][3] = Cell::Occupied(PieceType::ZShape);
    fill_row(&mut grid, 10);
    let before = grid;
    assert_eq!(grid.clear_full_rows(), 3);
    assert_eq!(grid.cells[19], before.cells[18]);
    assert_eq!(grid.cells[18], before.cells[16]);
    assert_eq!(grid.cells[17], before.cells[15]);
    assert_eq!(grid.cells[16], before.cells[14]);
    assert_eq!(grid.cells[13], before.cells[11]);
    assert_eq!(grid.cells[12], before.cells[9]);
    for y in 0..3 {
        assert_eq!(grid.cells[y], [Cell::Empty; 10]);
    }
    assert_eq!(grid.cells[3], before.cells[0]);
}

#[test]
fn clearing_a_grid_that_is_all_full() {
    let mut grid = Grid::new();
    for y in 0..20 {
        fill_row(&mut grid, y);
    }
    assert_eq!(grid.clear_full_rows(), 20);
    assert_eq!(grid, Grid::new());
}

#[test]
fn a_row_with_a_falling_block_is_not_cleared() {
    let mut grid = Grid::new();
    fill_row(&mut grid, 19);
    grid.cells[19][4] = Cell::Occupied(PieceType::Square2x2);
    let before = grid;
    assert_eq!(grid.clear_full_rows(), 0);
    assert_eq!(grid, before);
}

#[test]
fn top_row_check_sees_landed_blocks_only() {
    let mut grid = Grid::new();
    assert!(!grid.top_row_has_locked());
    grid.cells[0][3] = Cell::Occupied(PieceType::Bar);
    assert!(!grid.top_row_has_locked());
    grid.cells[1][3] = Cell::Locked;
    assert!(!grid.top_row_has_locked());
    grid.cells[0][9] = Cell::Locked;
    assert!(grid.top_row_has_locked());
}
