use blockfall::grid::{Cell, Grid};
use blockfall::piece::Piece;
use blockfall::shape::PieceType;

fn piece(kind: PieceType, x: i32, y: i32, rotation: i32) -> Piece {
    Piece { kind, x, y, rotation }
}

/// The grid columns of the blocks of a piece, smallest and largest.
fn column_span(p: &Piece) -> (i32, i32) {
    let body = p.body();
    let mut lo = i32::MAX;
    let mut hi = i32::MIN;
    for r in 0..4 {
        for c in 0..4 {
            if body[r][c] {
                lo = lo.min(p.x + c as i32 - 2);
                hi = hi.max(p.x + c as i32 - 2);
            }
        }
    }
    (lo, hi)
}

#[test]
fn turn_in_the_open_changes_the_orientation_only() {
    let grid = Grid::new();
    let mut tee = piece(PieceType::TShape, 5, 8, 0);
    tee.rotate(&grid, 1);
    assert_eq!(tee, piece(PieceType::TShape, 5, 8, 1));
    tee.rotate(&grid, -1);
    assert_eq!(tee, piece(PieceType::TShape, 5, 8, 0));
    tee.rotate(&grid, -1);
    assert_eq!(tee, piece(PieceType::TShape, 5, 8, 3));
}

#[test]
fn four_turns_come_back_to_the_start() {
    let grid = Grid::new();
    let kinds = [
        PieceType::Square2x2,
        PieceType::Bar,
        PieceType::TShape,
        PieceType::LBend,
        PieceType::JBend,
        PieceType::SShape,
        PieceType::ZShape,
    ];
    for kind in kinds {
        for rotation in 0..4 {
            for direction in [-1, 1] {
                let start = piece(kind, 5, 8, rotation);
                let mut p = start;
                for step in 1..=4 {
                    p.rotate(&grid, direction);
                    assert_eq!(p.x, 5);
                    assert_eq!(p.y, 8);
                    assert_eq!(p.rotation, (rotation + direction * step).rem_euclid(4));
                }
                assert_eq!(p, start);
            }
        }
    }
}

#[test]
fn bar_spawned_and_turned_upright_at_the_left_wall() {
    let grid = Grid::new();
    let start_row = Piece::spawn(PieceType::Bar).y;
    assert_eq!(start_row, 0);
    // Flat against the left wall: columns 0 to 3.
    let mut bar = piece(PieceType::Bar, 2, start_row, 0);
    bar.rotate(&grid, 1);
    assert_eq!(bar, piece(PieceType::Bar, 2, start_row, 1));
    assert_eq!(column_span(&bar), (2, 2));
    // Upright on column 0, the anchor is at column 0 too.
    let mut upright = piece(PieceType::Bar, 0, start_row, 1);
    assert_eq!(column_span(&upright), (0, 0));
    upright.rotate(&grid, 1);
    assert_eq!(upright, piece(PieceType::Bar, 2, start_row, 2));
    assert_eq!(column_span(&upright), (0, 3));
}

#[test]
fn bar_turned_upright_from_beyond_the_left_wall() {
    let grid = Grid::new();
    // The other upright orientation stands on window column 1.
    let mut bar = piece(PieceType::Bar, 0, 0, 0);
    bar.rotate(&grid, -1);
    assert_eq!(bar, piece(PieceType::Bar, 1, 0, 3));
    assert_eq!(column_span(&bar), (0, 0));
    let mut far = piece(PieceType::Bar, -7, 0, 0);
    far.rotate(&grid, 1);
    assert_eq!(far, piece(PieceType::Bar, 0, 0, 1));
    assert_eq!(column_span(&far), (0, 0));
}

#[test]
fn bar_kicked_off_the_right_wall() {
    let grid = Grid::new();
    // Upright on column 9.
    let mut bar = piece(PieceType::Bar, 9, 5, 1);
    bar.rotate(&grid, 1);
    assert_eq!(bar, piece(PieceType::Bar, 8, 5, 2));
    assert_eq!(column_span(&bar), (6, 9));
    let mut other = piece(PieceType::Bar, 10, 5, 3);
    assert_eq!(column_span(&other), (9, 9));
    other.rotate(&grid, 1);
    assert_eq!(other, piece(PieceType::Bar, 8, 5, 0));
}

#[test]
fn turn_onto_a_landed_block_is_given_up() {
    let mut grid = Grid::new();
    grid.cells[8][6] = Cell::Locked;
    // Upright on column 5, rows 6 to 9. Flat it would lie on row 8,
    // columns 3 to 6.
    let mut bar = piece(PieceType::Bar, 5, 8, 1);
    bar.rotate(&grid, 1);
    assert_eq!(bar, piece(PieceType::Bar, 5, 8, 1));
    grid.cells[8][6] = Cell::Empty;
    bar.rotate(&grid, 1);
    assert_eq!(bar, piece(PieceType::Bar, 5, 8, 2));
}

#[test]
fn turn_below_the_floor_is_given_up() {
    let grid = Grid::new();
    // Flat bar on the bottom row. Upright it would reach rows 18 to 21.
    let mut bar = piece(PieceType::Bar, 5, 20, 0);
    bar.rotate(&grid, 1);
    assert_eq!(bar, piece(PieceType::Bar, 5, 20, 0));
}

#[test]
fn a_turn_given_up_keeps_its_wall_kicks() {
    let mut grid = Grid::new();
    // Upright bar on column 0, rows 6 to 9. Flat it needs two kicks to
    // the right and then lies on row 8, columns 0 to 3.
    grid.cells[8][3] = Cell::Locked;
    let mut bar = piece(PieceType::Bar, 0, 8, 1);
    bar.rotate(&grid, 1);
    assert_eq!(bar, piece(PieceType::Bar, 2, 8, 1));
    assert_eq!(column_span(&bar), (2, 2));
}

#[test]
fn a_cell_looked_at_before_a_kick_is_not_looked_at_again() {
    let mut grid = Grid::new();
    // J at the left wall, upright with its foot to the left:
    //   .X..      cells (r0,c1) (r1,c1) (r2,c0) (r2,c1)
    //   .X..
    //   XX..
    // Anchor (1, 8): the two upper cells are on column 0 and are looked at
    // first, the foot on column -1 then kicks the anchor to 2.
    grid.cells[6][1] = Cell::Locked;
    let mut jay = piece(PieceType::JBend, 1, 8, 2);
    jay.rotate(&grid, 1);
    // After the kick the upper cells lie on column 1, where (6, 1) holds
    // a block, but they were cleared on column 0.
    assert_eq!(jay, piece(PieceType::JBend, 2, 8, 3));
}

#[test]
fn cells_above_the_grid_are_not_checked() {
    let mut grid = Grid::new();
    grid.cells[0][5] = Cell::Locked;
    // Flat bar above the grid, turned upright onto column 5 with rows
    // -3 to 0: row 0 holds a block.
    let mut low = piece(PieceType::Bar, 5, -1, 0);
    low.rotate(&grid, 1);
    assert_eq!(low, piece(PieceType::Bar, 5, -1, 0));
    let mut high = piece(PieceType::Bar, 5, -2, 0);
    high.rotate(&grid, 1);
    assert_eq!(high, piece(PieceType::Bar, 5, -2, 1));
}

#[test]
fn turn_from_an_orientation_out_of_range() {
    let grid = Grid::new();
    let mut odd = piece(PieceType::TShape, 5, 8, 7);
    odd.rotate(&grid, 1);
    assert_eq!(odd, piece(PieceType::TShape, 5, 8, 0));
    let mut neg = piece(PieceType::TShape, 5, 8, -6);
    neg.rotate(&grid, -1);
    assert_eq!(neg, piece(PieceType::TShape, 5, 8, 1));
}

#[test]
fn stamp_draws_the_falling_piece() {
    let mut grid = Grid::new();
    let tee = piece(PieceType::TShape, 5, 8, 0);
    tee.put_on_a_field(&mut grid, false);
    let mark = Cell::Occupied(PieceType::TShape);
    let mut want = Grid::new();
    want.cells[6][4] = mark;
    want.cells[7][3] = mark;
    want.cells[7][4] = mark;
    want.cells[7][5] = mark;
    assert_eq!(grid, want);
}

#[test]
fn stamp_wipes_the_piece_off_its_old_place() {
    let mut grid = Grid::new();
    grid.cells[19][0] = Cell::Locked;
    let mut tee = piece(PieceType::TShape, 5, 8, 0);
    tee.put_on_a_field(&mut grid, false);
    tee.force_move_y(1);
    tee.put_on_a_field(&mut grid, false);
    let mark = Cell::Occupied(PieceType::TShape);
    let mut want = Grid::new();
    want.cells[19][0] = Cell::Locked;
    want.cells[7][4] = mark;
    want.cells[8][3] = mark;
    want.cells[8][4] = mark;
    want.cells[8][5] = mark;
    assert_eq!(grid, want);
}

#[test]
fn stamp_as_landed_leaves_no_type() {
    let mut grid = Grid::new();
    grid.cells[3][3] = Cell::Occupied(PieceType::Bar);
    let square = piece(PieceType::Square2x2, 5, 19, 0);
    square.put_on_a_field(&mut grid, true);
    let mut want = Grid::new();
    want.cells[18][4] = Cell::Locked;
    want.cells[18][5] = Cell::Locked;
    want.cells[19][4] = Cell::Locked;
    want.cells[19][5] = Cell::Locked;
    assert_eq!(grid, want);
}

#[test]
fn stamp_over_a_landed_block_uses_the_mark_of_the_piece() {
    let mut grid = Grid::new();
    grid.cells[18][4] = Cell::Locked;
    grid.cells[17][4] = Cell::Locked;
    let square = piece(PieceType::Square2x2, 5, 19, 0);
    square.put_on_a_field(&mut grid, false);
    assert_eq!(grid.cells[18][4], Cell::Occupied(PieceType::Square2x2));
    assert_eq!(grid.cells[17][4], Cell::Locked);
}

#[test]
fn stamp_leaves_out_what_is_off_the_grid() {
    let mut grid = Grid::new();
    // Upright bar with rows -2 to 1: two blocks are above the grid.
    let bar = piece(PieceType::Bar, 0, 0, 1);
    bar.put_on_a_field(&mut grid, true);
    let mut want = Grid::new();
    want.cells[0][0] = Cell::Locked;
    want.cells[1][0] = Cell::Locked;
    assert_eq!(grid, want);
    // A piece that is nowhere near the grid draws nothing.
    let mut other = Grid::new();
    piece(PieceType::Bar, 40, 40, 0).put_on_a_field(&mut other, true);
    assert_eq!(other, Grid::new());
    piece(PieceType::Bar, i32::MIN, i32::MAX, 0).put_on_a_field(&mut other, true);
    assert_eq!(other, Grid::new());
}
