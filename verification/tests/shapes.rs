use blockfall::shape::{
    leftmost_in_row, lowest_in_column, rightmost_in_row, shape, turn, PieceType, Shape,
};

const ALL_TYPES: [PieceType; 7] = [
    PieceType::Square2x2,
    PieceType::Bar,
    PieceType::TShape,
    PieceType::LBend,
    PieceType::JBend,
    PieceType::SShape,
    PieceType::ZShape,
];

/// Reads a pattern drawn with `X` for a filled cell and `.` for an empty one.
fn drawn(rows: [&str; 4]) -> Shape {
    let mut out = [[false; 4]; 4];
    for (r, line) in rows.iter().enumerate() {
        assert_eq!(line.len(), 4);
        for (c, ch) in line.chars().enumerate() {
            out[r][c] = ch == 'X';
        }
    }
    out
}

fn count(shape: &Shape) -> usize {
    shape.iter().map(|row| row.iter().filter(|cell| **cell).count()).sum()
}

#[test]
fn square_is_the_same_in_every_orientation() {
    let want = drawn(["....", ".XX.", ".XX.", "...."]);
    for rotation in 0..4 {
        assert_eq!(shape(PieceType::Square2x2, rotation), want);
    }
}

#[test]
fn bar_patterns() {
    assert_eq!(shape(PieceType::Bar, 0), drawn(["....", "XXXX", "....", "...."]));
    assert_eq!(shape(PieceType::Bar, 1), drawn(["..X.", "..X.", "..X.", "..X."]));
    assert_eq!(shape(PieceType::Bar, 2), drawn(["....", "....", "XXXX", "...."]));
    assert_eq!(shape(PieceType::Bar, 3), drawn([".X..", ".X..", ".X..", ".X.."]));
}

#[test]
fn tee_patterns() {
    assert_eq!(shape(PieceType::TShape, 0), drawn([".X..", "XXX.", "....", "...."]));
    assert_eq!(shape(PieceType::TShape, 1), drawn([".X..", ".XX.", ".X..", "...."]));
    assert_eq!(shape(PieceType::TShape, 2), drawn(["....", "XXX.", ".X..", "...."]));
    assert_eq!(shape(PieceType::TShape, 3), drawn([".X..", "XX..", ".X..", "...."]));
}

#[test]
fn jay_patterns() {
    assert_eq!(shape(PieceType::JBend, 0), drawn(["X...", "XXX.", "....", "...."]));
    assert_eq!(shape(PieceType::JBend, 1), drawn([".XX.", ".X..", ".X..", "...."]));
    assert_eq!(shape(PieceType::JBend, 2), drawn(["....", "XXX.", "..X.", "...."]));
    assert_eq!(shape(PieceType::JBend, 3), drawn([".X..", ".X..", "XX..", "...."]));
}

#[test]
fn zed_patterns() {
    assert_eq!(shape(PieceType::ZShape, 0), drawn(["XX..", ".XX.", "....", "...."]));
    assert_eq!(shape(PieceType::ZShape, 1), drawn(["..X.", ".XX.", ".X..", "...."]));
    assert_eq!(shape(PieceType::ZShape, 2), drawn(["....", "XX..", ".XX.", "...."]));
    assert_eq!(shape(PieceType::ZShape, 3), drawn([".X..", "XX..", "X...", "...."]));
}

#[test]
fn ell_patterns() {
    assert_eq!(shape(PieceType::LBend, 0), drawn(["..X.", "XXX.", "....", "...."]));
    assert_eq!(shape(PieceType::LBend, 1), drawn([".X..", ".X..", ".XX.", "...."]));
    assert_eq!(shape(PieceType::LBend, 2), drawn(["....", "XXX.", "X...", "...."]));
    assert_eq!(shape(PieceType::LBend, 3), drawn(["XX..", ".X..", ".X..", "...."]));
}

#[test]
fn ess_patterns() {
    assert_eq!(shape(PieceType::SShape, 0), drawn([".XX.", "XX..", "....", "...."]));
    assert_eq!(shape(PieceType::SShape, 1), drawn([".X..", ".XX.", "..X.", "...."]));
    assert_eq!(shape(PieceType::SShape, 2), drawn(["....", ".XX.", "XX..", "...."]));
    assert_eq!(shape(PieceType::SShape, 3), drawn(["X...", "XX..", ".X..", "...."]));
}

#[test]
fn every_pattern_has_four_cells() {
    for kind in ALL_TYPES {
        for rotation in -3..8 {
            assert_eq!(count(&shape(kind, rotation)), 4, "{:?} at {}", kind, rotation);
        }
    }
}

#[test]
fn rotation_out_of_range_gives_the_square() {
    let square = drawn(["....", ".XX.", ".XX.", "...."]);
    for kind in ALL_TYPES {
        for rotation in [-1, 4, 5, 100, i32::MIN, i32::MAX] {
            assert_eq!(shape(kind, rotation), square);
        }
    }
}

#[test]
fn shape_is_stable_across_calls() {
    for kind in ALL_TYPES {
        for rotation in 0..4 {
            let first = shape(kind, rotation);
            for _ in 0..5 {
                assert_eq!(shape(kind, rotation), first);
            }
        }
    }
}

#[test]
fn turn_wraps_into_four_orientations() {
    assert_eq!(turn(0, 1), 1);
    assert_eq!(turn(1, 1), 2);
    assert_eq!(turn(2, 1), 3);
    assert_eq!(turn(3, 1), 0);
    assert_eq!(turn(0, -1), 3);
    assert_eq!(turn(1, -1), 0);
    assert_eq!(turn(2, -1), 1);
    assert_eq!(turn(3, -1), 2);
}

#[test]
fn turn_outside_the_usual_values() {
    assert_eq!(turn(0, 0), 0);
    assert_eq!(turn(0, 2), 2);
    assert_eq!(turn(0, -2), 2);
    assert_eq!(turn(3, 5), 0);
    assert_eq!(turn(-6, -1), 1);
    assert_eq!(turn(7, 1), 0);
    assert_eq!(turn(i32::MAX, i32::MAX), 2);
    assert_eq!(turn(i32::MIN, i32::MIN), 0);
}

#[test]
fn edges_of_a_row() {
    let tee = shape(PieceType::TShape, 0);
    assert_eq!(leftmost_in_row(&tee, 0), Some(1));
    assert_eq!(rightmost_in_row(&tee, 0), Some(1));
    assert_eq!(leftmost_in_row(&tee, 1), Some(0));
    assert_eq!(rightmost_in_row(&tee, 1), Some(2));
    assert_eq!(leftmost_in_row(&tee, 2), None);
    assert_eq!(rightmost_in_row(&tee, 3), None);
    let bar = shape(PieceType::Bar, 0);
    assert_eq!(leftmost_in_row(&bar, 1), Some(0));
    assert_eq!(rightmost_in_row(&bar, 1), Some(3));
}

#[test]
fn lower_edge_of_a_column() {
    let ell = shape(PieceType::LBend, 1);
    assert_eq!(lowest_in_column(&ell, 0), None);
    assert_eq!(lowest_in_column(&ell, 1), Some(2));
    assert_eq!(lowest_in_column(&ell, 2), Some(2));
    assert_eq!(lowest_in_column(&ell, 3), None);
    let bar = shape(PieceType::Bar, 3);
    assert_eq!(lowest_in_column(&bar, 1), Some(3));
}
