//! The seven piece types and their orientation tables.
//!
//! Every orientation is authored by hand as a 4×4 pattern. No orientation is
//! derived from another by a geometric rule, and several of them are
//! deliberately shifted inside the window compared to a pure quarter turn.

use vstd::prelude::*;

verus! {

/// The seven kinds of piece.
#[derive(Clone, Copy, Debug, PartialEq, Eq, Hash, Structural)]
pub enum PieceType {
    /// The 2×2 block.
    Square2x2,
    /// The 4-long bar.
    Bar,
    /// Three in a line with a stem in the middle.
    TShape,
    /// Three in a line with a hook at the right end.
    LBend,
    /// Three in a line with a hook at the left end.
    JBend,
    /// Two offset pairs, the upper one to the right.
    SShape,
    /// Two offset pairs, the upper one to the left.
    ZShape,
}

/// A 4×4 occupancy pattern, indexed `[row][column]`, row 0 on top.
pub type Shape = [[bool; 4]; 4];

/// A filled cell of a pattern.
pub const X: bool = true;

/// An empty cell of a pattern.
pub const O: bool = false;

/// The 2×2 block, the same in every orientation.
pub const SQUARE: Shape = [
    [O, O, O, O],
    [O, X, X, O],
    [O, X, X, O],
    [O, O, O, O],
];

/// The bar, first orientation.
pub const BAR_0: Shape = [
    [O, O, O, O],
    [X, X, X, X],
    [O, O, O, O],
    [O, O, O, O],
];

/// The bar, second orientation.
pub const BAR_1: Shape = [
    [O, O, X, O],
    [O, O, X, O],
    [O, O, X, O],
    [O, O, X, O],
];

/// The bar, third orientation.
pub const BAR_2: Shape = [
    [O, O, O, O],
    [O, O, O, O],
    [X, X, X, X],
    [O, O, O, O],
];

/// The bar, fourth orientation.
pub const BAR_3: Shape = [
    [O, X, O, O],
    [O, X, O, O],
    [O, X, O, O],
    [O, X, O, O],
];

/// The tee, first orientation.
pub const TEE_0: Shape = [
    [O, X, O, O],
    [X, X, X, O],
    [O, O, O, O],
    [O, O, O, O],
];

/// The tee, second orientation.
pub const TEE_1: Shape = [
    [O, X, O, O],
    [O, X, X, O],
    [O, X, O, O],
    [O, O, O, O],
];

/// The tee, third orientation.
pub const TEE_2: Shape = [
    [O, O, O, O],
    [X, X, X, O],
    [O, X, O, O],
    [O, O, O, O],
];

/// The tee, fourth orientation.
pub const TEE_3: Shape = [
    [O, X, O, O],
    [X, X, O, O],
    [O, X, O, O],
    [O, O, O, O],
];

/// The jay, first orientation.
pub const JAY_0: Shape = [
    [X, O, O, O],
    [X, X, X, O],
    [O, O, O, O],
    [O, O, O, O],
];

/// The jay, second orientation.
pub const JAY_1: Shape = [
    [O, X, X, O],
    [O, X, O, O],
    [O, X, O, O],
    [O, O, O, O],
];

/// The jay, third orientation.
pub const JAY_2: Shape = [
    [O, O, O, O],
    [X, X, X, O],
    [O, O, X, O],
    [O, O, O, O],
];

/// The jay, fourth orientation.
pub const JAY_3: Shape = [
    [O, X, O, O],
    [O, X, O, O],
    [X, X, O, O],
    [O, O, O, O],
];

/// The zed, first orientation.
pub const ZED_0: Shape = [
    [X, X, O, O],
    [O, X, X, O],
    [O, O, O, O],
    [O, O, O, O],
];

/// The zed, second orientation.
pub const ZED_1: Shape = [
    [O, O, X, O],
    [O, X, X, O],
    [O, X, O, O],
    [O, O, O, O],
];

/// The zed, third orientation.
pub const ZED_2: Shape = [
    [O, O, O, O],
    [X, X, O, O],
    [O, X, X, O],
    [O, O, O, O],
];

/// The zed, fourth orientation.
pub const ZED_3: Shape = [
    [O, X, O, O],
    [X, X, O, O],
    [X, O, O, O],
    [O, O, O, O],
];

/// The ell, first orientation.
pub const ELL_0: Shape = [
    [O, O, X, O],
    [X, X, X, O],
    [O, O, O, O],
    [O, O, O, O],
];

/// The ell, second orientation.
pub const ELL_1: Shape = [
    [O, X, O, O],
    [O, X, O, O],
    [O, X, X, O],
    [O, O, O, O],
];

/// The ell, third orientation.
pub const ELL_2: Shape = [
    [O, O, O, O],
    [X, X, X, O],
    [X, O, O, O],
    [O, O, O, O],
];

/// The ell, fourth orientation.
pub const ELL_3: Shape = [
    [X, X, O, O],
    [O, X, O, O],
    [O, X, O, O],
    [O, O, O, O],
];

/// The ess, first orientation.
pub const ESS_0: Shape = [
    [O, X, X, O],
    [X, X, O, O],
    [O, O, O, O],
    [O, O, O, O],
];

/// The ess, second orientation.
pub const ESS_1: Shape = [
    [O, X, O, O],
    [O, X, X, O],
    [O, O, X, O],
    [O, O, O, O],
];

/// The ess, third orientation.
pub const ESS_2: Shape = [
    [O, O, O, O],
    [O, X, X, O],
    [X, X, O, O],
    [O, O, O, O],
];

/// The ess, fourth orientation.
pub const ESS_3: Shape = [
    [X, O, O, O],
    [X, X, O, O],
    [O, X, O, O],
    [O, O, O, O],
];

/// The pattern of a piece type in one of its four orientations.
///
/// A rotation index outside `0..=3` has no pattern of its own and gets the
/// 2×2 block.
pub open spec fn shape_of(kind: PieceType, rotation: int) -> Shape {
    match kind {
        PieceType::Square2x2 => SQUARE,
        PieceType::Bar => if rotation == 0 {
            BAR_0
        } else if rotation == 1 {
            BAR_1
        } else if rotation == 2 {
            BAR_2
        } else if rotation == 3 {
            BAR_3
        } else {
            SQUARE
        },
        PieceType::TShape => if rotation == 0 {
            TEE_0
        } else if rotation == 1 {
            TEE_1
        } else if rotation == 2 {
            TEE_2
        } else if rotation == 3 {
            TEE_3
        } else {
            SQUARE
        },
        PieceType::JBend => if rotation == 0 {
            JAY_0
        } else if rotation == 1 {
            JAY_1
        } else if rotation == 2 {
            JAY_2
        } else if rotation == 3 {
            JAY_3
        } else {
            SQUARE
        },
        PieceType::ZShape => if rotation == 0 {
            ZED_0
        } else if rotation == 1 {
            ZED_1
        } else if rotation == 2 {
            ZED_2
        } else if rotation == 3 {
            ZED_3
        } else {
            SQUARE
        },
        PieceType::LBend => if rotation == 0 {
            ELL_0
        } else if rotation == 1 {
            ELL_1
        } else if rotation == 2 {
            ELL_2
        } else if rotation == 3 {
            ELL_3
        } else {
            SQUARE
        },
        PieceType::SShape => if rotation == 0 {
            ESS_0
        } else if rotation == 1 {
            ESS_1
        } else if rotation == 2 {
            ESS_2
        } else if rotation == 3 {
            ESS_3
        } else {
            SQUARE
        },
    }
}

/// Whether the pattern has a filled cell at `(r, c)`. Outside the window
/// nothing is filled.
pub open spec fn filled(shape: Shape, r: int, c: int) -> bool {
    0 <= r < 4 && 0 <= c < 4 && shape[r][c]
}

/// The leftmost filled column of a pattern row, if the row has a filled
/// cell.
pub open spec fn first_filled(row: [bool; 4]) -> Option<int> {
    if row[0] {
        Some(0)
    } else if row[1] {
        Some(1)
    } else if row[2] {
        Some(2)
    } else if row[3] {
        Some(3)
    } else {
        None
    }
}

/// The rightmost filled column of a pattern row, if the row has a filled
/// cell.
pub open spec fn last_filled(row: [bool; 4]) -> Option<int> {
    if row[3] {
        Some(3)
    } else if row[2] {
        Some(2)
    } else if row[1] {
        Some(1)
    } else if row[0] {
        Some(0)
    } else {
        None
    }
}

/// The lowest filled row of pattern column `c`, if the column has a filled
/// cell.
pub open spec fn lowest_filled(shape: Shape, c: int) -> Option<int> {
    if shape[3][c] {
        Some(3)
    } else if shape[2][c] {
        Some(2)
    } else if shape[1][c] {
        Some(1)
    } else if shape[0][c] {
        Some(0)
    } else {
        None
    }
}

/// The number of filled cells in one pattern row.
pub open spec fn row_count(row: [bool; 4]) -> nat {
    (if row[0] { 1nat } else { 0nat }) + (if row[1] { 1nat } else { 0nat })
        + (if row[2] { 1nat } else { 0nat }) + (if row[3] { 1nat } else { 0nat })
}

/// The number of filled cells in a pattern.
pub open spec fn filled_count(shape: Shape) -> nat {
    row_count(shape[0]) + row_count(shape[1]) + row_count(shape[2]) + row_count(shape[3])
}

/// The pattern of a piece type in one of its four orientations; the 2×2
/// block for a rotation index outside `0..=3`.
pub fn shape(kind: PieceType, rotation: i32) -> (res: Shape)
    ensures
        res == shape_of(kind, rotation as int),
{
    match kind {
        PieceType::Square2x2 => SQUARE,
        PieceType::Bar => match rotation {
            0 => BAR_0,
            1 => BAR_1,
            2 => BAR_2,
            3 => BAR_3,
            _ => SQUARE,
        },
        PieceType::TShape => match rotation {
            0 => TEE_0,
            1 => TEE_1,
            2 => TEE_2,
            3 => TEE_3,
            _ => SQUARE,
        },
        PieceType::JBend => match rotation {
            0 => JAY_0,
            1 => JAY_1,
            2 => JAY_2,
            3 => JAY_3,
            _ => SQUARE,
        },
        PieceType::ZShape => match rotation {
            0 => ZED_0,
            1 => ZED_1,
            2 => ZED_2,
            3 => ZED_3,
            _ => SQUARE,
        },
        PieceType::LBend => match rotation {
            0 => ELL_0,
            1 => ELL_1,
            2 => ELL_2,
            3 => ELL_3,
            _ => SQUARE,
        },
        PieceType::SShape => match rotation {
            0 => ESS_0,
            1 => ESS_1,
            2 => ESS_2,
            3 => ESS_3,
            _ => SQUARE,
        },
    }
}

/// The orientation one turn away from `rotation`: `direction` is added and
/// the sum is wrapped into `0..=3`.
pub open spec fn turned(rotation: int, direction: int) -> int {
    (rotation + direction) % 4
}

/// The orientation one turn away from `rotation`, wrapped into `0..=3`.
pub fn turn(rotation: i32, direction: i32) -> (next: i32)
    ensures
        next == turned(rotation as int, direction as int),
        0 <= next <= 3,
{
    let sum: i64 = rotation as i64 + direction as i64;
    let rem: i64 = sum % 4;
    if rem < 0 {
        (rem + 4) as i32
    } else {
        rem as i32
    }
}

/// Scans row `r` of a pattern from the left and gives the column of the
/// first filled cell met.
pub fn leftmost_in_row(shape: &Shape, r: usize) -> (res: Option<usize>)
    requires
        r < 4,
    ensures
        res matches Some(c) ==> first_filled(shape[r as int]) == Some(c as int),
        res is None ==> first_filled(shape[r as int]) is None,
{
    let mut c: usize = 0;
    while c < 4
        invariant
            r < 4,
            c <= 4,
            forall|k: int| 0 <= k < c ==> !shape[r as int][k],
        decreases 4 - c,
    {
        if shape[r][c] {
            return Some(c);
        }
        c += 1;
    }
    None
}

/// Scans row `r` of a pattern from the right and gives the column of the
/// first filled cell met.
pub fn rightmost_in_row(shape: &Shape, r: usize) -> (res: Option<usize>)
    requires
        r < 4,
    ensures
        res matches Some(c) ==> last_filled(shape[r as int]) == Some(c as int),
        res is None ==> last_filled(shape[r as int]) is None,
{
    let mut c: usize = 4;
    while c > 0
        invariant
            r < 4,
            c <= 4,
            forall|k: int| c <= k < 4 ==> !shape[r as int][k],
        decreases c,
    {
        c -= 1;
        if shape[r][c] {
            return Some(c);
        }
    }
    None
}

/// Scans column `c` of a pattern from the bottom and gives the row of the
/// first filled cell met.
pub fn lowest_in_column(shape: &Shape, c: usize) -> (res: Option<usize>)
    requires
        c < 4,
    ensures
        res matches Some(r) ==> lowest_filled(*shape, c as int) == Some(r as int),
        res is None ==> lowest_filled(*shape, c as int) is None,
{
    let mut r: usize = 4;
    while r > 0
        invariant
            c < 4,
            r <= 4,
            forall|k: int| r <= k < 4 ==> !shape[k][c as int],
        decreases r,
    {
        r -= 1;
        if shape[r][c] {
            return Some(r);
        }
    }
    None
}

/// Every pattern, of every type in every orientation, has exactly four
/// filled cells.
pub proof fn lemma_four_cells(kind: PieceType, rotation: int)
    ensures
        filled_count(shape_of(kind, rotation)) == 4,
{
}

} // verus!
