//! The falling piece: where it is, how it is turned, and what it may do
//! against a grid.

use crate::grid::{locked_at, Board, Cell, Grid};
use crate::shape::{
    filled, first_filled, last_filled, leftmost_in_row, lowest_filled, lowest_in_column,
    rightmost_in_row, shape, shape_of, turn, turned, PieceType, Shape,
};
use crate::source::{can_be_drawn, next_piece_type};
use vstd::prelude::*;

verus! {

/// A piece on, or about to enter, the grid.
///
/// The anchor `(x, y)` is the centre of the 4×4 window the pattern is drawn
/// in: window cell `(r, c)` lies on grid row `y + r - 2` and grid column
/// `x + c - 2`.
#[derive(Clone, Copy, Debug, PartialEq, Eq, Structural)]
pub struct Piece {
    /// The type of the piece.
    pub kind: PieceType,
    /// Grid column of the anchor.
    pub x: i32,
    /// Grid row of the anchor.
    pub y: i32,
    /// The orientation, `0..=3`.
    pub rotation: i32,
}

// Where the piece is.
impl Piece {
    /// The pattern of the piece as it is turned now.
    pub open spec fn shape(self) -> Shape {
        shape_of(self.kind, self.rotation as int)
    }

    /// The grid row of window row `r`.
    pub open spec fn row(self, r: int) -> int {
        self.y + r - 2
    }

    /// The grid column of window column `c`.
    pub open spec fn col(self, c: int) -> int {
        self.x + c - 2
    }

    /// Whether the piece has a block at grid position `(row, col)`.
    pub open spec fn covers(self, row: int, col: int) -> bool {
        filled(self.shape(), row - self.y + 2, col - self.x + 2)
    }

    /// Every block of the piece lies in one of the ten columns of the grid.
    pub open spec fn within_walls(self) -> bool {
        forall|r: int, c: int| #[trigger] filled(self.shape(), r, c) ==> 0 <= self.col(c) < 10
    }

    /// No block of the piece lies below the bottom row of the grid.
    pub open spec fn above_floor(self) -> bool {
        forall|r: int, c: int| #[trigger] filled(self.shape(), r, c) ==> self.row(r) < 20
    }

    /// The piece lies on the playing field: between the walls and above
    /// the floor. It may reach over the top.
    pub open spec fn in_field(self) -> bool {
        self.within_walls() && self.above_floor()
    }

    /// The piece moved sideways by `dx` columns.
    pub open spec fn shifted(self, dx: int) -> Piece {
        Piece { x: (self.x + dx) as i32, ..self }
    }

    /// The piece moved down by `dy` rows.
    pub open spec fn lowered(self, dy: int) -> Piece {
        Piece { y: (self.y + dy) as i32, ..self }
    }

    /// The piece turned by `direction`, where it is.
    pub open spec fn turned_by(self, direction: int) -> Piece {
        Piece { rotation: turned(self.rotation as int, direction) as i32, ..self }
    }

    /// The row a piece of the given type enters at. The bar enters one row
    /// higher than the others, as its blocks sit lower in its window.
    pub open spec fn start_row(kind: PieceType) -> int {
        if kind == PieceType::Bar {
            0
        } else {
            1
        }
    }

    /// A piece of the given type as it enters: anchor column 5, its start
    /// row, first orientation.
    pub open spec fn spawned(kind: PieceType) -> Piece {
        Piece { kind, x: 5, y: Self::start_row(kind) as i32, rotation: 0 }
    }
}

// Moving sideways.
impl Piece {
    /// Whether window row `r` stops a move to the left: the cell left of
    /// the leftmost block of that row is beyond the wall or holds a landed
    /// block. A row without blocks stops nothing, and above the grid
    /// nothing is locked.
    pub open spec fn left_edge_blocked(self, board: Board, r: int) -> bool {
        match first_filled(self.shape()[r]) {
            Some(c) => self.col(c) - 1 < 0 || locked_at(board, self.row(r), self.col(c) - 1),
            None => false,
        }
    }

    /// Whether window row `r` stops a move to the right: the cell right of
    /// the rightmost block of that row is beyond the wall or holds a landed
    /// block.
    pub open spec fn right_edge_blocked(self, board: Board, r: int) -> bool {
        match last_filled(self.shape()[r]) {
            Some(c) => self.col(c) + 1 >= 10 || locked_at(board, self.row(r), self.col(c) + 1),
            None => false,
        }
    }

    /// Whether a sideways move in the direction of `delta` is stopped.
    ///
    /// Only the outer edge of each window row is looked at, the left one
    /// for a negative `delta` and the right one for a positive `delta`. A
    /// move by 0 is never stopped.
    pub open spec fn blocked(self, board: Board, delta: int) -> bool {
        if delta < 0 {
            exists|r: int| 0 <= r < 4 && self.left_edge_blocked(board, r)
        } else if delta > 0 {
            exists|r: int| 0 <= r < 4 && self.right_edge_blocked(board, r)
        } else {
            false
        }
    }

    /// The piece after an attempt to move it sideways by `delta` columns:
    /// moved where nothing stops the move, else as it was.
    pub open spec fn moved(self, board: Board, delta: int) -> Piece {
        if self.blocked(board, delta) {
            self
        } else {
            self.shifted(delta)
        }
    }
}

// Moving down.
impl Piece {
    /// Whether window column `c` rests on something: the cell under the
    /// lowest block of that column is below the bottom row or holds a
    /// landed block. A column without blocks, one left of the grid, and
    /// one whose lowest block is still two rows or more above the grid,
    /// rest on nothing.
    pub open spec fn column_rests(self, board: Board, c: int) -> bool {
        match lowest_filled(self.shape(), c) {
            Some(r) => {
                let below = self.row(r) + 1;
                self.col(c) >= 0 && below >= 0 && (below >= 20 || locked_at(
                    board,
                    below,
                    self.col(c),
                ))
            },
            None => false,
        }
    }

    /// Whether the piece has room to move down one row: none of its window
    /// columns rests on anything.
    pub open spec fn can_descend(self, board: Board) -> bool {
        forall|c: int| 0 <= c < 4 ==> !self.column_rests(board, c)
    }

    /// Whether the piece can make `n` steps down in a row, one row each.
    pub open spec fn falls_freely(self, board: Board, n: int) -> bool {
        forall|k: int| 0 <= k < n ==> (#[trigger] self.lowered(k)).can_descend(board)
    }

    /// Whether the piece lands after falling exactly `n` rows: it has room
    /// for each of the `n` steps and none for one more.
    pub open spec fn lands_after(self, board: Board, n: int) -> bool {
        &&& n >= 0
        &&& self.falls_freely(board, n)
        &&& !self.lowered(n).can_descend(board)
    }

    /// The number of rows the piece falls before it lands.
    pub open spec fn drop_depth(self, board: Board) -> int {
        choose|n: int| self.lands_after(board, n)
    }

    /// The piece where it lands when it is let fall.
    pub open spec fn dropped(self, board: Board) -> Piece {
        self.lowered(self.drop_depth(board))
    }
}

// Turning.
/// The anchor column after a piece at anchor column `x` is nudged, one
/// column at a time, until its window column `c` lies between the walls.
pub open spec fn kicked(x: int, c: int) -> int {
    if x + c - 2 < 0 {
        2 - c
    } else if x + c - 2 >= 10 {
        11 - c
    } else {
        x
    }
}

/// How many nudges window column `c` of a piece at anchor column `x` is
/// away from the space between the walls.
pub open spec fn kick_distance(x: int, c: int) -> int {
    if x + c - 2 < 0 {
        -(x + c - 2)
    } else if x + c - 2 >= 10 {
        x + c - 2 - 9
    } else {
        0
    }
}

/// What an attempt to turn a piece comes to.
pub struct Attempt {
    /// The anchor column after the wall kicks made during the attempt.
    pub x: int,
    /// Whether every block of the turned piece found room.
    pub fits: bool,
}

/// The outcome of looking over the cells of the turned pattern `cand` in
/// reading order, from window cell `(r, c)` on, with the anchor at
/// `(x, y)`.
///
/// Each filled cell first kicks the anchor sideways until the cell lies
/// between the walls. A cell above the grid is then passed over. A cell
/// below the bottom row, or on a landed block, ends the attempt at once,
/// with the kicks made so far kept. Cells looked at earlier are not looked
/// at again after a later kick.
pub open spec fn kick_scan(cand: Shape, board: Board, x: int, y: int, r: int, c: int) -> Attempt
    decreases 4 - r, 4 - c,
{
    if r < 0 || r >= 4 || c < 0 {
        Attempt { x, fits: true }
    } else if c >= 4 {
        kick_scan(cand, board, x, y, r + 1, 0)
    } else if !cand[r][c] {
        kick_scan(cand, board, x, y, r, c + 1)
    } else {
        let nx = kicked(x, c);
        let row = y + r - 2;
        let col = nx + c - 2;
        if row >= 0 && (row >= 20 || locked_at(board, row, col)) {
            Attempt { x: nx, fits: false }
        } else {
            kick_scan(cand, board, nx, y, r, c + 1)
        }
    }
}

impl Piece {
    /// The piece after an attempt to turn it once in `direction`.
    ///
    /// The anchor column is the one the wall kicks of the attempt left it
    /// at, whether the attempt was given up or not. The orientation is the
    /// next one where the turned piece found room and the old one where it
    /// did not.
    pub open spec fn rotated(self, board: Board, direction: int) -> Piece {
        let next = turned(self.rotation as int, direction);
        let attempt = kick_scan(
            shape_of(self.kind, next),
            board,
            self.x as int,
            self.y as int,
            0,
            0,
        );
        Piece {
            kind: self.kind,
            x: attempt.x as i32,
            y: self.y,
            rotation: if attempt.fits {
                next as i32
            } else {
                self.rotation
            },
        }
    }

    /// The piece has room where it is: each of its blocks lies between
    /// the walls and either above the grid or on a cell of the grid that
    /// holds no landed block.
    pub open spec fn has_room(self, board: Board) -> bool {
        forall|r: int, c: int| #[trigger]
            filled(self.shape(), r, c) ==> 0 <= self.col(c) < 10 && (self.row(r) < 0 || (
            self.row(r) < 20 && !locked_at(board, self.row(r), self.col(c))))
    }
}

// Stamping on the grid.
/// A cell with whatever is not a landed block wiped off it.
pub open spec fn settled(cell: Cell) -> Cell {
    if cell == Cell::Locked {
        Cell::Locked
    } else {
        Cell::Empty
    }
}

/// What a grid cell holds while the grid is wiped of all but its landed
/// blocks, once the cells before `(y, x)` in reading order are done.
/// `before` is what the cell held at first.
pub open spec fn partly_wiped(before: Cell, row: int, col: int, y: int, x: int) -> Cell {
    if reads_before(row, col, y, x) {
        settled(before)
    } else {
        before
    }
}

/// Whether cell `(wr, wc)` comes before cell `(r, c)` in reading order.
pub open spec fn reads_before(wr: int, wc: int, r: int, c: int) -> bool {
    wr < r || (wr == r && wc < c)
}

/// Every filled cell of `cand` that comes before window cell `(r, c)` in
/// reading order lies between the walls and above the floor, with the
/// anchor at `(x, y)`.
pub open spec fn placed_before(cand: Shape, x: int, y: int, r: int, c: int) -> bool {
    forall|wr: int, wc: int| #[trigger]
        filled(cand, wr, wc) && reads_before(wr, wc, r, c) ==> 0 <= x + wc - 2 < 10 && y + wr - 2
            < 20
}

impl Piece {
    /// What a grid cell holds while the piece is stamped on a grid wiped of
    /// all but its landed blocks, once the window cells before `(r, c)` in
    /// reading order are written. `before` is what the cell held at first.
    pub open spec fn partly_stamped(
        self,
        before: Cell,
        row: int,
        col: int,
        r: int,
        c: int,
        as_locked: bool,
    ) -> Cell {
        if self.covers(row, col) && reads_before(row - self.y + 2, col - self.x + 2, r, c) {
            self.mark(as_locked)
        } else {
            settled(before)
        }
    }

    /// What the piece draws on a cell it covers: a landed block where
    /// `as_locked` is set, else a block of its own type.
    pub open spec fn mark(self, as_locked: bool) -> Cell {
        if as_locked {
            Cell::Locked
        } else {
            Cell::Occupied(self.kind)
        }
    }

    /// The board after the piece is stamped on it.
    ///
    /// A cell the piece covers holds the mark of the piece. Every other
    /// cell keeps a landed block and is empty otherwise.
    pub open spec fn stamped(self, board: Board, as_locked: bool) -> Board {
        Seq::new(
            board.len(),
            |row: int|
                Seq::new(
                    board[row].len(),
                    |col: int|
                        if self.covers(row, col) {
                            self.mark(as_locked)
                        } else {
                            settled(board[row][col])
                        },
                ),
        )
    }
}

impl Piece {
    /// A piece of the given type as it enters the grid.
    pub fn spawn(kind: PieceType) -> (piece: Piece)
        ensures
            piece == Piece::spawned(kind),
    {
        Piece {
            kind,
            x: 5,
            y: match kind {
                PieceType::Bar => 0,
                _ => 1,
            },
            rotation: 0,
        }
    }

    /// A piece of a type drawn at random, as it enters the grid.
    pub fn new() -> (piece: Piece)
        ensures
            can_be_drawn(piece.kind),
            piece == Piece::spawned(piece.kind),
    {
        Piece::spawn(next_piece_type())
    }

    /// The 4×4 pattern of the piece as it is turned now. An orientation
    /// outside `0..=3` gives the 2×2 block.
    pub fn body(&self) -> (res: Shape)
        ensures
            res == self.shape(),
    {
        shape(self.kind, self.rotation)
    }

    /// Whether the piece lies on the playing field: between the walls and
    /// above the floor.
    pub fn is_in_field(&self) -> (ok: bool)
        ensures
            ok == self.in_field(),
    {
        let body = self.body();
        let mut r: usize = 0;
        while r < 4
            invariant
                r <= 4,
                body == self.shape(),
                placed_before(body, self.x as int, self.y as int, r as int, 0),
            decreases 4 - r,
        {
            let mut c: usize = 0;
            while c < 4
                invariant
                    r < 4,
                    c <= 4,
                    body == self.shape(),
                    placed_before(body, self.x as int, self.y as int, r as int, c as int),
                decreases 4 - c,
            {
                if body[r][c] {
                    let col: i64 = self.x as i64 + c as i64 - 2;
                    let row: i64 = self.y as i64 + r as i64 - 2;
                    if col < 0 || col >= 10 || row >= 20 {
                        assert(filled(self.shape(), r as int, c as int));
                        return false;
                    }
                }
                c += 1;
            }
            r += 1;
        }
        true
    }

    /// Tries to move the piece sideways by `delta` columns and says
    /// whether it moved.
    ///
    /// The move is stopped by the wall or by a landed block next to the
    /// outer edge of any window row, on the side the piece moves to. A
    /// piece that is stopped stays as it is. The row of the anchor and the
    /// orientation never change.
    pub fn move_x(&mut self, delta: i32, field: &Grid) -> (moved: bool)
        requires
            delta > 0 && !old(self).blocked(field@, delta as int) ==> old(self).x + delta
                <= i32::MAX,
        ensures
            moved == !old(self).blocked(field@, delta as int),
            *final(self) == old(self).moved(field@, delta as int),
            final(self).y == old(self).y,
            final(self).rotation == old(self).rotation,
    {
        let body = self.body();
        if delta < 0 {
            let mut r: usize = 0;
            while r < 4
                invariant
                    delta < 0,
                    r <= 4,
                    *self == *old(self),
                    body == self.shape(),
                    forall|k: int| 0 <= k < r ==> !self.left_edge_blocked(field@, k),
                decreases 4 - r,
            {
                if let Some(c) = leftmost_in_row(&body, r) {
                    let probe: i64 = self.x as i64 + c as i64 - 2 - 1;
                    let row: i64 = self.y as i64 + r as i64 - 2;
                    if probe < 0 || field.is_locked(row, probe) {
                        assert(self.left_edge_blocked(field@, r as int));
                        return false;
                    }
                }
                r += 1;
            }
        } else if delta > 0 {
            let mut r: usize = 0;
            while r < 4
                invariant
                    delta > 0,
                    r <= 4,
                    *self == *old(self),
                    body == self.shape(),
                    forall|k: int| 0 <= k < r ==> !self.right_edge_blocked(field@, k),
                decreases 4 - r,
            {
                if let Some(c) = rightmost_in_row(&body, r) {
                    let probe: i64 = self.x as i64 + c as i64 - 2 + 1;
                    let row: i64 = self.y as i64 + r as i64 - 2;
                    if probe >= 10 || field.is_locked(row, probe) {
                        assert(self.right_edge_blocked(field@, r as int));
                        return false;
                    }
                }
                r += 1;
            }
        }
        proof {
            if delta < 0 {
                self.lemma_free_left_edge(field@);
            }
        }
        self.x = self.x + delta;
        true
    }

    /// Whether the piece has room to move down one row.
    ///
    /// Only the lower edge of each window column is looked at: the cell
    /// under the lowest block of the column must be on the grid and must
    /// not hold a landed block.
    pub fn is_move_down_awailable(&self, field: &Grid) -> (free: bool)
        ensures
            free == self.can_descend(field@),
    {
        let body = self.body();
        let mut c: usize = 0;
        while c < 4
            invariant
                c <= 4,
                body == self.shape(),
                forall|k: int| 0 <= k < c ==> !self.column_rests(field@, k),
            decreases 4 - c,
        {
            if let Some(r) = lowest_in_column(&body, c) {
                let below: i64 = self.y as i64 + r as i64 - 2 + 1;
                let col: i64 = self.x as i64 + c as i64 - 2;
                if col >= 0 && below >= 0 && (below >= 20 || field.is_locked(below, col)) {
                    assert(self.column_rests(field@, c as int));
                    return false;
                }
            }
            c += 1;
        }
        true
    }

    /// Moves the piece down by `delta` rows, whatever is there.
    pub fn force_move_y(&mut self, delta: i32)
        requires
            i32::MIN <= old(self).y + delta <= i32::MAX,
        ensures
            *final(self) == old(self).lowered(delta as int),
            final(self).x == old(self).x,
            final(self).rotation == old(self).rotation,
    {
        self.y = self.y + delta;
    }

    /// Lets the piece fall, one row at a time, for as long as it has room
    /// to move down. It ends where it will land.
    ///
    /// Window columns left of the grid rest on nothing, so the piece needs
    /// a block on or right of column 0 to land at all.
    pub fn drop_down(&mut self, field: &Grid)
        requires
            exists|r: int, c: int| #[trigger]
                filled(old(self).shape(), r, c) && old(self).col(c) >= 0,
        ensures
            *final(self) == old(self).dropped(field@),
            old(self).lands_after(field@, final(self).y - old(self).y),
            !final(self).can_descend(field@),
            final(self).x == old(self).x,
            final(self).rotation == old(self).rotation,
            final(self).y == old(self).y || final(self).y <= 21,
    {
        while self.is_move_down_awailable(field)
            invariant
                exists|r: int, c: int| #[trigger] filled(self.shape(), r, c) && self.col(c) >= 0,
                self.y >= old(self).y,
                self.y == old(self).y || self.y <= 21,
                *self == old(self).lowered(self.y - old(self).y),
                old(self).falls_freely(field@, self.y - old(self).y),
            decreases 21 - self.y,
        {
            proof {
                self.lemma_room_below(field@);
            }
            let ghost above = *self;
            self.force_move_y(1);
            proof {
                let (r, c) = choose|r: int, c: int| #[trigger]
                    filled(above.shape(), r, c) && above.col(c) >= 0;
                assert(filled(self.shape(), r, c) && self.col(c) >= 0);
            }
        }
        proof {
            let n = self.y - old(self).y;
            old(self).lemma_landing_unique(field@, n, old(self).drop_depth(field@));
        }
    }

    /// Tries to turn the piece once, clockwise for `direction` 1 and
    /// counter-clockwise for -1. Any other `direction` is that many turns
    /// taken as one.
    ///
    /// The cells of the turned pattern are looked over in reading order. A
    /// cell beyond a wall nudges the anchor one column inward and is
    /// looked at again. A cell below the bottom row or on a landed block
    /// ends the attempt: the orientation stays, but the nudges made up to
    /// then are kept. Where no cell ends the attempt the piece takes the
    /// new orientation.
    pub fn rotate(&mut self, field: &Grid, direction: i32)
        ensures
            *final(self) == old(self).rotated(field@, direction as int),
    {
        let next = turn(self.rotation, direction);
        let cand = shape(self.kind, next);
        let ghost whole = kick_scan(cand, field@, self.x as int, self.y as int, 0, 0);
        let mut r: usize = 0;
        while r < 4
            invariant
                r <= 4,
                self.kind == old(self).kind,
                self.y == old(self).y,
                self.rotation == old(self).rotation,
                next == turned(old(self).rotation as int, direction as int),
                cand == shape_of(old(self).kind, next as int),
                whole == kick_scan(cand, field@, old(self).x as int, old(self).y as int, 0, 0),
                kick_scan(cand, field@, self.x as int, self.y as int, r as int, 0) == whole,
            decreases 4 - r,
        {
            let mut c: usize = 0;
            while c < 4
                invariant
                    r < 4,
                    c <= 4,
                    self.kind == old(self).kind,
                    self.y == old(self).y,
                    self.rotation == old(self).rotation,
                    next == turned(old(self).rotation as int, direction as int),
                    cand == shape_of(old(self).kind, next as int),
                    whole == kick_scan(
                        cand,
                        field@,
                        old(self).x as int,
                        old(self).y as int,
                        0,
                        0,
                    ),
                    kick_scan(cand, field@, self.x as int, self.y as int, r as int, c as int)
                        == whole,
                decreases 4 - c, kick_distance(self.x as int, c as int),
            {
                if cand[r][c] {
                    let col: i64 = self.x as i64 + c as i64 - 2;
                    if col < 0 {
                        self.x = self.x + 1;
                        continue ;
                    }
                    if col >= 10 {
                        self.x = self.x - 1;
                        continue ;
                    }
                    let row: i64 = self.y as i64 + r as i64 - 2;
                    if row >= 0 && (row >= 20 || field.is_locked(row, col)) {
                        return ;
                    }
                }
                c += 1;
            }
            r += 1;
        }
        self.rotation = next;
    }

    /// Stamps the piece on the grid.
    ///
    /// First every cell that does not hold a landed block is emptied. The
    /// falling piece is the only thing ever drawn that way, so this wipes
    /// it off wherever it stood before. Then each block of the piece that
    /// lies on the grid is written, over whatever the cell holds: as a
    /// landed block where `force_gray` is set, else as a block of the type
    /// of the piece.
    pub fn put_on_a_field(&self, field: &mut Grid, force_gray: bool)
        ensures
            final(field)@ == self.stamped(old(field)@, force_gray),
    {
        let body = self.body();
        let mut y: usize = 0;
        while y < 20
            invariant
                y <= 20,
                forall|i: int, j: int|
                    0 <= i < 20 && 0 <= j < 10 ==> #[trigger] field.cells[i][j] == partly_wiped(
                        old(field).cells[i][j],
                        i,
                        j,
                        y as int,
                        0,
                    ),
            decreases 20 - y,
        {
            let mut x: usize = 0;
            while x < 10
                invariant
                    y < 20,
                    x <= 10,
                    forall|i: int, j: int|
                        0 <= i < 20 && 0 <= j < 10 ==> #[trigger] field.cells[i][j]
                            == partly_wiped(old(field).cells[i][j], i, j, y as int, x as int),
                decreases 10 - x,
            {
                match field.cells[y][x] {
                    Cell::Locked => {},
                    _ => {
                        field.cells[y][x] = Cell::Empty;
                    },
                }
                x += 1;
            }
            y += 1;
        }
        let mark = if force_gray {
            Cell::Locked
        } else {
            Cell::Occupied(self.kind)
        };
        let mut r: usize = 0;
        while r < 4
            invariant
                r <= 4,
                body == self.shape(),
                mark == self.mark(force_gray),
                forall|i: int, j: int|
                    0 <= i < 20 && 0 <= j < 10 ==> #[trigger] field.cells[i][j]
                        == self.partly_stamped(
                        old(field).cells[i][j],
                        i,
                        j,
                        r as int,
                        0,
                        force_gray,
                    ),
            decreases 4 - r,
        {
            let mut c: usize = 0;
            while c < 4
                invariant
                    r < 4,
                    c <= 4,
                    body == self.shape(),
                    mark == self.mark(force_gray),
                    forall|i: int, j: int|
                        0 <= i < 20 && 0 <= j < 10 ==> #[trigger] field.cells[i][j]
                            == self.partly_stamped(
                            old(field).cells[i][j],
                            i,
                            j,
                            r as int,
                            c as int,
                            force_gray,
                        ),
                decreases 4 - c,
            {
                let fx: i64 = self.x as i64 + c as i64 - 2;
                let fy: i64 = self.y as i64 + r as i64 - 2;
                if 0 <= fx && fx < 10 && 0 <= fy && fy < 20 && body[r][c] {
                    field.cells[fy as usize][fx as usize] = mark;
                }
                c += 1;
            }
            r += 1;
        }
        assert(field@ =~~= self.stamped(old(field)@, force_gray));
    }
}

} // verus!
