//! What is proved of pieces beyond the contracts of their operations:
//! that a piece stays on the playing field whatever is done to it, how far
//! wall kicks can take it, and when a turn leaves it where it is.

use crate::grid::{locked_at, Board};
use crate::piece::{kick_scan, kicked, placed_before, reads_before, Attempt, Piece};
use crate::shape::{
    filled, first_filled, lemma_four_cells, lowest_filled, shape_of, turned, PieceType, Shape,
};
use vstd::prelude::*;

verus! {

/// Where wall kicks can take an anchor column that started at `x0`: they
/// leave it, or push it right to column 2 at most, or push it left to
/// column 8 at least.
pub open spec fn kick_drift(x0: int, x: int) -> bool {
    x == x0 || x0 < x <= 2 || 8 <= x < x0
}

/// An anchor column that started at `x0` and stands at `x` has been kicked
/// no further than a wall asked for: where it moved right a filled cell of
/// `cand` lies on column 0, and where it moved left one lies on column 9.
pub open spec fn kicked_no_further(cand: Shape, x0: int, x: int) -> bool {
    &&& x > x0 ==> exists|r: int, c: int| #[trigger] filled(cand, r, c) && x + c - 2 == 0
    &&& x < x0 ==> exists|r: int, c: int| #[trigger] filled(cand, r, c) && x + c - 2 == 9
}

/// What a scan of the turned pattern keeps: the anchor column drifts only
/// as wall kicks allow and no further than a wall asked for, and where the
/// scan finds room for every cell, every cell lies between the walls and
/// above the floor.
pub proof fn lemma_kick_scan(cand: Shape, board: Board, x0: int, x: int, y: int, r: int, c: int)
    requires
        0 <= r <= 4,
        0 <= c <= 4,
        placed_before(cand, x, y, r, c),
        kick_drift(x0, x),
        kicked_no_further(cand, x0, x),
    ensures
        kick_drift(x0, kick_scan(cand, board, x, y, r, c).x),
        kicked_no_further(cand, x0, kick_scan(cand, board, x, y, r, c).x),
        kick_scan(cand, board, x, y, r, c).fits ==> placed_before(
            cand,
            kick_scan(cand, board, x, y, r, c).x,
            y,
            4,
            0,
        ),
    decreases 4 - r, 4 - c,
{
    if r >= 4 {
    } else if c >= 4 {
        lemma_kick_scan(cand, board, x0, x, y, r + 1, 0);
    } else if !cand[r][c] {
        lemma_kick_scan(cand, board, x0, x, y, r, c + 1);
    } else {
        let nx = kicked(x, c);
        let row = y + r - 2;
        let col = nx + c - 2;
        assert(filled(cand, r, c));
        if !(row >= 0 && (row >= 20 || locked_at(board, row, col))) {
            assert forall|wr: int, wc: int| #[trigger]
                filled(cand, wr, wc) && reads_before(wr, wc, r, c + 1) implies 0 <= nx + wc - 2
                < 10 && y + wr - 2 < 20 by {
                // A cell looked at before lay between the walls, and a kick
                // moves it by less than the grid is wider than the window.
                assert(reads_before(wr, wc, r, c) || (wr == r && wc == c));
            }
            lemma_kick_scan(cand, board, x0, nx, y, r, c + 1);
        }
    }
}

/// A scan of a pattern that has room for every cell where it is makes no
/// kick and finds room.
pub proof fn lemma_scan_with_room(cand: Shape, board: Board, x: int, y: int, r: int, c: int)
    requires
        0 <= r <= 4,
        0 <= c <= 4,
        forall|wr: int, wc: int| #[trigger]
            filled(cand, wr, wc) ==> 0 <= x + wc - 2 < 10 && (y + wr - 2 < 0 || (y + wr - 2 < 20
                && !locked_at(board, y + wr - 2, x + wc - 2))),
    ensures
        kick_scan(cand, board, x, y, r, c) == (Attempt { x, fits: true }),
    decreases 4 - r, 4 - c,
{
    if r >= 4 {
    } else if c >= 4 {
        lemma_scan_with_room(cand, board, x, y, r + 1, 0);
    } else if !cand[r][c] {
        lemma_scan_with_room(cand, board, x, y, r, c + 1);
    } else {
        assert(filled(cand, r, c));
        lemma_scan_with_room(cand, board, x, y, r, c + 1);
    }
}

impl Piece {
    /// Every piece has a block: some window column has a lowest block, and
    /// the lemma gives the window cell of one.
    pub proof fn lemma_lowest_block(self) -> (cell: (int, int))
        ensures
            0 <= cell.1 < 4,
            lowest_filled(self.shape(), cell.1) == Some(cell.0),
            filled(self.shape(), cell.0, cell.1),
    {
        let shape = self.shape();
        lemma_four_cells(self.kind, self.rotation as int);
        let c = if lowest_filled(shape, 0) is Some {
            0
        } else if lowest_filled(shape, 1) is Some {
            1
        } else if lowest_filled(shape, 2) is Some {
            2
        } else {
            3int
        };
        (lowest_filled(shape, c)->0, c)
    }

    /// The anchor of a piece between the walls lies within one column of
    /// the grid.
    pub proof fn lemma_anchor_range(self)
        requires
            self.within_walls(),
        ensures
            -1 <= self.x <= 11,
    {
        self.lemma_lowest_block();
    }

    /// A piece between the walls has a block on or right of column 0.
    pub proof fn lemma_block_on_grid(self)
        requires
            self.within_walls(),
        ensures
            exists|r: int, c: int| #[trigger] filled(self.shape(), r, c) && self.col(c) >= 0,
    {
        let cell = self.lemma_lowest_block();
        assert(filled(self.shape(), cell.0, cell.1) && self.col(cell.1) >= 0);
    }

    /// A piece with a block on or right of column 0 that has room to move
    /// down has its anchor on row 20 at the lowest.
    pub proof fn lemma_room_below(self, board: Board)
        requires
            exists|r: int, c: int| #[trigger] filled(self.shape(), r, c) && self.col(c) >= 0,
            self.can_descend(board),
        ensures
            self.y <= 20,
    {
        let (r, c) = choose|r: int, c: int| #[trigger]
            filled(self.shape(), r, c) && self.col(c) >= 0;
        // The lowest block of that window column is at `r` or below it,
        // and the cell under it is on the grid or above it.
        assert(lowest_filled(self.shape(), c) is Some);
        assert(!self.column_rests(board, c));
    }

    /// A piece with a free left edge on every window row has its anchor on
    /// column 0 or right of it.
    pub proof fn lemma_free_left_edge(self, board: Board)
        requires
            forall|r: int| 0 <= r < 4 ==> !self.left_edge_blocked(board, r),
        ensures
            self.x >= 0,
    {
        let cell = self.lemma_lowest_block();
        assert(first_filled(self.shape()[cell.0]) is Some);
        assert(!self.left_edge_blocked(board, cell.0));
    }

    /// A sideways move, whether it is stopped or not, keeps the row, the
    /// orientation and the type of the piece.
    pub proof fn lemma_move_keeps_row(self, board: Board, delta: int)
        ensures
            self.moved(board, delta).y == self.y,
            self.moved(board, delta).rotation == self.rotation,
            self.moved(board, delta).kind == self.kind,
    {
    }

    /// A step down and a fall keep the column, the orientation and the
    /// type of the piece.
    pub proof fn lemma_fall_keeps_column(self, board: Board, dy: int)
        ensures
            self.lowered(dy).x == self.x,
            self.lowered(dy).rotation == self.rotation,
            self.lowered(dy).kind == self.kind,
            self.dropped(board).x == self.x,
            self.dropped(board).rotation == self.rotation,
            self.dropped(board).kind == self.kind,
    {
    }

    /// A piece lands after one number of rows only.
    pub proof fn lemma_landing_unique(self, board: Board, n: int, m: int)
        requires
            self.lands_after(board, n),
            self.lands_after(board, m),
        ensures
            n == m,
    {
        if n < m {
            assert(self.lowered(n).can_descend(board));
        } else if m < n {
            assert(self.lowered(m).can_descend(board));
        }
    }

    /// A piece that enters lies on the field, and still does one row
    /// further down.
    pub proof fn lemma_spawn_in_field(kind: PieceType)
        ensures
            Piece::spawned(kind).in_field(),
            Piece::spawned(kind).lowered(1).in_field(),
    {
    }

    /// A piece between the walls that has room to move down lies on the
    /// field after the step.
    pub proof fn lemma_step_in_field(self, board: Board)
        requires
            self.within_walls(),
            self.can_descend(board),
        ensures
            self.lowered(1).in_field(),
    {
        let low = self.lowered(1);
        assert forall|r: int, c: int| #[trigger] filled(low.shape(), r, c) implies 0 <= low.col(c)
            < 10 && low.row(r) < 20 by {
            assert(!self.column_rests(board, c));
        }
    }

    /// A piece on the field that falls freely for `n` rows lies on the
    /// field after the fall.
    pub proof fn lemma_fall_in_field(self, board: Board, n: int)
        requires
            self.in_field(),
            n >= 0,
            self.falls_freely(board, n),
        ensures
            self.lowered(n).in_field(),
            n > 0 ==> self.y + n <= 21,
        decreases n,
    {
        if n > 0 {
            self.lemma_fall_in_field(board, n - 1);
            let above = self.lowered(n - 1);
            above.lemma_block_on_grid();
            above.lemma_room_below(board);
            above.lemma_step_in_field(board);
        }
    }

    /// A piece on the field is on the field after an attempt to move it
    /// one column to either side.
    pub proof fn lemma_move_in_field(self, board: Board, delta: int)
        requires
            self.in_field(),
            -1 <= delta <= 1,
        ensures
            self.moved(board, delta).in_field(),
    {
        let after = self.moved(board, delta);
        if !self.blocked(board, delta) && delta != 0 {
            self.lemma_anchor_range();
            assert forall|r: int, c: int| #[trigger] filled(after.shape(), r, c) implies 0
                <= after.col(c) < 10 && after.row(r) < 20 by {
                if delta < 0 {
                    assert(!self.left_edge_blocked(board, r));
                } else {
                    assert(!self.right_edge_blocked(board, r));
                }
            }
        }
    }

    /// A piece on the field is on the field after an attempt to turn it,
    /// whether it turned or not.
    pub proof fn lemma_turn_in_field(self, board: Board, direction: int)
        requires
            self.in_field(),
        ensures
            self.rotated(board, direction).in_field(),
    {
        let next = turned(self.rotation as int, direction);
        let cand = shape_of(self.kind, next);
        let attempt = kick_scan(cand, board, self.x as int, self.y as int, 0, 0);
        let after = self.rotated(board, direction);
        lemma_kick_scan(cand, board, self.x as int, self.x as int, self.y as int, 0, 0);
        self.lemma_anchor_range();
        if attempt.fits {
            // The turned piece: the scan placed every one of its cells.
            assert(placed_before(cand, after.x as int, after.y as int, 4, 0));
        } else {
            // The piece as it was, at the anchor the kicks left it at.
            assert forall|r: int, c: int| #[trigger] filled(after.shape(), r, c) implies 0
                <= after.col(c) < 10 && after.row(r) < 20 by {
                assert(filled(self.shape(), r, c));
            }
        }
    }

    /// A turn that takes lands between the walls, and by the least
    /// number of wall kicks: every block of the turned piece lies in one
    /// of the ten columns, and where the anchor moved, a block lies on the
    /// column next to the wall that it was kicked away from.
    pub proof fn lemma_turn_lands_between_walls(self, board: Board, direction: int)
        requires
            kick_scan(
                shape_of(self.kind, turned(self.rotation as int, direction)),
                board,
                self.x as int,
                self.y as int,
                0,
                0,
            ).fits,
        ensures
            self.rotated(board, direction).rotation == turned(self.rotation as int, direction),
            self.rotated(board, direction).within_walls(),
            self.rotated(board, direction).above_floor(),
            self.rotated(board, direction).x > self.x ==> exists|r: int, c: int| #[trigger]
                filled(self.rotated(board, direction).shape(), r, c) && self.rotated(
                    board,
                    direction,
                ).col(c) == 0,
            self.rotated(board, direction).x < self.x ==> exists|r: int, c: int| #[trigger]
                filled(self.rotated(board, direction).shape(), r, c) && self.rotated(
                    board,
                    direction,
                ).col(c) == 9,
    {
        let next = turned(self.rotation as int, direction);
        let cand = shape_of(self.kind, next);
        let after = self.rotated(board, direction);
        lemma_kick_scan(cand, board, self.x as int, self.x as int, self.y as int, 0, 0);
        assert(after.shape() == cand);
        assert(placed_before(cand, after.x as int, after.y as int, 4, 0));
    }

    /// A piece that, turned where it is, has room for every block takes
    /// the turn and stays where it is: no wall kick is made.
    pub proof fn lemma_free_turn(self, board: Board, direction: int)
        requires
            self.turned_by(direction).has_room(board),
        ensures
            self.rotated(board, direction) == self.turned_by(direction),
    {
        let t = self.turned_by(direction);
        let next = turned(self.rotation as int, direction);
        let cand = shape_of(self.kind, next);
        assert forall|wr: int, wc: int| #[trigger] filled(cand, wr, wc) implies 0 <= self.x + wc
            - 2 < 10 && (self.y + wr - 2 < 0 || (self.y + wr - 2 < 20 && !locked_at(
            board,
            self.y + wr - 2,
            self.x + wc - 2,
        ))) by {
            assert(filled(t.shape(), wr, wc));
        }
        lemma_scan_with_room(cand, board, self.x as int, self.y as int, 0, 0);
    }

    /// Four turns in one direction, each with room for the turned piece
    /// where the piece is, bring the piece back to the orientation and the
    /// anchor it started with.
    pub proof fn lemma_four_turns(self, board: Board, direction: int)
        requires
            0 <= self.rotation <= 3,
            self.turned_by(direction).has_room(board),
            self.turned_by(2 * direction).has_room(board),
            self.turned_by(3 * direction).has_room(board),
            self.turned_by(4 * direction).has_room(board),
        ensures
            self.rotated(board, direction).rotated(board, direction).rotated(
                board,
                direction,
            ).rotated(board, direction) == self,
    {
        let once = self.turned_by(direction);
        let twice = self.turned_by(2 * direction);
        let thrice = self.turned_by(3 * direction);
        assert(once.turned_by(direction) == twice);
        assert(twice.turned_by(direction) == thrice);
        assert(thrice.turned_by(direction) == self);
        self.lemma_free_turn(board, direction);
        once.lemma_free_turn(board, direction);
        twice.lemma_free_turn(board, direction);
        thrice.lemma_free_turn(board, direction);
    }
}

} // verus!
