//! The playing grid: 20 rows of 10 cells, row 0 on top.

use crate::shape::PieceType;
use vstd::prelude::*;

verus! {

/// What one cell of the grid holds.
#[derive(Clone, Copy, Debug, PartialEq, Eq, Structural)]
pub enum Cell {
    /// Nothing.
    Empty,
    /// A block that has landed. It no longer remembers the piece it came
    /// from.
    Locked,
    /// A block of the piece that is falling.
    Occupied(PieceType),
}

/// The grid as a mathematical value: a sequence of rows, each a sequence of
/// cells.
pub type Board = Seq<Seq<Cell>>;

/// The playing grid.
#[derive(Clone, Copy, Debug, PartialEq, Eq)]
pub struct Grid {
    /// The cells, indexed `[row][column]`.
    pub cells: [[Cell; 10]; 20],
}

impl View for Grid {
    type V = Board;

    open spec fn view(&self) -> Board {
        Seq::new(20, |r: int| Seq::new(10, |c: int| self.cells[r][c]))
    }
}

/// A board has 20 rows of 10 cells.
pub open spec fn is_board(board: Board) -> bool {
    &&& board.len() == 20
    &&& forall|r: int| 0 <= r < 20 ==> (#[trigger] board[r]).len() == 10
}

/// Whether `(row, col)` is a cell of the board that holds a landed block.
/// Outside the board nothing is locked.
pub open spec fn locked_at(board: Board, row: int, col: int) -> bool {
    &&& 0 <= row < board.len()
    &&& 0 <= col < board[row].len()
    &&& board[row][col] == Cell::Locked
}

/// A row of ten empty cells.
pub open spec fn blank_row() -> Seq<Cell> {
    Seq::new(10, |c: int| Cell::Empty)
}

/// `n` rows of empty cells.
pub open spec fn blank_rows(n: nat) -> Board {
    Seq::new(n, |r: int| blank_row())
}

/// A row is full when every one of its cells holds a landed block.
pub open spec fn row_is_full(row: Seq<Cell>) -> bool {
    forall|c: int| 0 <= c < row.len() ==> row[c] == Cell::Locked
}

/// The rows that are not full, in their order.
pub open spec fn surviving_rows(rows: Board) -> Board
    decreases rows.len(),
{
    if rows.len() == 0 {
        rows
    } else if row_is_full(rows.last()) {
        surviving_rows(rows.drop_last())
    } else {
        surviving_rows(rows.drop_last()).push(rows.last())
    }
}

/// The number of full rows.
pub open spec fn full_rows(rows: Board) -> nat
    decreases rows.len(),
{
    if rows.len() == 0 {
        0
    } else if row_is_full(rows.last()) {
        full_rows(rows.drop_last()) + 1
    } else {
        full_rows(rows.drop_last())
    }
}

/// The board after row `y` is taken out: the rows above it move down by
/// one and an empty row enters on top.
pub open spec fn collapsed(board: Board, y: int) -> Board {
    Seq::new(
        board.len(),
        |r: int|
            if r == 0 {
                blank_row()
            } else if r <= y {
                board[r - 1]
            } else {
                board[r]
            },
    )
}

/// The board after every full row is taken out: the rows that are left
/// keep their order and rest on the bottom, under as many empty rows as
/// were taken out.
pub open spec fn cleared(board: Board) -> Board {
    blank_rows(full_rows(board)) + surviving_rows(board)
}

/// Whether the top row holds a landed block.
pub open spec fn top_row_locked(board: Board) -> bool {
    exists|c: int| 0 <= c < 10 && locked_at(board, 0, c)
}

impl Grid {
    /// The grid with every cell empty.
    pub fn new() -> (grid: Grid)
        ensures
            grid@ == blank_rows(20),
    {
        let grid = Grid { cells: [[Cell::Empty; 10]; 20] };
        assert(grid@ =~~= blank_rows(20));
        grid
    }

    /// Whether `(row, col)` is a cell of the grid that holds a landed
    /// block. Coordinates outside the grid are answered with `false`.
    pub fn is_locked(&self, row: i64, col: i64) -> (res: bool)
        ensures
            res == locked_at(self@, row as int, col as int),
    {
        if row < 0 || row >= 20 || col < 0 || col >= 10 {
            return false;
        }
        let cell = self.cells[row as usize][col as usize];
        match cell {
            Cell::Locked => true,
            _ => false,
        }
    }

    /// Whether every cell of row `y` holds a landed block.
    pub fn is_row_full(&self, y: usize) -> (full: bool)
        requires
            y < 20,
        ensures
            full == row_is_full(self@[y as int]),
    {
        let mut x: usize = 0;
        while x < 10
            invariant
                y < 20,
                x <= 10,
                forall|k: int| 0 <= k < x ==> self@[y as int][k] == Cell::Locked,
            decreases 10 - x,
        {
            match self.cells[y][x] {
                Cell::Locked => {},
                _ => {
                    assert(self@[y as int][x as int] != Cell::Locked);
                    return false;
                },
            }
            x += 1;
        }
        true
    }

    /// Takes row `y` out of the grid: every row above it moves down by one
    /// and the top row becomes empty. The rows below `y` stay.
    pub fn collapse_row(&mut self, y: usize)
        requires
            y < 20,
        ensures
            final(self)@ == collapsed(old(self)@, y as int),
    {
        let mut i: usize = y;
        while i > 0
            invariant
                i <= y < 20,
                forall|k: int| 0 <= k <= i ==> self.cells[k] == old(self).cells[k],
                forall|k: int| i < k <= y ==> self.cells[k] == old(self).cells[k - 1],
                forall|k: int| y < k < 20 ==> self.cells[k] == old(self).cells[k],
            decreases i,
        {
            self.cells[i] = self.cells[i - 1];
            i -= 1;
        }
        self.cells[0] = [Cell::Empty; 10];
        assert(self@ =~~= collapsed(old(self)@, y as int));
    }

    /// Takes every full row out of the grid and says how many there were.
    ///
    /// The rows are gone through from the top. After a row is taken out the
    /// rows below it are as they were, so each full row is found and
    /// counted once.
    pub fn clear_full_rows(&mut self) -> (count: u32)
        ensures
            final(self)@ == cleared(old(self)@),
            count == full_rows(old(self)@),
            count <= 20,
    {
        let mut count: u32 = 0;
        let mut y: usize = 0;
        while y < 20
            invariant
                y <= 20,
                count <= y,
                count == full_rows(old(self)@.take(y as int)),
                self@.take(y as int) == blank_rows(count as nat) + surviving_rows(
                    old(self)@.take(y as int),
                ),
                forall|k: int| y <= k < 20 ==> self@[k] == old(self)@[k],
            decreases 20 - y,
        {
            proof {
                lemma_rows_step(old(self)@, y as int);
                lemma_rows_partition(old(self)@.take(y as int));
            }
            let ghost before = self@;
            if self.is_row_full(y) {
                self.collapse_row(y);
                count += 1;
                assert(self@.take(y + 1) =~= blank_rows(count as nat) + surviving_rows(
                    old(self)@.take(y as int),
                )) by {
                    assert forall|k: int| 0 < k <= y implies self@[k] == before.take(y as int)[k
                        - 1] by {}
                }
            } else {
                assert(self@.take(y + 1) =~= before.take(y as int).push(before[y as int]));
            }
            y += 1;
        }
        proof {
            assert(old(self)@.take(20) =~= old(self)@);
        }
        count
    }

    /// Whether the top row holds a landed block.
    pub fn top_row_has_locked(&self) -> (hit: bool)
        ensures
            hit == top_row_locked(self@),
    {
        let mut x: usize = 0;
        while x < 10
            invariant
                x <= 10,
                forall|k: int| 0 <= k < x ==> !locked_at(self@, 0, k),
            decreases 10 - x,
        {
            match self.cells[0][x] {
                Cell::Locked => {
                    assert(locked_at(self@, 0, x as int));
                    return true;
                },
                _ => {},
            }
            x += 1;
        }
        false
    }
}

/// Looking at one row more: a full row adds to the count, any other row
/// adds to the rows that stay.
pub proof fn lemma_rows_step(rows: Board, y: int)
    requires
        0 <= y < rows.len(),
    ensures
        row_is_full(rows[y]) ==> surviving_rows(rows.take(y + 1)) == surviving_rows(rows.take(y))
            && full_rows(rows.take(y + 1)) == full_rows(rows.take(y)) + 1,
        !row_is_full(rows[y]) ==> surviving_rows(rows.take(y + 1)) == surviving_rows(
            rows.take(y),
        ).push(rows[y]) && full_rows(rows.take(y + 1)) == full_rows(rows.take(y)),
{
    assert(rows.take(y + 1).drop_last() =~= rows.take(y));
}

/// Every row is either full or stays.
pub proof fn lemma_rows_partition(rows: Board)
    ensures
        surviving_rows(rows).len() + full_rows(rows) == rows.len(),
    decreases rows.len(),
{
    if rows.len() > 0 {
        lemma_rows_partition(rows.drop_last());
    }
}

/// Where no row is full, every row stays and none is counted.
pub proof fn lemma_no_full_rows(rows: Board)
    requires
        forall|r: int| 0 <= r < rows.len() ==> !row_is_full(#[trigger] rows[r]),
    ensures
        surviving_rows(rows) == rows,
        full_rows(rows) == 0,
    decreases rows.len(),
{
    if rows.len() > 0 {
        lemma_no_full_rows(rows.drop_last());
    }
}

/// Where the bottom row is the only full row, clearing counts one row and
/// takes the bottom row out: every other row moves down by one with its
/// cells as they were, and an empty row enters on top.
pub proof fn lemma_clear_bottom_row(board: Board)
    requires
        is_board(board),
        row_is_full(board[19]),
        forall|r: int| 0 <= r < 19 ==> !row_is_full(#[trigger] board[r]),
    ensures
        full_rows(board) == 1,
        cleared(board) == collapsed(board, 19),
        cleared(board)[0] == blank_row(),
        forall|r: int| 1 <= r < 20 ==> cleared(board)[r] == board[r - 1],
{
    assert(board.drop_last() =~= board.take(19));
    lemma_no_full_rows(board.take(19));
}

} // verus!
