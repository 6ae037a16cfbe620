//! A game session: the grid, the piece that falls, the piece that comes
//! next, the counters, and the rules that drive them tick by tick.

use crate::grid::{
    blank_rows, cleared, collapsed, full_rows, is_board, lemma_clear_bottom_row, locked_at,
    row_is_full, top_row_locked, Board, Grid,
};
use crate::piece::Piece;
use crate::shape::PieceType;
use crate::source::{can_be_drawn, lemma_drawn_types, next_piece_type};
use vstd::prelude::*;

verus! {

/// What a session is doing.
#[derive(Clone, Copy, Debug, PartialEq, Eq, Structural)]
pub enum Phase {
    /// Waiting in the menu. Nothing moves.
    Menu,
    /// A game is running.
    Play,
    /// The game is lost. Only a restart leaves this phase.
    Death,
}

/// What the player can ask for.
#[derive(Clone, Copy, Debug, PartialEq, Eq, Structural)]
pub enum Command {
    /// Leave the program.
    Quit,
    /// Start playing, or go on playing.
    Start,
    /// Throw the game away and start a new one.
    Restart,
    /// Go to the menu.
    ToMenu,
    /// Turn the piece counter-clockwise.
    RotateCcw,
    /// Turn the piece clockwise.
    RotateCw,
    /// Move the piece one column to the left.
    MoveLeft,
    /// Move the piece one column to the right.
    MoveRight,
    /// Bring the next automatic drop forward.
    SoftDrop,
    /// Let the piece fall to where it lands.
    HardDrop,
}

/// Lines cleared per level.
pub const LINES_PER_LEVEL: u32 = 30;

/// Ticks between two automatic drops at level 1.
pub const BASE_DROP_TICKS: u32 = 50;

/// The level reached with `lines` cleared lines: one more for every 30.
pub open spec fn level_of(lines: int) -> int {
    lines / 30 + 1
}

/// The number of ticks between two automatic drops at a level.
pub open spec fn drop_interval(level: int) -> int {
    50int / level
}

/// The score awarded for the rows cleared in one pass.
pub open spec fn line_bonus(rows: int) -> int {
    if rows == 1 {
        40
    } else if rows == 2 {
        100
    } else if rows == 3 {
        300
    } else if rows == 4 {
        1200
    } else {
        0
    }
}

/// The level reached with `lines` cleared lines.
pub fn level_for_lines(lines: u32) -> (level: u32)
    ensures
        level == level_of(lines as int),
        level >= 1,
{
    lines / LINES_PER_LEVEL + 1
}

/// The number of ticks between two automatic drops at a level.
pub fn ticks_per_drop(level: u32) -> (ticks: i32)
    requires
        level >= 1,
    ensures
        ticks == drop_interval(level as int),
        0 <= ticks <= 50,
{
    assert(0 <= 50int / (level as int) <= 50) by (nonlinear_arith)
        requires
            level >= 1,
    ;
    (BASE_DROP_TICKS / level) as i32
}

/// The score awarded for the rows cleared in one pass.
pub fn bonus_for_rows(rows: u32) -> (bonus: u32)
    ensures
        bonus == line_bonus(rows as int),
{
    match rows {
        1 => 40,
        2 => 100,
        3 => 300,
        4 => 1200,
        _ => 0,
    }
}

/// A game session.
#[derive(Clone, Copy, Debug, PartialEq, Eq)]
pub struct GameSession {
    /// The playing grid.
    pub grid: Grid,
    /// The piece that is falling.
    pub piece: Piece,
    /// The piece that comes next.
    pub preview: Piece,
    /// The score.
    pub score: u32,
    /// The number of rows cleared so far.
    pub lines_cleared: u32,
    /// The number of ticks played so far. There are 60 ticks to a second.
    pub elapsed_ticks: u64,
    /// What the session is doing.
    pub phase: Phase,
    /// The number of ticks to wait before the next automatic drop.
    pub ticks_until_drop: i32,
}

/// A session as a mathematical value.
#[verifier::ext_equal]
pub struct SessionView {
    pub grid: Board,
    pub piece: Piece,
    pub preview: Piece,
    pub score: int,
    pub lines_cleared: int,
    pub elapsed_ticks: int,
    pub phase: Phase,
    pub ticks_until_drop: int,
}

impl View for GameSession {
    type V = SessionView;

    open spec fn view(&self) -> SessionView {
        SessionView {
            grid: self.grid@,
            piece: self.piece,
            preview: self.preview,
            score: self.score as int,
            lines_cleared: self.lines_cleared as int,
            elapsed_ticks: self.elapsed_ticks as int,
            phase: self.phase,
            ticks_until_drop: self.ticks_until_drop as int,
        }
    }
}

impl SessionView {
    /// What holds of every session in play: the grid has its size, the
    /// falling piece lies between the walls and above the floor, the next
    /// piece waits where pieces enter, and no counter is negative.
    pub open spec fn wf(self) -> bool {
        &&& is_board(self.grid)
        &&& self.piece.within_walls()
        &&& self.piece.above_floor()
        &&& self.preview == Piece::spawned(self.preview.kind)
        &&& self.score >= 0
        &&& self.lines_cleared >= 0
        &&& self.elapsed_ticks >= 0
    }

    /// The session a program starts with: the menu, an empty grid, all
    /// counters at zero.
    pub open spec fn opening(active: PieceType, preview: PieceType) -> SessionView {
        SessionView {
            grid: blank_rows(20),
            piece: Piece::spawned(active),
            preview: Piece::spawned(preview),
            score: 0,
            lines_cleared: 0,
            elapsed_ticks: 0,
            phase: Phase::Menu,
            ticks_until_drop: 0,
        }
    }

    /// The session after a restart: an empty grid, two fresh pieces, score,
    /// lines and time at zero, and the game in play. The countdown to the
    /// next drop is not touched.
    pub open spec fn restarted(self, active: PieceType, preview: PieceType) -> SessionView {
        SessionView {
            grid: blank_rows(20),
            piece: Piece::spawned(active),
            preview: Piece::spawned(preview),
            score: 0,
            lines_cleared: 0,
            elapsed_ticks: 0,
            phase: Phase::Play,
            ticks_until_drop: self.ticks_until_drop,
        }
    }

    /// Whether the falling piece has landed: it has no room to move down.
    pub open spec fn piece_landed(self) -> bool {
        !self.piece.can_descend(self.grid)
    }

    /// The session after a landed piece is locked into the grid: the next
    /// piece falls and a piece of type `next` waits. A piece that has not
    /// landed leaves the session as it is.
    pub open spec fn settled(self, next: PieceType) -> SessionView {
        if self.piece_landed() {
            SessionView {
                grid: self.piece.stamped(self.grid, true),
                piece: self.preview,
                preview: Piece::spawned(next),
                ..self
            }
        } else {
            self
        }
    }

    /// The session after the step made at every automatic drop.
    ///
    /// A landed piece is locked and replaced. The full rows are taken out,
    /// counted, and paid for by their number. A landed block in the top
    /// row after that ends the game. Last, the falling piece moves down one
    /// row, whatever is there.
    pub open spec fn lock_and_clear(self, next: PieceType) -> SessionView {
        let settled = self.settled(next);
        let rows = full_rows(settled.grid) as int;
        let grid = cleared(settled.grid);
        SessionView {
            grid,
            piece: settled.piece.lowered(1),
            preview: settled.preview,
            score: self.score + line_bonus(rows),
            lines_cleared: self.lines_cleared + rows,
            elapsed_ticks: self.elapsed_ticks,
            phase: if top_row_locked(grid) {
                Phase::Death
            } else {
                self.phase
            },
            ticks_until_drop: self.ticks_until_drop,
        }
    }

    /// Whether the next tick locks the falling piece and so asks for a new
    /// one.
    pub open spec fn locks_on_tick(self) -> bool {
        self.phase == Phase::Play && self.ticks_until_drop <= 0 && self.piece_landed()
    }

    /// The session one tick later.
    ///
    /// Out of play nothing happens. In play, a countdown that has run out
    /// is set to the drop interval of the level, as the cleared lines stood
    /// at the start of the tick, and the drop step is made; a countdown
    /// that has not run out goes down by one. Then the falling piece is
    /// drawn on the grid and the tick is counted.
    pub open spec fn tick(self, next: PieceType) -> SessionView {
        if self.phase != Phase::Play {
            self
        } else {
            let moved = if self.ticks_until_drop <= 0 {
                SessionView {
                    ticks_until_drop: drop_interval(level_of(self.lines_cleared)),
                    ..self.lock_and_clear(next)
                }
            } else {
                SessionView { ticks_until_drop: self.ticks_until_drop - 1, ..self }
            };
            SessionView {
                grid: moved.piece.stamped(moved.grid, false),
                elapsed_ticks: moved.elapsed_ticks + 1,
                ..moved
            }
        }
    }

    /// The session after a command other than a restart.
    ///
    /// Starting and going to the menu are ignored once the game is lost.
    /// Turning, moving and dropping act only in play. Leaving changes
    /// nothing here: it is the caller who leaves. What a restart comes to
    /// depends on the two pieces it starts with and is what
    /// [`SessionView::restarted`] says; here it changes nothing.
    pub open spec fn apply(self, cmd: Command) -> SessionView {
        match cmd {
            Command::Quit | Command::Restart => self,
            Command::Start => if self.phase == Phase::Death {
                self
            } else {
                SessionView { phase: Phase::Play, ..self }
            },
            Command::ToMenu => if self.phase == Phase::Death {
                self
            } else {
                SessionView { phase: Phase::Menu, ..self }
            },
            _ => if self.phase != Phase::Play {
                self
            } else {
                match cmd {
                    Command::RotateCcw => SessionView {
                        piece: self.piece.rotated(self.grid, -1),
                        ..self
                    },
                    Command::RotateCw => SessionView {
                        piece: self.piece.rotated(self.grid, 1),
                        ..self
                    },
                    Command::MoveLeft => SessionView {
                        piece: self.piece.moved(self.grid, -1),
                        ..self
                    },
                    Command::MoveRight => SessionView {
                        piece: self.piece.moved(self.grid, 1),
                        ..self
                    },
                    Command::SoftDrop => SessionView { ticks_until_drop: 1, ..self },
                    _ => SessionView {
                        piece: self.piece.dropped(self.grid),
                        ticks_until_drop: 1,
                        ..self
                    },
                }
            },
        }
    }
}

impl GameSession {
    /// What holds of every session in play; see [`SessionView::wf`].
    pub open spec fn wf(&self) -> bool {
        self@.wf()
    }

    /// The counters can take what one tick may add to them: 1200 points,
    /// 20 lines and one tick.
    pub open spec fn headroom(&self) -> bool {
        &&& self.score + 1200 <= u32::MAX
        &&& self.lines_cleared + 20 <= u32::MAX
        &&& self.elapsed_ticks + 1 <= u64::MAX
    }

    /// Whether the counters can take what one tick may add to them.
    pub fn has_headroom(&self) -> (ok: bool)
        ensures
            ok == self.headroom(),
    {
        self.score <= u32::MAX - 1200 && self.lines_cleared <= u32::MAX - 20 && self.elapsed_ticks
            < u64::MAX
    }

    /// Whether the session is well formed.
    pub fn is_well_formed(&self) -> (ok: bool)
        ensures
            ok == self.wf(),
    {
        self.piece.is_in_field() && self.preview == Piece::spawn(self.preview.kind)
    }

    /// The session a program starts with, with pieces of the given types:
    /// the menu, an empty grid, all counters at zero.
    pub fn with_pieces(active: PieceType, preview: PieceType) -> (session: GameSession)
        ensures
            session@ == SessionView::opening(active, preview),
            session.wf(),
    {
        proof {
            Piece::lemma_spawn_in_field(active);
        }
        GameSession {
            grid: Grid::new(),
            piece: Piece::spawn(active),
            preview: Piece::spawn(preview),
            score: 0,
            lines_cleared: 0,
            elapsed_ticks: 0,
            phase: Phase::Menu,
            ticks_until_drop: 0,
        }
    }

    /// The session a program starts with, with two pieces drawn at random.
    pub fn new() -> (session: GameSession)
        ensures
            session@ == SessionView::opening(session.piece.kind, session.preview.kind),
            can_be_drawn(session.piece.kind),
            can_be_drawn(session.preview.kind),
            session.wf(),
    {
        let preview = next_piece_type();
        let active = next_piece_type();
        GameSession::with_pieces(active, preview)
    }

    /// Starts a new game with pieces of the given types: the grid is
    /// emptied, score, lines and time go back to zero, and the game is in
    /// play.
    pub fn restart_with(&mut self, active: PieceType, preview: PieceType)
        ensures
            final(self)@ == old(self)@.restarted(active, preview),
            final(self).wf(),
    {
        proof {
            Piece::lemma_spawn_in_field(active);
        }
        self.grid = Grid::new();
        self.piece = Piece::spawn(active);
        self.preview = Piece::spawn(preview);
        self.score = 0;
        self.lines_cleared = 0;
        self.elapsed_ticks = 0;
        self.phase = Phase::Play;
    }

    /// Starts a new game with two pieces drawn at random.
    pub fn restart(&mut self)
        ensures
            final(self)@ == old(self)@.restarted(final(self).piece.kind, final(self).preview.kind),
            can_be_drawn(final(self).piece.kind),
            can_be_drawn(final(self).preview.kind),
            final(self).wf(),
    {
        let active = next_piece_type();
        let preview = next_piece_type();
        self.restart_with(active, preview);
    }

    /// The level of the session.
    pub fn level(&self) -> (level: u32)
        ensures
            level == level_of(self.lines_cleared as int),
    {
        level_for_lines(self.lines_cleared)
    }

    /// The step made at every automatic drop: a landed piece is locked and
    /// replaced, with a piece of type `next` waiting after it; the full
    /// rows are taken out and paid for; a landed block in the top row ends
    /// the game; the falling piece moves down one row.
    pub fn lock_and_clear(&mut self, next: PieceType)
        requires
            old(self).wf(),
            old(self).headroom(),
        ensures
            final(self)@ == old(self)@.lock_and_clear(next),
            final(self).wf(),
    {
        if !self.piece.is_move_down_awailable(&self.grid) {
            self.piece.put_on_a_field(&mut self.grid, true);
            self.piece = self.preview;
            self.preview = Piece::spawn(next);
            proof {
                Piece::lemma_spawn_in_field(self.piece.kind);
            }
        } else {
            proof {
                self.piece.lemma_step_in_field(self.grid@);
                self.piece.lemma_block_on_grid();
                self.piece.lemma_room_below(self.grid@);
            }
        }
        let rows = self.grid.clear_full_rows();
        self.lines_cleared = self.lines_cleared + rows;
        self.score = self.score + bonus_for_rows(rows);
        if self.grid.top_row_has_locked() {
            self.phase = Phase::Death;
        }
        self.piece.force_move_y(1);
    }

    /// Whether the next tick locks the falling piece, and so needs to know
    /// the type of a new piece.
    pub fn locks_on_tick(&self) -> (locks: bool)
        ensures
            locks == self@.locks_on_tick(),
    {
        match self.phase {
            Phase::Play => self.ticks_until_drop <= 0 && !self.piece.is_move_down_awailable(
                &self.grid,
            ),
            _ => false,
        }
    }

    /// Plays one tick. Where the tick locks the falling piece, a piece of
    /// type `next` becomes the one that waits. See [`SessionView::tick`].
    pub fn tick_with(&mut self, next: PieceType)
        requires
            old(self).wf(),
            old(self).phase == Phase::Play ==> old(self).headroom(),
        ensures
            final(self)@ == old(self)@.tick(next),
            final(self).wf(),
    {
        match self.phase {
            Phase::Play => {},
            _ => {
                return ;
            },
        }
        let interval = ticks_per_drop(self.level());
        if self.ticks_until_drop <= 0 {
            self.ticks_until_drop = interval;
            self.lock_and_clear(next);
        } else {
            self.ticks_until_drop = self.ticks_until_drop - 1;
        }
        self.piece.put_on_a_field(&mut self.grid, false);
        self.elapsed_ticks = self.elapsed_ticks + 1;
    }

    /// Plays one tick. Where the tick locks the falling piece, the type of
    /// the new piece is drawn at random.
    pub fn tick(&mut self)
        requires
            old(self).wf(),
            old(self).phase == Phase::Play ==> old(self).headroom(),
        ensures
            exists|next: PieceType| can_be_drawn(next) && final(self)@ == old(self)@.tick(next),
            !old(self)@.locks_on_tick() ==> forall|next: PieceType|
                final(self)@ == #[trigger] old(self)@.tick(next),
            final(self).wf(),
    {
        if self.locks_on_tick() {
            let next = next_piece_type();
            self.tick_with(next);
        } else {
            // No piece locks on this tick, so none is drawn; the type handed
            // on is not looked at.
            let unused = PieceType::Square2x2;
            proof {
                lemma_drawn_types(unused);
                assert forall|next: PieceType|
                    self@.tick(unused) == #[trigger] self@.tick(next) by {
                    self@.lemma_tick_without_lock(unused, next);
                }
            }
            self.tick_with(unused);
        }
    }

    /// Carries out a command and says whether the program is to go on.
    ///
    /// A restart draws two pieces at random. Every other command does
    /// what [`SessionView::apply`] says.
    pub fn apply(&mut self, cmd: Command) -> (running: bool)
        requires
            old(self).wf(),
        ensures
            running == (cmd != Command::Quit),
            cmd != Command::Restart ==> final(self)@ == old(self)@.apply(cmd),
            cmd == Command::Restart ==> final(self)@ == old(self)@.restarted(
                final(self).piece.kind,
                final(self).preview.kind,
            ) && can_be_drawn(final(self).piece.kind) && can_be_drawn(final(self).preview.kind),
            final(self).wf(),
    {
        match cmd {
            Command::Quit => {
                return false;
            },
            Command::Restart => {
                self.restart();
            },
            Command::Start => {
                match self.phase {
                    Phase::Death => {},
                    _ => {
                        self.phase = Phase::Play;
                    },
                }
            },
            Command::ToMenu => {
                match self.phase {
                    Phase::Death => {},
                    _ => {
                        self.phase = Phase::Menu;
                    },
                }
            },
            Command::RotateCcw => {
                if let Phase::Play = self.phase {
                    proof {
                        self.piece.lemma_turn_in_field(self.grid@, -1);
                    }
                    self.piece.rotate(&self.grid, -1);
                }
            },
            Command::RotateCw => {
                if let Phase::Play = self.phase {
                    proof {
                        self.piece.lemma_turn_in_field(self.grid@, 1);
                    }
                    self.piece.rotate(&self.grid, 1);
                }
            },
            Command::MoveLeft => {
                if let Phase::Play = self.phase {
                    proof {
                        self.piece.lemma_move_in_field(self.grid@, -1);
                    }
                    self.piece.move_x(-1, &self.grid);
                }
            },
            Command::MoveRight => {
                if let Phase::Play = self.phase {
                    proof {
                        self.piece.lemma_move_in_field(self.grid@, 1);
                        self.piece.lemma_anchor_range();
                    }
                    self.piece.move_x(1, &self.grid);
                }
            },
            Command::SoftDrop => {
                if let Phase::Play = self.phase {
                    self.ticks_until_drop = 1;
                }
            },
            Command::HardDrop => {
                if let Phase::Play = self.phase {
                    let ghost start = self.piece;
                    proof {
                        start.lemma_block_on_grid();
                    }
                    self.piece.drop_down(&self.grid);
                    self.ticks_until_drop = 1;
                    proof {
                        start.lemma_fall_in_field(self.grid@, self.piece.y - start.y);
                    }
                }
            },
        }
        true
    }
}

impl SessionView {
    /// A tick that locks no piece asks for no new one: it comes to the same
    /// whatever type is offered.
    pub proof fn lemma_tick_without_lock(self, a: PieceType, b: PieceType)
        requires
            !self.locks_on_tick(),
        ensures
            self.tick(a) == self.tick(b),
    {
    }

    /// Where, at a drop, the bottom row is the only full row, that row is
    /// taken out, every other row moves down by one with its cells as they
    /// were, the score grows by 40 and the cleared lines by one.
    pub proof fn lemma_bottom_row_cleared(self, next: PieceType)
        requires
            is_board(self.grid),
            row_is_full(self.settled(next).grid[19]),
            forall|r: int| 0 <= r < 19 ==> !row_is_full(#[trigger] self.settled(next).grid[r]),
        ensures
            self.lock_and_clear(next).score == self.score + 40,
            self.lock_and_clear(next).lines_cleared == self.lines_cleared + 1,
            self.lock_and_clear(next).grid == collapsed(self.settled(next).grid, 19),
            forall|r: int|
                1 <= r < 20 ==> self.lock_and_clear(next).grid[r] == self.settled(next).grid[r
                    - 1],
    {
        lemma_clear_bottom_row(self.settled(next).grid);
    }

    /// Four rows cleared at one drop are worth 1200 points.
    pub proof fn lemma_four_rows_cleared(self, next: PieceType)
        requires
            full_rows(self.settled(next).grid) == 4,
        ensures
            self.lock_and_clear(next).score == self.score + 1200,
            self.lock_and_clear(next).lines_cleared == self.lines_cleared + 4,
    {
    }

    /// A drop ends the game exactly when the top row holds a landed block
    /// after the rows are cleared, and so does the tick that makes the
    /// drop.
    pub proof fn lemma_top_out(self, next: PieceType)
        ensures
            self.lock_and_clear(next).phase == if top_row_locked(
                cleared(self.settled(next).grid),
            ) {
                Phase::Death
            } else {
                self.phase
            },
            self.phase == Phase::Play && self.ticks_until_drop <= 0 ==> self.tick(next).phase
                == if top_row_locked(cleared(self.settled(next).grid)) {
                Phase::Death
            } else {
                Phase::Play
            },
    {
    }

    /// A tick that makes a drop at which the bottom row is the only full
    /// row, and after which the falling piece lies on no landed block:
    /// the score grows by 40 and the cleared lines by one, every row holds
    /// the landed blocks that the row above it held, and the top row holds
    /// none.
    pub proof fn lemma_tick_clears_bottom_row(self, next: PieceType)
        requires
            is_board(self.grid),
            self.phase == Phase::Play,
            self.ticks_until_drop <= 0,
            row_is_full(self.settled(next).grid[19]),
            forall|r: int| 0 <= r < 19 ==> !row_is_full(#[trigger] self.settled(next).grid[r]),
            forall|r: int, c: int| #[trigger]
                self.lock_and_clear(next).piece.covers(r, c) ==> !locked_at(
                    self.lock_and_clear(next).grid,
                    r,
                    c,
                ),
        ensures
            self.tick(next).score == self.score + 40,
            self.tick(next).lines_cleared == self.lines_cleared + 1,
            forall|r: int, c: int|
                1 <= r < 20 && 0 <= c < 10 ==> (#[trigger] locked_at(self.tick(next).grid, r, c)
                    <==> locked_at(self.settled(next).grid, r - 1, c)),
            forall|c: int| 0 <= c < 10 ==> !#[trigger] locked_at(self.tick(next).grid, 0, c),
    {
        let before = self.settled(next).grid;
        let step = self.lock_and_clear(next);
        lemma_clear_bottom_row(before);
        assert forall|r: int, c: int| 0 <= r < 20 && 0 <= c < 10 implies (#[trigger] locked_at(
            self.tick(next).grid,
            r,
            c,
        ) <==> locked_at(step.grid, r, c)) by {
            if step.piece.covers(r, c) {
                assert(!locked_at(step.grid, r, c));
            }
        }
    }

    /// Once the game is lost nothing but a restart changes the session: a
    /// tick leaves it as it is, and so does every other command.
    pub proof fn lemma_death_is_final(self, cmd: Command, next: PieceType)
        requires
            self.phase == Phase::Death,
            cmd != Command::Restart,
        ensures
            self.tick(next) == self,
            self.apply(cmd) == self,
    {
    }

    /// No command but a restart writes to the grid.
    pub proof fn lemma_commands_keep_grid(self, cmd: Command)
        requires
            cmd != Command::Restart,
        ensures
            self.apply(cmd).grid == self.grid,
    {
    }
}

} // verus!
