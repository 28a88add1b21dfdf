//! The game engine: owns the grid, the current turn and the game status, and
//! processes one move at a time through the resolver and the win detector.

use vstd::prelude::*;
use crate::cells::{Cell, GameError, PlayerId};
use crate::grid::{Grid, lemma_col_count_frame, lemma_col_count_prefix, placed};
use crate::resolve::resolve_drop;
use crate::win::{find_winner, has_win, lemma_empty_grid_no_win, lemma_no_win_for_other};

verus! {

/// Where the game stands. Once `Won` or `Draw`, only an explicit `reset`
/// returns the engine to `Playing`.
#[derive(Clone, Copy, PartialEq, Eq, Structural, Debug)]
pub enum GameStatus {
    Playing,
    Won(PlayerId),
    Draw,
}

/// What a successful move did to the game.
#[derive(Clone, Copy, PartialEq, Eq, Structural, Debug)]
pub enum MoveOutcome {
    /// The move completed a four-in-a-row for the mover.
    Win,
    /// The move filled the last empty cell without a four-in-a-row.
    Draw,
    /// The game goes on; the turn passes to the other player.
    Continue,
}

/// One game session: a grid, the player whose turn it is, and the status
/// state machine. Mutated only through `attempt_move` and `reset`.
pub struct GameEngine {
    pub grid: Grid,
    pub turn: PlayerId,
    pub status: GameStatus,
}

/// The move `player` wants — dropping into `column` — is legal in `pre`: it
/// is their turn, the game is still on, and the column is in range with room
/// left. `attempt_move` succeeds exactly on these moves.
pub open spec fn move_allowed(pre: GameEngine, player: PlayerId, column: int) -> bool {
    &&& player == pre.turn
    &&& pre.status is Playing
    &&& 0 <= column < pre.grid.cols
    &&& pre.grid.col_height_spec(column) < pre.grid.rows
}

/// One successful move by `player` into `column` took `pre` to `post` and the
/// game went on: the piece settled on top of the column and the turn passed
/// to the other player.
pub open spec fn continue_move(pre: GameEngine, post: GameEngine, player: PlayerId, column: int) -> bool {
    &&& move_allowed(pre, player, column)
    &&& placed(pre.grid, post.grid, pre.grid.col_height_spec(column) as int, column, player)
    &&& post.status is Playing
    &&& post.turn == player.other_spec()
}

impl GameEngine {
    /// The engine's invariant: the grid is well formed, every column is
    /// settled under gravity, and while the game is on nobody has a
    /// four-in-a-row yet.
    pub open spec fn wf(self) -> bool {
        &&& self.grid.wf()
        &&& forall|c: int| 0 <= c < self.grid.cols ==> #[trigger] self.grid.col_settled(c)
        &&& self.status is Playing ==> forall|p: PlayerId| !(#[trigger] has_win(self.grid, p))
    }

    /// Starts a session on an empty `rows` by `cols` grid, `Player1` to move.
    pub fn new(rows: usize, cols: usize) -> (e: GameEngine)
        requires
            rows * cols <= usize::MAX,
        ensures
            e.wf(),
            e.grid.rows == rows,
            e.grid.cols == cols,
            e.status == GameStatus::Playing,
            e.turn == PlayerId::Player1,
            forall|r: int, c: int| e.grid.in_bounds(r, c) ==> (#[trigger] e.grid.cell(r, c)) is Empty,
    {
        let e = GameEngine {
            grid: Grid::new(rows, cols),
            turn: PlayerId::Player1,
            status: GameStatus::Playing,
        };
        proof {
            lemma_fresh_grid_wf(e);
        }
        e
    }

    /// Reinitializes the session: every cell `Empty`, status `Playing`,
    /// `Player1` to move. The dimensions stay what they were.
    pub fn reset(&mut self)
        requires
            old(self).wf(),
        ensures
            final(self).wf(),
            final(self).grid.rows == old(self).grid.rows,
            final(self).grid.cols == old(self).grid.cols,
            final(self).status == GameStatus::Playing,
            final(self).turn == PlayerId::Player1,
            forall|r: int, c: int|
                final(self).grid.in_bounds(r, c) ==> (#[trigger] final(self).grid.cell(r, c)) is Empty,
    {
        let rows = self.grid.rows;
        let cols = self.grid.cols;
        self.grid = Grid::new(rows, cols);
        self.turn = PlayerId::Player1;
        self.status = GameStatus::Playing;
        proof {
            lemma_fresh_grid_wf(*self);
        }
    }

    /// Processes "player X requests column C". Rejections leave the whole
    /// state untouched; a success places exactly one piece, then either ends
    /// the game (`Win` or `Draw`) or passes the turn.
    pub fn attempt_move(&mut self, player: PlayerId, column: usize) -> (res: Result<MoveOutcome, GameError>)
        requires
            old(self).wf(),
        ensures
            final(self).wf(),
            final(self).grid.rows == old(self).grid.rows,
            final(self).grid.cols == old(self).grid.cols,
            res is Err ==> *final(self) == *old(self),
            res == Err::<MoveOutcome, GameError>(GameError::NotPlayersTurn) <==> player != old(self).turn,
            res == Err::<MoveOutcome, GameError>(GameError::GameAlreadyOver)
                <==> player == old(self).turn && !(old(self).status is Playing),
            res == Err::<MoveOutcome, GameError>(GameError::BoundsError)
                <==> player == old(self).turn && old(self).status is Playing && column >= old(self).grid.cols,
            res == Err::<MoveOutcome, GameError>(GameError::ColumnFullError)
                <==> player == old(self).turn && old(self).status is Playing && column < old(self).grid.cols
                    && old(self).grid.col_height_spec(column as int) == old(self).grid.rows,
            res is Ok <==> move_allowed(*old(self), player, column as int),
            res is Ok ==> {
                &&& placed(
                    old(self).grid,
                    final(self).grid,
                    old(self).grid.col_height_spec(column as int) as int,
                    column as int,
                    player,
                )
                &&& old(self).grid.cell(old(self).grid.col_height_spec(column as int) as int, column as int)
                    is Empty
            },
            res == Ok::<MoveOutcome, GameError>(MoveOutcome::Win)
                <==> move_allowed(*old(self), player, column as int) && has_win(final(self).grid, player),
            res == Ok::<MoveOutcome, GameError>(MoveOutcome::Draw)
                <==> move_allowed(*old(self), player, column as int) && !has_win(final(self).grid, player)
                    && final(self).grid.full_spec(),
            res == Ok::<MoveOutcome, GameError>(MoveOutcome::Continue)
                <==> move_allowed(*old(self), player, column as int) && !has_win(final(self).grid, player)
                    && !final(self).grid.full_spec(),
            res == Ok::<MoveOutcome, GameError>(MoveOutcome::Win)
                ==> final(self).status == GameStatus::Won(player) && final(self).turn == old(self).turn,
            res == Ok::<MoveOutcome, GameError>(MoveOutcome::Draw)
                ==> final(self).status == GameStatus::Draw && final(self).turn == old(self).turn,
            res == Ok::<MoveOutcome, GameError>(MoveOutcome::Continue)
                ==> continue_move(*old(self), *final(self), player, column as int),
    {
        if player != self.turn {
            return Err(GameError::NotPlayersTurn);
        }
        if !matches!(self.status, GameStatus::Playing) {
            return Err(GameError::GameAlreadyOver);
        }
        let row = match resolve_drop(&self.grid, column) {
            Ok(r) => r,
            Err(e) => {
                return Err(e);
            },
        };
        let ghost pre = *self;
        let _ = self.grid.set(row, column, Cell::Occupied(player));
        proof {
            lemma_move_keeps_settled(pre, *self, player, row as int, column as int);
        }
        match find_winner(&self.grid) {
            Some(winner) => {
                proof {
                    if winner != player {
                        lemma_no_win_for_other(pre.grid, self.grid, row as int, column as int, player, winner);
                    }
                }
                self.status = GameStatus::Won(player);
                Ok(MoveOutcome::Win)
            },
            None => {
                if self.grid.is_full() {
                    self.status = GameStatus::Draw;
                    Ok(MoveOutcome::Draw)
                } else {
                    self.turn = player.other();
                    Ok(MoveOutcome::Continue)
                }
            },
        }
    }

    /// The player whose turn it is.
    pub fn current_turn(&self) -> (p: PlayerId)
        ensures
            p == self.turn,
    {
        self.turn
    }

    /// Where the game stands.
    pub fn status(&self) -> (s: GameStatus)
        ensures
            s == self.status,
    {
        self.status
    }

    /// Reads one cell of the grid; out-of-range indices fail with
    /// `BoundsError`.
    pub fn cell_at(&self, row: usize, col: usize) -> (res: Result<Cell, GameError>)
        requires
            self.wf(),
        ensures
            self.grid.in_bounds(row as int, col as int)
                ==> res == Ok::<Cell, GameError>(self.grid.cell(row as int, col as int)),
            !self.grid.in_bounds(row as int, col as int)
                ==> res == Err::<Cell, GameError>(GameError::BoundsError),
    {
        self.grid.get(row, col)
    }

    /// The grid's dimensions, as `(rows, columns)`.
    pub fn dimensions(&self) -> (d: (usize, usize))
        ensures
            d.0 == self.grid.rows,
            d.1 == self.grid.cols,
    {
        (self.grid.rows, self.grid.cols)
    }
}

impl Default for GameEngine {
    /// Starts a session on the standard six-row, seven-column grid.
    fn default() -> (e: GameEngine)
        ensures
            e.wf(),
            e.grid.rows == 6,
            e.grid.cols == 7,
            e.status == GameStatus::Playing,
            e.turn == PlayerId::Player1,
            forall|r: int, c: int| e.grid.in_bounds(r, c) ==> (#[trigger] e.grid.cell(r, c)) is Empty,
    {
        GameEngine::new(6, 7)
    }
}

/// An engine whose grid is entirely empty and whose status is `Playing`
/// satisfies the invariant.
proof fn lemma_fresh_grid_wf(e: GameEngine)
    requires
        e.grid.wf(),
        forall|r: int, c: int| e.grid.in_bounds(r, c) ==> (#[trigger] e.grid.cell(r, c)) is Empty,
    ensures
        forall|c: int| 0 <= c < e.grid.cols ==> #[trigger] e.grid.col_settled(c),
        forall|p: PlayerId| !(#[trigger] has_win(e.grid, p)),
{
    assert forall|c: int| 0 <= c < e.grid.cols implies #[trigger] e.grid.col_settled(c) by {
        assert forall|i: int| 0 <= i < e.grid.rows implies !((#[trigger] e.grid.cell(i, c)) is Occupied) by {
            assert(e.grid.cell(i, c) is Empty);
        }
        lemma_col_count_prefix(e.grid, c, 0, e.grid.rows as int);
    }
    assert forall|p: PlayerId| !(#[trigger] has_win(e.grid, p)) by {
        lemma_empty_grid_no_win(e.grid, p);
    }
}

/// Placing a piece on top of a settled column keeps every column settled:
/// the touched column's height grows by one, the others are untouched.
proof fn lemma_move_keeps_settled(pre: GameEngine, post: GameEngine, player: PlayerId, row: int, column: int)
    requires
        pre.wf(),
        post.grid.rows == pre.grid.rows,
        post.grid.cols == pre.grid.cols,
        0 <= column < pre.grid.cols,
        row == pre.grid.col_height_spec(column),
        row < pre.grid.rows,
        placed(pre.grid, post.grid, row, column, player),
    ensures
        forall|c: int| 0 <= c < post.grid.cols ==> #[trigger] post.grid.col_settled(c),
        post.grid.col_height_spec(column) == pre.grid.col_height_spec(column) + 1,
{
    assert forall|i: int| 0 <= i < post.grid.rows implies ((#[trigger] post.grid.cell(i, column))
        is Occupied <==> i < row + 1) by {
        if i != row {
            assert(post.grid.cell(i, column) == pre.grid.cell(i, column));
            assert(pre.grid.col_settled(column));
            assert(pre.grid.cell(i, column) is Occupied <==> i < row);
        }
    }
    lemma_col_count_prefix(post.grid, column, row + 1, post.grid.rows as int);
    assert forall|c: int| 0 <= c < post.grid.cols implies #[trigger] post.grid.col_settled(c) by {
        if c != column {
            assert forall|i: int| 0 <= i < post.grid.rows implies #[trigger] pre.grid.cell(i, c)
                == post.grid.cell(i, c) by {
                assert(post.grid.cell(i, c) == pre.grid.cell(i, c));
            }
            lemma_col_count_frame(pre.grid, post.grid, c, post.grid.rows as int);
            assert(pre.grid.col_settled(c));
            assert forall|i: int| 0 <= i < post.grid.rows implies ((#[trigger] post.grid.cell(i, c))
                is Occupied <==> i < post.grid.col_height_spec(c)) by {
                assert(pre.grid.cell(i, c) is Occupied <==> i < pre.grid.col_height_spec(c));
            }
        }
    }
}

/// Turn alternation: two consecutive successful moves that both leave the
/// game running are never made by the same player.
pub proof fn lemma_turns_alternate(
    s0: GameEngine,
    s1: GameEngine,
    s2: GameEngine,
    p: PlayerId,
    q: PlayerId,
    c1: int,
    c2: int,
)
    requires
        continue_move(s0, s1, p, c1),
        continue_move(s1, s2, q, c2),
    ensures
        q == p.other_spec(),
        q != p,
{
}

} // verus!
