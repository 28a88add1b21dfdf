//! The grid: typed, bounds-checked storage for cell state. It knows nothing
//! of the game's rules; callers are the move resolver, the win detector and
//! the engine.

use vstd::prelude::*;
use crate::cells::{Cell, GameError, PlayerId};
use crate::storage::{array_filled, array_get, array_set, board_cells};

verus! {

/// A rectangular board of `rows` by `cols` cells. Row 0 is the bottom; a
/// dropped piece settles toward decreasing row index.
pub struct Grid {
    pub rows: usize,
    pub cols: usize,
    pub cells: array2d::Array2D<Cell>,
}

impl Grid {
    /// The cell stored at `(r, c)`.
    pub open spec fn cell(self, r: int, c: int) -> Cell {
        board_cells(self.cells)[(r, c)]
    }

    /// Whether `(r, c)` addresses a cell of this grid.
    pub open spec fn in_bounds(self, r: int, c: int) -> bool {
        0 <= r < self.rows && 0 <= c < self.cols
    }

    /// The stored rectangle agrees with the stated dimensions.
    pub open spec fn cells_wf(self) -> bool {
        forall|r: int, c: int|
            #[trigger] board_cells(self.cells).dom().contains((r, c)) <==> self.in_bounds(r, c)
    }

    /// Well-formedness: the backing storage matches `rows` and `cols`, whose
    /// product fits in a `usize` (it counts the stored cells).
    pub open spec fn wf(self) -> bool {
        self.rows * self.cols <= usize::MAX && self.cells_wf()
    }

    /// Every in-range cell is occupied.
    pub open spec fn full_spec(self) -> bool {
        forall|r: int, c: int| self.in_bounds(r, c) ==> (#[trigger] self.cell(r, c)) is Occupied
    }

    /// How many of the cells of column `c` with row index below `r` are occupied.
    pub open spec fn col_count_upto(self, c: int, r: int) -> nat
        decreases r,
    {
        if r <= 0 {
            0
        } else {
            self.col_count_upto(c, r - 1) + (if self.cell(r - 1, c) is Occupied { 1nat } else { 0nat })
        }
    }

    /// The number of occupied cells in column `c`.
    pub open spec fn col_height_spec(self, c: int) -> nat {
        self.col_count_upto(c, self.rows as int)
    }

    /// Column `c` is settled under gravity: its occupied cells are exactly
    /// those below its height, with no gap beneath any piece.
    pub open spec fn col_settled(self, c: int) -> bool {
        forall|r: int|
            0 <= r < self.rows ==> ((#[trigger] self.cell(r, c)) is Occupied <==> r < self.col_height_spec(c))
    }

    /// Builds a `rows` by `cols` grid with every cell `Empty`.
    pub fn new(rows: usize, cols: usize) -> (g: Grid)
        requires
            rows * cols <= usize::MAX,
        ensures
            g.wf(),
            g.rows == rows,
            g.cols == cols,
            forall|r: int, c: int| g.in_bounds(r, c) ==> (#[trigger] g.cell(r, c)) is Empty,
    {
        Grid { rows, cols, cells: array_filled(Cell::Empty, rows, cols) }
    }

    /// Looks a cell up; out-of-range indices fail with `BoundsError`, never a
    /// silent default.
    pub fn get(&self, row: usize, col: usize) -> (res: Result<Cell, GameError>)
        requires
            self.wf(),
        ensures
            self.in_bounds(row as int, col as int) ==> res == Ok::<Cell, GameError>(self.cell(row as int, col as int)),
            !self.in_bounds(row as int, col as int) ==> res == Err::<Cell, GameError>(GameError::BoundsError),
    {
        match array_get(&self.cells, row, col) {
            Some(cell) => Ok(cell),
            None => Err(GameError::BoundsError),
        }
    }

    /// Looks a cell up whose indices are known to be in range.
    pub(crate) fn cell_get(&self, row: usize, col: usize) -> (res: Cell)
        requires
            self.wf(),
            self.in_bounds(row as int, col as int),
        ensures
            res == self.cell(row as int, col as int),
    {
        match self.get(row, col) {
            Ok(cell) => cell,
            Err(_) => Cell::Empty,  // unreachable: `get` returns `Ok` on in-range indices
        }
    }

    /// Overwrites a cell unconditionally; out-of-range indices fail with
    /// `BoundsError` and leave the grid untouched. Callers enforce any rule
    /// about not overwriting occupied cells.
    pub fn set(&mut self, row: usize, col: usize, value: Cell) -> (res: Result<(), GameError>)
        requires
            old(self).wf(),
        ensures
            final(self).wf(),
            final(self).rows == old(self).rows,
            final(self).cols == old(self).cols,
            old(self).in_bounds(row as int, col as int) ==> {
                &&& res == Ok::<(), GameError>(())
                &&& final(self).cell(row as int, col as int) == value
                &&& forall|r: int, c: int|
                    old(self).in_bounds(r, c) && !(r == row as int && c == col as int)
                        ==> #[trigger] final(self).cell(r, c) == old(self).cell(r, c)
            },
            !old(self).in_bounds(row as int, col as int)
                ==> res == Err::<(), GameError>(GameError::BoundsError) && *final(self) == *old(self),
    {
        match array_set(&mut self.cells, row, col, value) {
            Ok(()) => Ok(()),
            Err(_) => Err(GameError::BoundsError),
        }
    }

    /// Reports whether no cell is `Empty`, that is, whether every `(row, col)`
    /// in range is `Occupied`.
    pub fn is_full(&self) -> (res: bool)
        requires
            self.wf(),
        ensures
            res == self.full_spec(),
    {
        let mut r: usize = 0;
        while r < self.rows
            invariant
                self.wf(),
                r <= self.rows,
                forall|r2: int, c2: int|
                    0 <= r2 < r && 0 <= c2 < self.cols ==> (#[trigger] self.cell(r2, c2)) is Occupied,
            decreases self.rows - r,
        {
            let mut c: usize = 0;
            while c < self.cols
                invariant
                    self.wf(),
                    r < self.rows,
                    c <= self.cols,
                    forall|r2: int, c2: int|
                        0 <= r2 < r && 0 <= c2 < self.cols ==> (#[trigger] self.cell(r2, c2)) is Occupied,
                    forall|c2: int| 0 <= c2 < c ==> (#[trigger] self.cell(r as int, c2)) is Occupied,
                decreases self.cols - c,
            {
                if matches!(self.cell_get(r, c), Cell::Empty) {
                    return false;
                }
                c += 1;
            }
            r += 1;
        }
        true
    }

    /// Counts the occupied cells in column `col`.
    pub fn column_height(&self, col: usize) -> (h: usize)
        requires
            self.wf(),
            (col as int) < self.cols,
        ensures
            h == self.col_height_spec(col as int),
            h <= self.rows,
    {
        let mut h: usize = 0;
        let mut r: usize = 0;
        while r < self.rows
            invariant
                self.wf(),
                (col as int) < self.cols,
                r <= self.rows,
                h == self.col_count_upto(col as int, r as int),
                h <= r,
            decreases self.rows - r,
        {
            if matches!(self.cell_get(r, col), Cell::Occupied(_)) {
                h += 1;
            }
            r += 1;
        }
        h
    }
}

/// `post` is `pre` with a piece of `p` placed at `(r, c)` and nothing else
/// changed: same dimensions, and every other in-range cell equal.
pub open spec fn placed(pre: Grid, post: Grid, r: int, c: int, p: PlayerId) -> bool {
    &&& post.rows == pre.rows
    &&& post.cols == pre.cols
    &&& pre.in_bounds(r, c)
    &&& post.cell(r, c) == Cell::Occupied(p)
    &&& forall|a: int, b: int|
        #![trigger post.cell(a, b)]
        #![trigger pre.cell(a, b)]
        pre.in_bounds(a, b) && !(a == r && b == c) ==> post.cell(a, b) == pre.cell(a, b)
}

/// A column's occupied count never exceeds the number of rows counted, and
/// reaches it exactly when every counted cell is occupied.
pub proof fn lemma_col_count_le(g: Grid, c: int, r: int)
    requires
        0 <= r,
    ensures
        g.col_count_upto(c, r) <= r,
        g.col_count_upto(c, r) == r <==> forall|i: int| 0 <= i < r ==> (#[trigger] g.cell(i, c)) is Occupied,
    decreases r,
{
    if r > 0 {
        lemma_col_count_le(g, c, r - 1);
    }
}

/// If, below row `r`, column `c` is occupied exactly below `k`, then its
/// occupied count up to `r` is the smaller of `k` and `r`.
pub proof fn lemma_col_count_prefix(g: Grid, c: int, k: int, r: int)
    requires
        0 <= k,
        0 <= r,
        forall|i: int| 0 <= i < r ==> ((#[trigger] g.cell(i, c)) is Occupied <==> i < k),
    ensures
        g.col_count_upto(c, r) == if r <= k { r } else { k },
    decreases r,
{
    if r > 0 {
        lemma_col_count_prefix(g, c, k, r - 1);
    }
}

/// Two grids that agree on column `c` below row `r` have the same occupied
/// count there.
pub proof fn lemma_col_count_frame(g1: Grid, g2: Grid, c: int, r: int)
    requires
        forall|i: int| 0 <= i < r ==> #[trigger] g1.cell(i, c) == g2.cell(i, c),
    ensures
        g1.col_count_upto(c, r) == g2.col_count_upto(c, r),
    decreases r,
{
    if r > 0 {
        lemma_col_count_frame(g1, g2, c, r - 1);
    }
}

} // verus!
