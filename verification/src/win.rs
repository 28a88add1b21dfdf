//! The win detector: scans the grid for four same-owner pieces in an
//! unbroken horizontal, vertical or diagonal line.

use vstd::prelude::*;
use crate::cells::{Cell, PlayerId};
use crate::grid::{Grid, placed};

verus! {

/// Four pieces of `p` in row `r`, at columns `c` through `c + 3`.
pub open spec fn horiz_win_at(g: Grid, p: PlayerId, r: int, c: int) -> bool {
    &&& g.in_bounds(r, c)
    &&& g.in_bounds(r, c + 3)
    &&& g.cell(r, c) == Cell::Occupied(p)
    &&& g.cell(r, c + 1) == Cell::Occupied(p)
    &&& g.cell(r, c + 2) == Cell::Occupied(p)
    &&& g.cell(r, c + 3) == Cell::Occupied(p)
}

/// Four pieces of `p` in column `c`, at rows `r` through `r + 3`.
pub open spec fn vert_win_at(g: Grid, p: PlayerId, r: int, c: int) -> bool {
    &&& g.in_bounds(r, c)
    &&& g.in_bounds(r + 3, c)
    &&& g.cell(r, c) == Cell::Occupied(p)
    &&& g.cell(r + 1, c) == Cell::Occupied(p)
    &&& g.cell(r + 2, c) == Cell::Occupied(p)
    &&& g.cell(r + 3, c) == Cell::Occupied(p)
}

/// Four pieces of `p` on the diagonal where row and column rise together,
/// starting at `(r, c)`.
pub open spec fn diag_up_win_at(g: Grid, p: PlayerId, r: int, c: int) -> bool {
    &&& g.in_bounds(r, c)
    &&& g.in_bounds(r + 3, c + 3)
    &&& g.cell(r, c) == Cell::Occupied(p)
    &&& g.cell(r + 1, c + 1) == Cell::Occupied(p)
    &&& g.cell(r + 2, c + 2) == Cell::Occupied(p)
    &&& g.cell(r + 3, c + 3) == Cell::Occupied(p)
}

/// Four pieces of `p` on the diagonal where the row rises while the column
/// falls, starting at `(r, c)`.
pub open spec fn diag_down_win_at(g: Grid, p: PlayerId, r: int, c: int) -> bool {
    &&& g.in_bounds(r, c)
    &&& g.in_bounds(r + 3, c - 3)
    &&& g.cell(r, c) == Cell::Occupied(p)
    &&& g.cell(r + 1, c - 1) == Cell::Occupied(p)
    &&& g.cell(r + 2, c - 2) == Cell::Occupied(p)
    &&& g.cell(r + 3, c - 3) == Cell::Occupied(p)
}

/// Some four-in-a-row of `p` starts at `(r, c)`, in one of the four
/// orientations.
pub open spec fn win_at(g: Grid, p: PlayerId, r: int, c: int) -> bool {
    ||| horiz_win_at(g, p, r, c)
    ||| vert_win_at(g, p, r, c)
    ||| diag_up_win_at(g, p, r, c)
    ||| diag_down_win_at(g, p, r, c)
}

/// The grid holds a four-in-a-row owned by `p`.
pub open spec fn has_win(g: Grid, p: PlayerId) -> bool {
    exists|r: int, c: int| #[trigger] win_at(g, p, r, c)
}

/// Scans every row for four in a row.
fn check_horizontal_wins(grid: &Grid) -> (res: Option<PlayerId>)
    requires
        grid.wf(),
    ensures
        res matches Some(p) ==> has_win(*grid, p),
        res is None ==> forall|p: PlayerId, r: int, c: int| !(#[trigger] horiz_win_at(*grid, p, r, c)),
{
    let mut r: usize = 0;
    while r < grid.rows
        invariant
            grid.wf(),
            r <= grid.rows,
            forall|p: PlayerId, r2: int, c2: int| r2 < r ==> !(#[trigger] horiz_win_at(*grid, p, r2, c2)),
        decreases grid.rows - r,
    {
        if grid.cols >= 4 {
            let mut c: usize = 0;
            while c < grid.cols - 3
                invariant
                    grid.wf(),
                    grid.cols >= 4,
                    r < grid.rows,
                    c <= grid.cols - 3,
                    forall|p: PlayerId, r2: int, c2: int| r2 < r ==> !(#[trigger] horiz_win_at(*grid, p, r2, c2)),
                    forall|p: PlayerId, c2: int| c2 < c ==> !(#[trigger] horiz_win_at(*grid, p, r as int, c2)),
                decreases grid.cols - 3 - c,
            {
                let cell0 = grid.cell_get(r, c);
                let cell1 = grid.cell_get(r, c + 1);
                let cell2 = grid.cell_get(r, c + 2);
                let cell3 = grid.cell_get(r, c + 3);
                if let Cell::Occupied(p) = cell0 {
                    if cell1 == cell0 && cell2 == cell0 && cell3 == cell0 {
                        assert(win_at(*grid, p, r as int, c as int));
                        return Some(p);
                    }
                }
                c += 1;
            }
        }
        r += 1;
    }
    None
}

/// Scans every column for four in a column.
fn check_vertical_wins(grid: &Grid) -> (res: Option<PlayerId>)
    requires
        grid.wf(),
    ensures
        res matches Some(p) ==> has_win(*grid, p),
        res is None ==> forall|p: PlayerId, r: int, c: int| !(#[trigger] vert_win_at(*grid, p, r, c)),
{
    let mut c: usize = 0;
    while c < grid.cols
        invariant
            grid.wf(),
            c <= grid.cols,
            forall|p: PlayerId, r2: int, c2: int| c2 < c ==> !(#[trigger] vert_win_at(*grid, p, r2, c2)),
        decreases grid.cols - c,
    {
        if grid.rows >= 4 {
            let mut r: usize = 0;
            while r < grid.rows - 3
                invariant
                    grid.wf(),
                    grid.rows >= 4,
                    c < grid.cols,
                    r <= grid.rows - 3,
                    forall|p: PlayerId, r2: int, c2: int| c2 < c ==> !(#[trigger] vert_win_at(*grid, p, r2, c2)),
                    forall|p: PlayerId, r2: int| r2 < r ==> !(#[trigger] vert_win_at(*grid, p, r2, c as int)),
                decreases grid.rows - 3 - r,
            {
                let cell0 = grid.cell_get(r, c);
                let cell1 = grid.cell_get(r + 1, c);
                let cell2 = grid.cell_get(r + 2, c);
                let cell3 = grid.cell_get(r + 3, c);
                if let Cell::Occupied(p) = cell0 {
                    if cell1 == cell0 && cell2 == cell0 && cell3 == cell0 {
                        assert(win_at(*grid, p, r as int, c as int));
                        return Some(p);
                    }
                }
                r += 1;
            }
        }
        c += 1;
    }
    None
}

/// Scans both diagonal orientations for four in a line.
fn check_diagonal_wins(grid: &Grid) -> (res: Option<PlayerId>)
    requires
        grid.wf(),
    ensures
        res matches Some(p) ==> has_win(*grid, p),
        res is None ==> forall|p: PlayerId, r: int, c: int| !(#[trigger] diag_up_win_at(*grid, p, r, c)),
        res is None ==> forall|p: PlayerId, r: int, c: int| !(#[trigger] diag_down_win_at(*grid, p, r, c)),
{
    if grid.rows >= 4 && grid.cols >= 4 {
        let mut r: usize = 0;
        while r < grid.rows - 3
            invariant
                grid.wf(),
                grid.rows >= 4,
                grid.cols >= 4,
                r <= grid.rows - 3,
                forall|p: PlayerId, r2: int, c2: int| r2 < r ==> !(#[trigger] diag_up_win_at(*grid, p, r2, c2)),
            decreases grid.rows - 3 - r,
        {
            let mut c: usize = 0;
            while c < grid.cols - 3
                invariant
                    grid.wf(),
                    grid.rows >= 4,
                    grid.cols >= 4,
                    r < grid.rows - 3,
                    c <= grid.cols - 3,
                    forall|p: PlayerId, r2: int, c2: int| r2 < r ==> !(#[trigger] diag_up_win_at(*grid, p, r2, c2)),
                    forall|p: PlayerId, c2: int| c2 < c ==> !(#[trigger] diag_up_win_at(*grid, p, r as int, c2)),
                decreases grid.cols - 3 - c,
            {
                let cell0 = grid.cell_get(r, c);
                let cell1 = grid.cell_get(r + 1, c + 1);
                let cell2 = grid.cell_get(r + 2, c + 2);
                let cell3 = grid.cell_get(r + 3, c + 3);
                if let Cell::Occupied(p) = cell0 {
                    if cell1 == cell0 && cell2 == cell0 && cell3 == cell0 {
                        assert(win_at(*grid, p, r as int, c as int));
                        return Some(p);
                    }
                }
                c += 1;
            }
            r += 1;
        }
        let mut r: usize = 0;
        while r < grid.rows - 3
            invariant
                grid.wf(),
                grid.rows >= 4,
                grid.cols >= 4,
                r <= grid.rows - 3,
                forall|p: PlayerId, r2: int, c2: int| !(#[trigger] diag_up_win_at(*grid, p, r2, c2)),
                forall|p: PlayerId, r2: int, c2: int| r2 < r ==> !(#[trigger] diag_down_win_at(*grid, p, r2, c2)),
            decreases grid.rows - 3 - r,
        {
            let mut c: usize = 3;
            while c < grid.cols
                invariant
                    grid.wf(),
                    grid.rows >= 4,
                    grid.cols >= 4,
                    r < grid.rows - 3,
                    3 <= c <= grid.cols,
                    forall|p: PlayerId, r2: int, c2: int| !(#[trigger] diag_up_win_at(*grid, p, r2, c2)),
                    forall|p: PlayerId, r2: int, c2: int| r2 < r ==> !(#[trigger] diag_down_win_at(*grid, p, r2, c2)),
                    forall|p: PlayerId, c2: int| c2 < c ==> !(#[trigger] diag_down_win_at(*grid, p, r as int, c2)),
                decreases grid.cols - c,
            {
                let cell0 = grid.cell_get(r, c);
                let cell1 = grid.cell_get(r + 1, c - 1);
                let cell2 = grid.cell_get(r + 2, c - 2);
                let cell3 = grid.cell_get(r + 3, c - 3);
                if let Cell::Occupied(p) = cell0 {
                    if cell1 == cell0 && cell2 == cell0 && cell3 == cell0 {
                        assert(win_at(*grid, p, r as int, c as int));
                        return Some(p);
                    }
                }
                c += 1;
            }
            r += 1;
        }
    }
    None
}

/// Determines whether the grid holds four same-owner cells in an unbroken
/// line, and if so whose. Scans horizontals, then verticals, then the two
/// diagonal orientations. Whenever some player has a four-in-a-row the result
/// is `Some` of a player with one; it is `None` exactly when no player has
/// any.
pub fn find_winner(grid: &Grid) -> (res: Option<PlayerId>)
    requires
        grid.wf(),
    ensures
        res matches Some(p) ==> has_win(*grid, p),
        res is None ==> forall|p: PlayerId| !(#[trigger] has_win(*grid, p)),
{
    let res = if let Some(p) = check_horizontal_wins(grid) {
        Some(p)
    } else if let Some(p) = check_vertical_wins(grid) {
        Some(p)
    } else if let Some(p) = check_diagonal_wins(grid) {
        Some(p)
    } else {
        None
    };
    proof {
        if res is None {
            assert forall|p: PlayerId| !has_win(*grid, p) by {
                assert forall|r: int, c: int| !win_at(*grid, p, r, c) by {
                    assert(!horiz_win_at(*grid, p, r, c));
                    assert(!vert_win_at(*grid, p, r, c));
                    assert(!diag_up_win_at(*grid, p, r, c));
                    assert(!diag_down_win_at(*grid, p, r, c));
                }
            }
        }
    }
    res
}

/// A grid whose every cell is empty holds no four-in-a-row for anyone.
pub proof fn lemma_empty_grid_no_win(g: Grid, p: PlayerId)
    requires
        forall|r: int, c: int| g.in_bounds(r, c) ==> (#[trigger] g.cell(r, c)) is Empty,
    ensures
        !has_win(g, p),
{
    assert forall|r: int, c: int| !win_at(g, p, r, c) by {
        assert(g.in_bounds(r, c) ==> g.cell(r, c) is Empty);
    }
}

/// Placing one piece of `p` cannot give the other player a four-in-a-row:
/// every line through the new cell holds a piece that is not theirs, and
/// every other line is unchanged.
pub proof fn lemma_no_win_for_other(pre: Grid, post: Grid, r: int, c: int, p: PlayerId, q: PlayerId)
    requires
        placed(pre, post, r, c, p),
        q != p,
        !has_win(pre, q),
    ensures
        !has_win(post, q),
{
    assert forall|r2: int, c2: int| !win_at(post, q, r2, c2) by {
        if horiz_win_at(post, q, r2, c2) {
            assert(horiz_win_at(pre, q, r2, c2));
            assert(win_at(pre, q, r2, c2));
        }
        if vert_win_at(post, q, r2, c2) {
            assert(vert_win_at(pre, q, r2, c2));
            assert(win_at(pre, q, r2, c2));
        }
        if diag_up_win_at(post, q, r2, c2) {
            assert(diag_up_win_at(pre, q, r2, c2));
            assert(win_at(pre, q, r2, c2));
        }
        if diag_down_win_at(post, q, r2, c2) {
            assert(diag_down_win_at(pre, q, r2, c2));
            assert(win_at(pre, q, r2, c2));
        }
    }
}

} // verus!
