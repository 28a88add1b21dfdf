//! The move resolver: translates "drop a piece in column `c`" into the
//! concrete destination row that gravity gives it, or reports that the column
//! cannot take a piece.

use vstd::prelude::*;
use crate::cells::{Cell, GameError};
use crate::grid::{Grid, lemma_col_count_le};

verus! {

/// Finds the destination of a drop into `column`: the lowest row whose cell
/// is `Empty`, every row below it being `Occupied`. Fails with `BoundsError`
/// when the column is out of range and with `ColumnFullError` when the column
/// holds as many pieces as the grid has rows. On a settled column (the
/// invariant the engine maintains) the returned row equals the column's
/// height, and its cell is empty.
pub fn resolve_drop(grid: &Grid, column: usize) -> (res: Result<usize, GameError>)
    requires
        grid.wf(),
    ensures
        column < grid.cols ==> grid.col_height_spec(column as int) <= grid.rows,
        res == Err::<usize, GameError>(GameError::BoundsError) <==> column >= grid.cols,
        res == Err::<usize, GameError>(GameError::ColumnFullError)
            <==> column < grid.cols && grid.col_height_spec(column as int) == grid.rows,
        res is Ok <==> column < grid.cols && grid.col_height_spec(column as int) < grid.rows,
        res matches Ok(r) ==> {
            &&& r < grid.rows
            &&& grid.cell(r as int, column as int) is Empty
            &&& forall|i: int| 0 <= i < r ==> (#[trigger] grid.cell(i, column as int)) is Occupied
            &&& grid.col_settled(column as int) ==> r == grid.col_height_spec(column as int)
        },
{
    if column >= grid.cols {
        return Err(GameError::BoundsError);
    }
    let mut r: usize = 0;
    while r < grid.rows
        invariant
            grid.wf(),
            column < grid.cols,
            r <= grid.rows,
            forall|i: int| 0 <= i < r ==> (#[trigger] grid.cell(i, column as int)) is Occupied,
        decreases grid.rows - r,
    {
        if matches!(grid.cell_get(r, column), Cell::Empty) {
            proof {
                lemma_col_count_le(*grid, column as int, grid.rows as int);
                if grid.col_settled(column as int) && r > grid.col_height_spec(column as int) {
                    assert(grid.cell(grid.col_height_spec(column as int) as int, column as int) is Occupied);
                }
            }
            return Ok(r);
        }
        r += 1;
    }
    proof {
        lemma_col_count_le(*grid, column as int, grid.rows as int);
    }
    Err(GameError::ColumnFullError)
}

} // verus!
