//! The trusted boundary around `array2d`, the crate that stores the board's
//! cells. Everything else in the library is verified against the contracts
//! stated here.

use vstd::prelude::*;
use crate::cells::Cell;

verus! {

#[verifier::external_type_specification]
#[verifier::external_body]
#[verifier::reject_recursive_types(T)]
pub struct ExArray2D<T>(array2d::Array2D<T>);

#[verifier::external_type_specification]
#[verifier::external_body]
pub struct ExArray2DError(array2d::Error);

/// The cells that an `array2d::Array2D` holds, as a map from `(row, column)`
/// to the stored value. The map's domain is the array's index rectangle; the
/// contracts of the functions below say how each call reads or changes it.
pub uninterp spec fn board_cells(a: array2d::Array2D<Cell>) -> Map<(int, int), Cell>;

/// Relies on `array2d::Array2D::filled_with`: it builds an array of
/// `num_rows * num_columns` elements, each a clone of `element`, indexed by
/// every pair below those dimensions.
#[verifier::external_body]
pub(crate) fn array_filled(element: Cell, num_rows: usize, num_columns: usize) -> (a: array2d::Array2D<Cell>)
    requires
        num_rows * num_columns <= usize::MAX,
    ensures
        forall|r: int, c: int|
            #[trigger] board_cells(a).dom().contains((r, c)) <==> (0 <= r < num_rows && 0 <= c < num_columns),
        forall|r: int, c: int|
            0 <= r < num_rows && 0 <= c < num_columns ==> (#[trigger] board_cells(a)[(r, c)]) == element,
{
    array2d::Array2D::filled_with(element, num_rows, num_columns)
}

/// Relies on `array2d::Array2D::get`: it returns `Some` of the element at
/// `row`, `column` when both indices are in bounds, and `None` otherwise.
#[verifier::external_body]
pub(crate) fn array_get(a: &array2d::Array2D<Cell>, row: usize, column: usize) -> (r: Option<Cell>)
    ensures
        board_cells(*a).dom().contains((row as int, column as int))
            ==> r == Some(board_cells(*a)[(row as int, column as int)]),
        !board_cells(*a).dom().contains((row as int, column as int)) ==> r is None,
{
    a.get(row, column).cloned()
}

/// Relies on `array2d::Array2D::set`: it overwrites the element at `row`,
/// `column` and returns `Ok` when both indices are in bounds, and returns
/// `Err` leaving the array untouched otherwise.
#[verifier::external_body]
pub(crate) fn array_set(
    a: &mut array2d::Array2D<Cell>,
    row: usize,
    column: usize,
    element: Cell,
) -> (r: Result<(), array2d::Error>)
    ensures
        board_cells(*old(a)).dom().contains((row as int, column as int))
            ==> r is Ok
                && board_cells(*final(a)) == board_cells(*old(a)).insert((row as int, column as int), element),
        !board_cells(*old(a)).dom().contains((row as int, column as int))
            ==> r is Err && *final(a) == *old(a),
{
    a.set(row, column, element)
}

} // verus!
