//! Arithmetic of row-major flattening: where a (row, column) pair lands in a
//! linear buffer, and when that position falls inside or past the buffer.

use vstd::prelude::*;

verus! {

/// Position of the cell at `row`, `col` in a row-major buffer whose rows are
/// `width` elements wide.
pub open spec fn flat_index(width: int, row: int, col: int) -> int {
    row * width + col
}

/// A cell whose row and column are both within the grid's bounds lands inside
/// a buffer of `width * height` elements.
pub proof fn lemma_index_in_range(width: int, height: int, row: int, col: int)
    requires
        0 <= row < height,
        0 <= col < width,
    ensures
        0 <= flat_index(width, row, col) < width * height,
{
    assert(0 <= row * width + col < width * height) by (nonlinear_arith)
        requires
            0 <= row < height,
            0 <= col < width,
    ;
}

/// A row at or past the grid's height lands at or past the end of the buffer
/// whenever the column is within the grid's width.
pub proof fn lemma_row_beyond_grid(width: int, height: int, row: int, col: int)
    requires
        0 <= height <= row,
        0 <= col < width,
    ensures
        flat_index(width, row, col) >= width * height,
{
    assert(row * width + col >= width * height) by (nonlinear_arith)
        requires
            0 <= height <= row,
            0 <= col < width,
    ;
}

/// Distinct in-bounds (row, column) pairs land at distinct buffer positions:
/// the flattening is injective on the grid's rectangle.
pub proof fn lemma_index_injective(
    width: int,
    height: int,
    row1: int,
    col1: int,
    row2: int,
    col2: int,
)
    requires
        0 <= row1 < height,
        0 <= col1 < width,
        0 <= row2 < height,
        0 <= col2 < width,
        flat_index(width, row1, col1) == flat_index(width, row2, col2),
    ensures
        row1 == row2,
        col1 == col2,
{
    assert(row1 == row2 && col1 == col2) by (nonlinear_arith)
        requires
            0 <= row1,
            0 <= row2,
            0 <= col1 < width,
            0 <= col2 < width,
            row1 * width + col1 == row2 * width + col2,
    ;
}

} // verus!
