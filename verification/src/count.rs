//! Population-counting specifications and their algebra.
//!
//! The update pass accumulates the next generation's population tile by
//! tile. These spec functions count alive cells over axis-aligned rectangles
//! of a row-major sequence, and the lemmas let rectangle counts be split and
//! recombined along either axis, which is exactly the shape of the tiled
//! two-level reduction.

use vstd::prelude::*;

verus! {

/// `1` if the cell at column `x`, row `y` of the row-major sequence `s`
/// (width `w`) is alive, else `0`.
pub open spec fn cell_weight(s: Seq<u32>, w: int, x: int, y: int) -> int {
    if s[y * w + x] == 1 {
        1
    } else {
        0
    }
}

/// Number of alive cells in row `y`, columns `x0 <= x < x1`.
pub open spec fn row_count(s: Seq<u32>, w: int, x0: int, x1: int, y: int) -> int
    decreases x1 - x0,
{
    if x1 <= x0 {
        0
    } else {
        row_count(s, w, x0, x1 - 1, y) + cell_weight(s, w, x1 - 1, y)
    }
}

/// Number of alive cells in the rectangle of columns `x0 <= x < x1` and
/// rows `y0 <= y < y1`.
pub open spec fn rect_count(s: Seq<u32>, w: int, x0: int, x1: int, y0: int, y1: int) -> int
    decreases y1 - y0,
{
    if y1 <= y0 {
        0
    } else {
        rect_count(s, w, x0, x1, y0, y1 - 1) + row_count(s, w, x0, x1, y1 - 1)
    }
}

/// Number of alive cells in the whole `w` by `h` grid held by `s`.
pub open spec fn alive_count(s: Seq<u32>, w: int, h: int) -> int {
    rect_count(s, w, 0, w, 0, h)
}

/// A row count splits at any interior column.
pub proof fn lemma_row_split(s: Seq<u32>, w: int, x0: int, xm: int, x1: int, y: int)
    requires
        x0 <= xm <= x1,
    ensures
        row_count(s, w, x0, x1, y) == row_count(s, w, x0, xm, y) + row_count(s, w, xm, x1, y),
    decreases x1 - xm,
{
    if x1 == xm {
        // row_count(s, w, xm, x1, y) == 0
    } else {
        lemma_row_split(s, w, x0, xm, x1 - 1, y);
    }
}

/// A rectangle count splits at any interior row.
pub proof fn lemma_rect_split_rows(s: Seq<u32>, w: int, x0: int, x1: int, y0: int, ym: int, y1: int)
    requires
        y0 <= ym <= y1,
    ensures
        rect_count(s, w, x0, x1, y0, y1) == rect_count(s, w, x0, x1, y0, ym) + rect_count(
            s,
            w,
            x0,
            x1,
            ym,
            y1,
        ),
    decreases y1 - ym,
{
    if y1 == ym {
    } else {
        lemma_rect_split_rows(s, w, x0, x1, y0, ym, y1 - 1);
    }
}

/// A rectangle count splits at any interior column.
pub proof fn lemma_rect_split_cols(s: Seq<u32>, w: int, x0: int, xm: int, x1: int, y0: int, y1: int)
    requires
        x0 <= xm <= x1,
        y0 <= y1,
    ensures
        rect_count(s, w, x0, x1, y0, y1) == rect_count(s, w, x0, xm, y0, y1) + rect_count(
            s,
            w,
            xm,
            x1,
            y0,
            y1,
        ),
    decreases y1 - y0,
{
    if y1 == y0 {
    } else {
        lemma_rect_split_cols(s, w, x0, xm, x1, y0, y1 - 1);
        lemma_row_split(s, w, x0, xm, x1, y1 - 1);
    }
}

/// A row count is bounded by the number of columns counted.
pub proof fn lemma_row_bounds(s: Seq<u32>, w: int, x0: int, x1: int, y: int)
    requires
        x0 <= x1,
    ensures
        0 <= row_count(s, w, x0, x1, y) <= x1 - x0,
    decreases x1 - x0,
{
    if x1 == x0 {
    } else {
        lemma_row_bounds(s, w, x0, x1 - 1, y);
    }
}

/// A rectangle count is bounded by the rectangle's area.
pub proof fn lemma_rect_bounds(s: Seq<u32>, w: int, x0: int, x1: int, y0: int, y1: int)
    requires
        x0 <= x1,
        y0 <= y1,
    ensures
        0 <= rect_count(s, w, x0, x1, y0, y1) <= (x1 - x0) * (y1 - y0),
    decreases y1 - y0,
{
    if y1 == y0 {
    } else {
        lemma_rect_bounds(s, w, x0, x1, y0, y1 - 1);
        lemma_row_bounds(s, w, x0, x1, y1 - 1);
        assert((x1 - x0) * (y1 - 1 - y0) + (x1 - x0) == (x1 - x0) * (y1 - y0)) by (nonlinear_arith);
    }
}

} // verus!
