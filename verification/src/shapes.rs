//! The shapes the rasterizer knows, as sequences of grid cells in the
//! order in which they are plotted.

use crate::root::{lemma_rounded_root_bounds, rounded_root};
use crate::surface::Cell;
use vstd::prelude::*;

verus! {

/// The number of integers in the half-open range `[low, high)`.
pub open spec fn span_length(low: int, high: int) -> nat {
    if low < high {
        (high - low) as nat
    } else {
        0
    }
}

/// The cells of row `y` with `x_min <= x < x_max`, left to right.
pub open spec fn horizontal_span(x_min: int, x_max: int, y: int) -> Seq<Cell> {
    Seq::new(span_length(x_min, x_max), |i: int| Cell { x: x_min + i, y })
}

/// The cells of column `x` with `y_min <= y < y_max`, top to bottom.
pub open spec fn vertical_span(x: int, y_min: int, y_max: int) -> Seq<Cell> {
    Seq::new(span_length(y_min, y_max), |i: int| Cell { x, y: y_min + i })
}

/// The cells of the half-open rectangle `[x0, x1) x [y0, y1)`, row by
/// row from the top, each row left to right.
pub open spec fn filled_box(x0: int, y0: int, x1: int, y1: int) -> Seq<Cell>
    decreases y1 - y0,
{
    if y1 <= y0 {
        Seq::empty()
    } else {
        filled_box(x0, y0, x1, y1 - 1) + horizontal_span(x0, x1, y1 - 1)
    }
}

/// Half the height of a disc of the given radius in the column `dx`
/// pixels away from its centre: the root of `radius^2 - dx^2`, rounded
/// to the nearest integer with halves rounded up.
pub open spec fn half_chord(radius: int, dx: int) -> int {
    rounded_root(radius * radius - dx * dx)
}

/// The cells of the disc's column at offset `dx`, top to bottom.
pub open spec fn disc_column(cx: int, cy: int, radius: int, dx: int) -> Seq<Cell> {
    vertical_span(cx + dx, cy - half_chord(radius, dx), cy + half_chord(radius, dx))
}

/// The disc's columns at offsets `-radius <= dx < end`, left to right.
pub open spec fn disc_columns(cx: int, cy: int, radius: int, end: int) -> Seq<Cell>
    decreases end + radius,
{
    if end <= -radius {
        Seq::empty()
    } else {
        disc_columns(cx, cy, radius, end - 1) + disc_column(cx, cy, radius, end - 1)
    }
}

/// The cells of the filled disc around `(cx, cy)`: one vertical span per
/// column offset `-radius <= dx < radius`, left to right. Empty when
/// `radius <= 0`.
pub open spec fn filled_disc(cx: int, cy: int, radius: int) -> Seq<Cell> {
    disc_columns(cx, cy, radius, radius)
}

/// A span holds exactly `x_max - x_min` cells when `x_min <= x_max`, all
/// in row `y`, at the columns `x_min, x_min + 1, ..., x_max - 1` in
/// that order.
pub proof fn lemma_horizontal_span_cells(x_min: int, x_max: int, y: int)
    requires
        x_min <= x_max,
    ensures
        horizontal_span(x_min, x_max, y).len() == x_max - x_min,
        forall|i: int|
            0 <= i < x_max - x_min ==> #[trigger] horizontal_span(x_min, x_max, y)[i] == (Cell {
                x: x_min + i,
                y,
            }),
{
}

/// A cell lies on a horizontal span exactly if it is in the span's row
/// and its column is in `[x_min, x_max)`.
pub proof fn lemma_horizontal_span_contains(x_min: int, x_max: int, y: int, cell: Cell)
    ensures
        horizontal_span(x_min, x_max, y).contains(cell) <==> cell.y == y && x_min <= cell.x
            < x_max,
{
    let span = horizontal_span(x_min, x_max, y);
    if cell.y == y && x_min <= cell.x < x_max {
        assert(span[cell.x - x_min] == cell);
    }
}

/// A cell lies on a vertical span exactly if it is in the span's column
/// and its row is in `[y_min, y_max)`.
pub proof fn lemma_vertical_span_contains(x: int, y_min: int, y_max: int, cell: Cell)
    ensures
        vertical_span(x, y_min, y_max).contains(cell) <==> cell.x == x && y_min <= cell.y
            < y_max,
{
    let span = vertical_span(x, y_min, y_max);
    if cell.x == x && y_min <= cell.y < y_max {
        assert(span[cell.y - y_min] == cell);
    }
}

/// A cell is in a concatenation exactly if it is in one of the parts.
proof fn lemma_concat_contains(first: Seq<Cell>, second: Seq<Cell>, cell: Cell)
    ensures
        (first + second).contains(cell) <==> first.contains(cell) || second.contains(cell),
{
    let both = first + second;
    if first.contains(cell) {
        let i = choose|i: int| 0 <= i < first.len() && first[i] == cell;
        assert(both[i] == cell);
    }
    if second.contains(cell) {
        let i = choose|i: int| 0 <= i < second.len() && second[i] == cell;
        assert(both[first.len() + i] == cell);
    }
    if both.contains(cell) {
        let i = choose|i: int| 0 <= i < both.len() && both[i] == cell;
        if i < first.len() {
            assert(first[i] == cell);
        } else {
            assert(second[i - first.len()] == cell);
        }
    }
}

/// A filled box covers exactly the cells of its half-open rectangle.
pub proof fn lemma_filled_box_contains(x0: int, y0: int, x1: int, y1: int, cell: Cell)
    ensures
        filled_box(x0, y0, x1, y1).contains(cell) <==> x0 <= cell.x < x1 && y0 <= cell.y < y1,
    decreases y1 - y0,
{
    if y1 > y0 {
        lemma_filled_box_contains(x0, y0, x1, y1 - 1, cell);
        lemma_horizontal_span_contains(x0, x1, y1 - 1, cell);
        lemma_concat_contains(
            filled_box(x0, y0, x1, y1 - 1),
            horizontal_span(x0, x1, y1 - 1),
            cell,
        );
    }
}

/// The first `end + radius` columns of a disc cover exactly the cells
/// whose column offset `dx` lies in `[-radius, end)` and whose row is
/// less than `half_chord(radius, dx)` below, and at most that far above,
/// the centre row.
pub proof fn lemma_disc_columns_contains(cx: int, cy: int, radius: int, end: int, cell: Cell)
    ensures
        disc_columns(cx, cy, radius, end).contains(cell) <==> {
            &&& -radius <= cell.x - cx < end
            &&& cy - half_chord(radius, cell.x - cx) <= cell.y
            &&& cell.y < cy + half_chord(radius, cell.x - cx)
        },
    decreases end + radius,
{
    if end > -radius {
        lemma_disc_columns_contains(cx, cy, radius, end - 1, cell);
        lemma_vertical_span_contains(
            cx + end - 1,
            cy - half_chord(radius, end - 1),
            cy + half_chord(radius, end - 1),
            cell,
        );
        lemma_concat_contains(
            disc_columns(cx, cy, radius, end - 1),
            disc_column(cx, cy, radius, end - 1),
            cell,
        );
    }
}

/// A filled disc is symmetric about the vertical line through its
/// centre: the columns `dx` to the left and `dx` to the right have the
/// same half chord, and the cell `dx` to the left of the centre column
/// is covered exactly if the cell `dx` to the right of it, in the same
/// row, is. The column at offset `-radius` belongs to the disc's range
/// and the one at `+radius` does not, but the former is empty.
pub proof fn lemma_filled_disc_mirrored(cx: int, cy: int, radius: int, dx: int, y: int)
    ensures
        half_chord(radius, -dx) == half_chord(radius, dx),
        filled_disc(cx, cy, radius).contains(Cell { x: cx - dx, y }) <==> filled_disc(
            cx,
            cy,
            radius,
        ).contains(Cell { x: cx + dx, y }),
        radius >= 0 ==> disc_column(cx, cy, radius, -radius).len() == 0,
{
    assert((-dx) * (-dx) == dx * dx) by (nonlinear_arith);
    lemma_disc_columns_contains(cx, cy, radius, radius, Cell { x: cx - dx, y });
    lemma_disc_columns_contains(cx, cy, radius, radius, Cell { x: cx + dx, y });
    if radius >= 0 {
        assert(radius * radius - (-radius) * (-radius) == 0) by (nonlinear_arith);
        assert(radius * radius - radius * radius == 0) by (nonlinear_arith);
        lemma_rounded_root_bounds(0, radius);
    }
}

} // verus!
