//! Rasterization by single-pixel plots.
//!
//! Lines, boxes and discs are drawn exclusively through
//! [`Surface::draw_point`]; the cells each routine plots, and their
//! order, are given by the sequences in [`crate::shapes`].

use crate::root::{lemma_rounded_root_bounds, nearest_root};
use crate::shapes::{
    disc_column, disc_columns, filled_box, filled_disc, horizontal_span, span_length,
    vertical_span,
};
use crate::surface::{lemma_plotted_in_turn, lemma_plotted_nothing, Cell, Surface};
use vstd::prelude::*;

verus! {

/// Plots every pixel of row `y` with `x_min <= x < x_max`, left to
/// right; nothing when `x_min >= x_max`.
pub fn draw_horizontal_line(surface: &mut Surface, x_min: i32, x_max: i32, y: i32)
    ensures
        final(surface)@ == old(surface)@.plotted(
            horizontal_span(x_min as int, x_max as int, y as int),
        ),
        final(surface)@.dots.len() == old(surface)@.dots.len() + span_length(
            x_min as int,
            x_max as int,
        ),
{
    proof {
        lemma_plotted_nothing(surface@);
        assert(horizontal_span(x_min as int, x_min as int, y as int) =~= Seq::empty());
    }
    let mut x: i32 = x_min;
    while x < x_max
        invariant
            x_min <= x,
            x <= x_max || x == x_min,
            surface@ == old(surface)@.plotted(horizontal_span(x_min as int, x as int, y as int)),
        decreases x_max - x,
    {
        proof {
            lemma_plotted_in_turn(
                old(surface)@,
                horizontal_span(x_min as int, x as int, y as int),
                seq![Cell { x: x as int, y: y as int }],
            );
            assert(horizontal_span(x_min as int, x as int, y as int) + seq![
                Cell { x: x as int, y: y as int },
            ] =~= horizontal_span(x_min as int, x + 1, y as int));
        }
        surface.draw_point(x, y);
        x = x + 1;
    }
    assert(horizontal_span(x_min as int, x as int, y as int) =~= horizontal_span(
        x_min as int,
        x_max as int,
        y as int,
    ));
}

/// Plots every pixel of column `x` with `y_min <= y < y_max`, top to
/// bottom; nothing when `y_min >= y_max`.
pub fn draw_vertical_line(surface: &mut Surface, x: i32, y_min: i32, y_max: i32)
    ensures
        final(surface)@ == old(surface)@.plotted(
            vertical_span(x as int, y_min as int, y_max as int),
        ),
        final(surface)@.dots.len() == old(surface)@.dots.len() + span_length(
            y_min as int,
            y_max as int,
        ),
{
    proof {
        lemma_plotted_nothing(surface@);
        assert(vertical_span(x as int, y_min as int, y_min as int) =~= Seq::empty());
    }
    let mut y: i32 = y_min;
    while y < y_max
        invariant
            y_min <= y,
            y <= y_max || y == y_min,
            surface@ == old(surface)@.plotted(vertical_span(x as int, y_min as int, y as int)),
        decreases y_max - y,
    {
        proof {
            lemma_plotted_in_turn(
                old(surface)@,
                vertical_span(x as int, y_min as int, y as int),
                seq![Cell { x: x as int, y: y as int }],
            );
            assert(vertical_span(x as int, y_min as int, y as int) + seq![
                Cell { x: x as int, y: y as int },
            ] =~= vertical_span(x as int, y_min as int, y + 1));
        }
        surface.draw_point(x, y);
        y = y + 1;
    }
    assert(vertical_span(x as int, y_min as int, y as int) =~= vertical_span(
        x as int,
        y_min as int,
        y_max as int,
    ));
}

/// Fills the half-open rectangle between `upper_left` (inclusive) and
/// `lower_right` (exclusive), one horizontal span per row; nothing when
/// the rectangle is empty or inverted.
pub fn draw_box(surface: &mut Surface, upper_left: (i32, i32), lower_right: (i32, i32))
    ensures
        final(surface)@ == old(surface)@.plotted(
            filled_box(
                upper_left.0 as int,
                upper_left.1 as int,
                lower_right.0 as int,
                lower_right.1 as int,
            ),
        ),
{
    let (x0, y0) = upper_left;
    let (x1, y1) = lower_right;
    proof {
        lemma_plotted_nothing(surface@);
    }
    let mut y: i32 = y0;
    while y < y1
        invariant
            y0 <= y,
            y <= y1 || y == y0,
            surface@ == old(surface)@.plotted(
                filled_box(x0 as int, y0 as int, x1 as int, y as int),
            ),
        decreases y1 - y,
    {
        proof {
            lemma_plotted_in_turn(
                old(surface)@,
                filled_box(x0 as int, y0 as int, x1 as int, y as int),
                horizontal_span(x0 as int, x1 as int, y as int),
            );
        }
        draw_horizontal_line(surface, x0, x1, y);
        y = y + 1;
    }
}

/// Fills the disc of the given radius around `origin`, one vertical span
/// per column offset `-radius <= dx < radius`; nothing when
/// `radius <= 0`. The span at offset `dx` runs from `half_chord` rows
/// above the centre (inclusive) to `half_chord` rows below (exclusive).
pub fn draw_circle(surface: &mut Surface, origin: (i32, i32), radius: i32)
    requires
        radius > 0 ==> {
            &&& i32::MIN <= origin.0 - radius
            &&& origin.0 + radius - 1 <= i32::MAX
            &&& i32::MIN <= origin.1 - radius
            &&& origin.1 + radius <= i32::MAX
        },
    ensures
        final(surface)@ == old(surface)@.plotted(
            filled_disc(origin.0 as int, origin.1 as int, radius as int),
        ),
{
    let (ox, oy) = origin;
    let r: i64 = radius as i64;
    proof {
        lemma_plotted_nothing(surface@);
    }
    let mut dx: i64 = -r;
    while dx < r
        invariant
            r == radius,
            -r <= dx,
            dx <= r || dx == -r,
            radius > 0 ==> {
                &&& i32::MIN <= ox - radius
                &&& ox + radius - 1 <= i32::MAX
                &&& i32::MIN <= oy - radius
                &&& oy + radius <= i32::MAX
            },
            surface@ == old(surface)@.plotted(
                disc_columns(ox as int, oy as int, radius as int, dx as int),
            ),
        decreases r - dx,
    {
        assert(0 <= r * r - dx * dx <= r * r <= 0x4000_0000_0000_0000) by (nonlinear_arith)
            requires
                -r <= dx < r,
                r <= 0x8000_0000,
        ;
        let square: u64 = (r * r - dx * dx) as u64;
        let half: i64 = nearest_root(square) as i64;
        proof {
            lemma_rounded_root_bounds(square as int, r as int);
            lemma_plotted_in_turn(
                old(surface)@,
                disc_columns(ox as int, oy as int, radius as int, dx as int),
                disc_column(ox as int, oy as int, radius as int, dx as int),
            );
        }
        draw_vertical_line(
            surface,
            (ox as i64 + dx) as i32,
            (oy as i64 - half) as i32,
            (oy as i64 + half) as i32,
        );
        dx = dx + 1;
    }
}

} // verus!
