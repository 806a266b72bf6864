//! The drawing surface.
//!
//! A [`Surface`] records every pixel plotted on it, in order, together
//! with the color that was current at the time. Its view, a
//! [`Drawing`], is what ends up on screen: a background color and the
//! dots painted over it.

use vstd::prelude::*;

verus! {

/// An opaque RGB color.
#[derive(Clone, Copy, Debug, PartialEq, Eq, Structural)]
pub struct Color {
    pub r: u8,
    pub g: u8,
    pub b: u8,
}

/// A position on the unbounded integer pixel grid.
pub struct Cell {
    pub x: int,
    pub y: int,
}

/// A cell painted in one color.
pub struct Dot {
    pub at: Cell,
    pub color: Color,
}

/// One recorded plot: a pixel position and the color it was drawn in.
#[derive(Clone, Copy, Debug, PartialEq, Eq, Structural)]
pub struct Plot {
    pub x: i32,
    pub y: i32,
    pub color: Color,
}

impl View for Plot {
    type V = Dot;

    open spec fn view(&self) -> Dot {
        Dot { at: Cell { x: self.x as int, y: self.y as int }, color: self.color }
    }
}

/// What a surface shows: the color it was last cleared to, the current
/// draw color, and the dots plotted since the last clear, oldest first.
pub struct Drawing {
    pub background: Color,
    pub color: Color,
    pub dots: Seq<Dot>,
}

impl Drawing {
    /// A freshly cleared drawing whose draw color is its background.
    pub open spec fn blank(color: Color) -> Drawing {
        Drawing { background: color, color, dots: Seq::empty() }
    }

    /// The same drawing with another current draw color.
    pub open spec fn with_color(self, color: Color) -> Drawing {
        Drawing { color, ..self }
    }

    /// The drawing after clearing to the current draw color.
    pub open spec fn cleared(self) -> Drawing {
        Drawing::blank(self.color)
    }

    /// The drawing after plotting `cells`, in order, in the current color.
    pub open spec fn plotted(self, cells: Seq<Cell>) -> Drawing {
        Drawing { dots: self.dots + painted(cells, self.color), ..self }
    }
}

/// The given cells, each painted in `color`.
pub open spec fn painted(cells: Seq<Cell>, color: Color) -> Seq<Dot> {
    Seq::new(cells.len(), |i: int| Dot { at: cells[i], color })
}

/// Plotting `first` and then `second` is plotting their concatenation.
pub proof fn lemma_plotted_in_turn(drawing: Drawing, first: Seq<Cell>, second: Seq<Cell>)
    ensures
        drawing.plotted(first).plotted(second) == drawing.plotted(first + second),
{
    assert(drawing.plotted(first).plotted(second).dots =~= drawing.plotted(first + second).dots);
}

/// Plotting nothing leaves a drawing as it is.
pub proof fn lemma_plotted_nothing(drawing: Drawing)
    ensures
        drawing.plotted(Seq::empty()) == drawing,
{
    assert(drawing.plotted(Seq::empty()).dots =~= drawing.dots);
}

/// A drawing surface that keeps every plot made on it.
#[derive(Clone, Debug, PartialEq, Eq)]
pub struct Surface {
    /// The color of every pixel not plotted since the last clear.
    pub background: Color,
    /// The current draw color.
    pub color: Color,
    /// The plots made since the last clear, oldest first.
    pub plots: Vec<Plot>,
}

impl View for Surface {
    type V = Drawing;

    open spec fn view(&self) -> Drawing {
        Drawing {
            background: self.background,
            color: self.color,
            dots: Seq::new(self.plots@.len(), |i: int| self.plots@[i]@),
        }
    }
}

impl Surface {
    /// A surface cleared to `color`, with `color` as its draw color.
    pub fn new(color: Color) -> (surface: Surface)
        ensures
            surface@ == Drawing::blank(color),
    {
        let surface = Surface { background: color, color, plots: Vec::new() };
        assert(surface@.dots =~= Seq::empty());
        surface
    }

    /// Makes `color` the current draw color.
    pub fn set_draw_color(&mut self, color: Color)
        ensures
            final(self)@ == old(self)@.with_color(color),
    {
        self.color = color;
        assert(self@.dots =~= old(self)@.dots);
    }

    /// Clears the surface to the current draw color, forgetting all plots.
    pub fn clear(&mut self)
        ensures
            final(self)@ == old(self)@.cleared(),
    {
        self.background = self.color;
        self.plots.clear();
        assert(self@.dots =~= Seq::empty());
    }

    /// Plots the single pixel `(x, y)` in the current draw color.
    pub fn draw_point(&mut self, x: i32, y: i32)
        ensures
            final(self)@ == old(self)@.plotted(seq![Cell { x: x as int, y: y as int }]),
    {
        self.plots.push(Plot { x, y, color: self.color });
        assert(self@.dots =~= old(self)@.plotted(
            seq![Cell { x: x as int, y: y as int }],
        ).dots);
    }
}

} // verus!
