//! Drawing a world: the wall outline, the ball and the paddle, in that
//! order, over a cleared backdrop.

use crate::raster::{draw_box, draw_circle, draw_horizontal_line, draw_vertical_line};
use crate::root::lemma_rounded_root_bounds;
use crate::shapes::{
    filled_box, filled_disc, half_chord, horizontal_span, lemma_disc_columns_contains,
    lemma_filled_box_contains, vertical_span,
};
use crate::surface::{lemma_plotted_in_turn, painted, Cell, Color, Drawing, Surface};
use crate::world::{
    within, BallModel, PaddleModel, PlayfieldModel, World, WorldModel, BALL_RADIUS_PIXELS,
    MARGIN_PIXELS, UNITS_PER_PIXEL,
};
use vstd::prelude::*;

verus! {

/// The parts of the picture, back to front.
#[derive(Clone, Copy, Debug, PartialEq, Eq, Structural)]
pub enum Layer {
    /// What every frame is cleared to.
    Backdrop,
    /// The outline of the walls.
    Walls,
    /// The ball.
    Ball,
    /// The paddle.
    Paddle,
}

/// The color each layer is drawn in.
pub open spec fn layer_color(layer: Layer) -> Color {
    match layer {
        Layer::Backdrop => Color { r: 24, g: 24, b: 24 },
        Layer::Walls => Color { r: 0, g: 200, b: 0 },
        Layer::Ball => Color { r: 255, g: 64, b: 1 },
        Layer::Paddle => Color { r: 1, g: 64, b: 255 },
    }
}

impl Layer {
    /// The color this layer is drawn in.
    pub fn color(&self) -> (color: Color)
        ensures
            color == layer_color(*self),
    {
        match self {
            Layer::Backdrop => Color { r: 24, g: 24, b: 24 },
            Layer::Walls => Color { r: 0, g: 200, b: 0 },
            Layer::Ball => Color { r: 255, g: 64, b: 1 },
            Layer::Paddle => Color { r: 1, g: 64, b: 255 },
        }
    }
}

/// The largest pixel coordinate, in magnitude, in the picture of a
/// bounded world: one less than two to the thirtieth. Window systems
/// that hold point coordinates to half the range of a 32-bit integer
/// take such pixels as they are.
pub const PIXEL_REACH: i32 = 1_073_741_823;

/// The pixel a coordinate in hundredths of a pixel falls on: the
/// coordinate divided by a hundred, rounded toward zero, and held to the
/// range of a pixel coordinate.
pub open spec fn pixel_of(v: int) -> int {
    let whole = if v >= 0 {
        v / (UNITS_PER_PIXEL as int)
    } else {
        -((-v) / (UNITS_PER_PIXEL as int))
    };
    if whole < i32::MIN {
        i32::MIN as int
    } else if whole > i32::MAX {
        i32::MAX as int
    } else {
        whole
    }
}

/// Computes the pixel a coordinate in hundredths of a pixel falls on.
pub fn to_pixel(v: i64) -> (pixel: i32)
    ensures
        pixel == pixel_of(v as int),
{
    let whole: i64 = v / UNITS_PER_PIXEL;
    if whole < i32::MIN as i64 {
        i32::MIN
    } else if whole > i32::MAX as i64 {
        i32::MAX
    } else {
        whole as i32
    }
}

/// The line along the top wall, left to right.
pub open spec fn top_wall_cells(field: PlayfieldModel) -> Seq<Cell> {
    horizontal_span(MARGIN_PIXELS as int, field.width - MARGIN_PIXELS, MARGIN_PIXELS as int)
}

/// The line along the bottom wall, left to right.
pub open spec fn bottom_wall_cells(field: PlayfieldModel) -> Seq<Cell> {
    horizontal_span(
        MARGIN_PIXELS as int,
        field.width - MARGIN_PIXELS,
        field.height - MARGIN_PIXELS,
    )
}

/// The line along the left wall, top to bottom.
pub open spec fn left_wall_cells(field: PlayfieldModel) -> Seq<Cell> {
    vertical_span(MARGIN_PIXELS as int, MARGIN_PIXELS as int, field.height - MARGIN_PIXELS)
}

/// The line along the right wall, top to bottom.
pub open spec fn right_wall_cells(field: PlayfieldModel) -> Seq<Cell> {
    vertical_span(
        field.width - MARGIN_PIXELS,
        MARGIN_PIXELS as int,
        field.height - MARGIN_PIXELS,
    )
}

/// The outline of the walls: the top line, the bottom line, the left
/// line and the right line, in that order. All four are half-open spans
/// between the margins, so the outline's lower right corner stays open.
pub open spec fn wall_cells(field: PlayfieldModel) -> Seq<Cell> {
    top_wall_cells(field) + bottom_wall_cells(field) + left_wall_cells(field)
        + right_wall_cells(field)
}

/// The ball: a filled disc around the pixel its centre falls on.
pub open spec fn ball_cells(ball: BallModel) -> Seq<Cell> {
    filled_disc(pixel_of(ball.position.x), pixel_of(ball.position.y), BALL_RADIUS_PIXELS as int)
}

/// The paddle: a filled box between the pixels its corners fall on.
pub open spec fn paddle_cells(paddle: PaddleModel) -> Seq<Cell> {
    filled_box(
        pixel_of(paddle.left()),
        pixel_of(paddle.top()),
        pixel_of(paddle.right()),
        pixel_of(paddle.bottom()),
    )
}

/// The picture of a world: the backdrop, and over it the walls, the
/// ball and the paddle, each in its color, plotted in that order.
pub open spec fn scene(world: WorldModel) -> Drawing {
    painted_over(Drawing::blank(layer_color(Layer::Backdrop)), world)
}

/// The given drawing with the walls, the ball and the paddle of `world`
/// plotted over it, each in its color.
pub open spec fn painted_over(drawing: Drawing, world: WorldModel) -> Drawing {
    drawing.with_color(layer_color(Layer::Walls)).plotted(
        wall_cells(world.playfield),
    ).with_color(layer_color(Layer::Ball)).plotted(ball_cells(world.ball)).with_color(
        layer_color(Layer::Paddle),
    ).plotted(paddle_cells(world.paddle))
}

/// What rendering `world` makes of a drawing: whatever was there is
/// cleared away.
pub open spec fn rendered(before: Drawing, world: WorldModel) -> Drawing {
    painted_over(before.with_color(layer_color(Layer::Backdrop)).cleared(), world)
}

/// Rendering depends on the world alone, so rendering the same world
/// again, on the surface just rendered or on any other, gives the very
/// same picture.
pub proof fn lemma_render_idempotent(before: Drawing, other: Drawing, world: WorldModel)
    ensures
        rendered(before, world) == scene(world),
        rendered(rendered(before, world), world) == rendered(before, world),
        rendered(other, world) == rendered(before, world),
{
}

/// Whether the cell is at most [`PIXEL_REACH`] away from the origin
/// along each axis.
pub open spec fn in_reach(cell: Cell) -> bool {
    within(cell.x, PIXEL_REACH as int) && within(cell.y, PIXEL_REACH as int)
}

/// Every pixel in the picture of a bounded world is in reach.
pub proof fn lemma_scene_in_reach(world: WorldModel)
    requires
        world.bounded(),
    ensures
        forall|i: int|
            0 <= i < scene(world).dots.len() ==> in_reach(#[trigger] scene(world).dots[i].at),
{
    let walls = wall_cells(world.playfield);
    let ball = ball_cells(world.ball);
    let paddle = paddle_cells(world.paddle);
    let top = top_wall_cells(world.playfield);
    let bottom = bottom_wall_cells(world.playfield);
    let left = left_wall_cells(world.playfield);
    let right = right_wall_cells(world.playfield);
    let dots = scene(world).dots;
    assert(dots =~= painted(walls, layer_color(Layer::Walls)) + painted(
        ball,
        layer_color(Layer::Ball),
    ) + painted(paddle, layer_color(Layer::Paddle)));
    assert forall|i: int| 0 <= i < dots.len() implies in_reach(#[trigger] dots[i].at) by {
        let cell = dots[i].at;
        if i < walls.len() {
            assert(cell == walls[i]);
            if i < top.len() {
                assert(cell == top[i]);
            } else if i < top.len() + bottom.len() {
                assert(cell == bottom[i - top.len()]);
            } else if i < top.len() + bottom.len() + left.len() {
                assert(cell == left[i - top.len() - bottom.len()]);
            } else {
                assert(cell == right[i - top.len() - bottom.len() - left.len()]);
            }
        } else if i < walls.len() + ball.len() {
            assert(cell == ball[i - walls.len()]);
            assert(ball.contains(cell));
            let cx = pixel_of(world.ball.position.x);
            let cy = pixel_of(world.ball.position.y);
            let radius = BALL_RADIUS_PIXELS as int;
            lemma_disc_columns_contains(cx, cy, radius, radius, cell);
            let dx = cell.x - cx;
            assert(0 <= radius * radius - dx * dx <= radius * radius) by (nonlinear_arith)
                requires
                    -radius <= dx < radius,
            ;
            lemma_rounded_root_bounds(radius * radius - dx * dx, radius);
            assert(half_chord(radius, dx) <= radius);
        } else {
            assert(cell == paddle[i - walls.len() - ball.len()]);
            assert(paddle.contains(cell));
            lemma_filled_box_contains(
                pixel_of(world.paddle.left()),
                pixel_of(world.paddle.top()),
                pixel_of(world.paddle.right()),
                pixel_of(world.paddle.bottom()),
                cell,
            );
        }
    }
}

/// Clears the surface to the backdrop and draws the walls, the ball and
/// the paddle of `world` on it. Every pixel drawn is in reach.
pub fn render(surface: &mut Surface, world: &World)
    requires
        world@.bounded(),
    ensures
        final(surface)@ == scene(world@),
        final(surface)@ == rendered(old(surface)@, world@),
        forall|i: int|
            0 <= i < final(surface)@.dots.len() ==> in_reach(#[trigger] final(surface)@.dots[i].at),
{
    proof {
        lemma_scene_in_reach(world@);
    }
    let width: i32 = world.playfield.width;
    let height: i32 = world.playfield.height;
    surface.set_draw_color(Layer::Backdrop.color());
    surface.clear();

    surface.set_draw_color(Layer::Walls.color());
    let ghost bare = surface@;
    draw_horizontal_line(surface, MARGIN_PIXELS, width - MARGIN_PIXELS, MARGIN_PIXELS);
    draw_horizontal_line(surface, MARGIN_PIXELS, width - MARGIN_PIXELS, height - MARGIN_PIXELS);
    draw_vertical_line(surface, MARGIN_PIXELS, MARGIN_PIXELS, height - MARGIN_PIXELS);
    draw_vertical_line(surface, width - MARGIN_PIXELS, MARGIN_PIXELS, height - MARGIN_PIXELS);
    proof {
        let top = top_wall_cells(world.playfield@);
        let bottom = bottom_wall_cells(world.playfield@);
        let left = left_wall_cells(world.playfield@);
        let right = right_wall_cells(world.playfield@);
        lemma_plotted_in_turn(bare, top, bottom);
        lemma_plotted_in_turn(bare, top + bottom, left);
        lemma_plotted_in_turn(bare, top + bottom + left, right);
    }

    surface.set_draw_color(Layer::Ball.color());
    draw_circle(
        surface,
        (to_pixel(world.ball.position.x), to_pixel(world.ball.position.y)),
        BALL_RADIUS_PIXELS,
    );

    surface.set_draw_color(Layer::Paddle.color());
    let left: i64 = world.paddle.center_x - world.paddle.half_width;
    let right: i64 = world.paddle.center_x + world.paddle.half_width;
    let top: i64 = world.paddle.center_y - world.paddle.half_height;
    let bottom: i64 = world.paddle.center_y + world.paddle.half_height;
    draw_box(surface, (to_pixel(left), to_pixel(top)), (to_pixel(right), to_pixel(bottom)));
}

} // verus!
