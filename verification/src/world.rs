//! The entities of the game and the quantities that describe them.
//!
//! Lengths are fixed-point numbers in hundredths of a pixel, rates are
//! in hundredths of a pixel per millisecond, and elapsed time is in
//! whole milliseconds. Every constant of the game is a whole number of
//! hundredths, so the physics is exact. Each entity has a view over
//! unbounded integers, on which the rules of the simulation are stated.

use vstd::prelude::*;

verus! {

/// Hundredths of a pixel per pixel.
pub const UNITS_PER_PIXEL: i64 = 100;

/// The inset of the playfield's walls from the canvas edge: 10 pixels.
pub const MARGIN: i64 = 1000;

/// The ball's radius: 20 pixels.
pub const BALL_RADIUS: i64 = 2000;

/// The ball's constant speed: 0.5 pixels per millisecond.
pub const BALL_SPEED: i64 = 50;

/// The boost a paddle bounce gives the ball: 4.0 pixels per millisecond.
pub const LAUNCH_BOOST: i64 = 400;

/// What the boost loses per tick, whatever the tick's length: 0.01.
pub const BOOST_DECAY: i64 = 1;

/// The paddle's speed under a sustained key hold: 1.0 pixels per
/// millisecond.
pub const PADDLE_SPEED: i64 = 100;

/// The paddle's half width: 45 pixels.
pub const PADDLE_HALF_WIDTH: i64 = 4500;

/// The paddle's half height: 10 pixels.
pub const PADDLE_HALF_HEIGHT: i64 = 1000;

/// The wall inset in whole pixels.
pub const MARGIN_PIXELS: i32 = 10;

/// The ball's radius in whole pixels.
pub const BALL_RADIUS_PIXELS: i32 = 20;

/// The largest coordinate, in magnitude, from which a whole tick can
/// start.
pub const COORD_LIMIT: i64 = 50_000_000_000;

/// The largest half width or half height of a paddle.
pub const EXTENT_LIMIT: i64 = 5_000_000_000;

/// The largest coordinate, in magnitude, that can be drawn or worked on.
pub const DRAW_LIMIT: i64 = 100_000_000_000;

/// The largest speed or boost, in magnitude, that the library works on.
pub const RATE_LIMIT: i64 = 1_000;

/// The longest tick, in milliseconds, that the library works on.
pub const DT_LIMIT: u64 = 10_000_000;

/// The largest canvas width or height, in pixels.
pub const CANVAS_LIMIT: i32 = 1_000_000;

/// The smallest canvas height, in pixels: room for the ball between the
/// two walls.
pub const CANVAS_MIN_HEIGHT: i32 = 60;

/// A position or displacement in the plane.
#[derive(Clone, Copy, Debug, PartialEq, Eq, Structural)]
pub struct Vec2 {
    pub x: i64,
    pub y: i64,
}

/// A [`Vec2`] over the unbounded integers.
pub struct Vec2Model {
    pub x: int,
    pub y: int,
}

impl View for Vec2 {
    type V = Vec2Model;

    open spec fn view(&self) -> Vec2Model {
        Vec2Model { x: self.x as int, y: self.y as int }
    }
}

/// The ball.
#[derive(Clone, Copy, Debug, PartialEq, Eq, Structural)]
pub struct Ball {
    /// The centre, in hundredths of a pixel.
    pub position: Vec2,
    /// The heading: each component is -1, 0 or 1.
    pub direction: Vec2,
    /// The constant speed, in hundredths of a pixel per millisecond.
    pub speed: i64,
    /// The transient extra speed left from the last paddle bounce.
    pub boost: i64,
}

/// A [`Ball`] over the unbounded integers.
pub struct BallModel {
    pub position: Vec2Model,
    pub direction: Vec2Model,
    pub speed: int,
    pub boost: int,
}

impl View for Ball {
    type V = BallModel;

    open spec fn view(&self) -> BallModel {
        BallModel {
            position: self.position@,
            direction: self.direction@,
            speed: self.speed as int,
            boost: self.boost as int,
        }
    }
}

/// The paddle: an axis-aligned box around its centre.
#[derive(Clone, Copy, Debug, PartialEq, Eq, Structural)]
pub struct Paddle {
    pub center_x: i64,
    pub center_y: i64,
    pub half_width: i64,
    pub half_height: i64,
}

/// A [`Paddle`] over the unbounded integers.
pub struct PaddleModel {
    pub center_x: int,
    pub center_y: int,
    pub half_width: int,
    pub half_height: int,
}

impl PaddleModel {
    /// The x coordinate of the left edge.
    pub open spec fn left(self) -> int {
        self.center_x - self.half_width
    }

    /// The x coordinate of the right edge.
    pub open spec fn right(self) -> int {
        self.center_x + self.half_width
    }

    /// The y coordinate of the top edge.
    pub open spec fn top(self) -> int {
        self.center_y - self.half_height
    }

    /// The y coordinate of the bottom edge.
    pub open spec fn bottom(self) -> int {
        self.center_y + self.half_height
    }
}

impl View for Paddle {
    type V = PaddleModel;

    open spec fn view(&self) -> PaddleModel {
        PaddleModel {
            center_x: self.center_x as int,
            center_y: self.center_y as int,
            half_width: self.half_width as int,
            half_height: self.half_height as int,
        }
    }
}

/// The canvas the game is played on, in whole pixels. The walls run
/// [`MARGIN`] inside its edges.
#[derive(Clone, Copy, Debug, PartialEq, Eq, Structural)]
pub struct Playfield {
    pub width: i32,
    pub height: i32,
}

/// A [`Playfield`] over the unbounded integers.
pub struct PlayfieldModel {
    pub width: int,
    pub height: int,
}

impl PlayfieldModel {
    /// The y coordinate of the top wall, in hundredths of a pixel.
    pub open spec fn top_wall(self) -> int {
        MARGIN as int
    }

    /// The y coordinate of the bottom wall, in hundredths of a pixel.
    pub open spec fn bottom_wall(self) -> int {
        self.height * UNITS_PER_PIXEL - MARGIN
    }
}

impl View for Playfield {
    type V = PlayfieldModel;

    open spec fn view(&self) -> PlayfieldModel {
        PlayfieldModel { width: self.width as int, height: self.height as int }
    }
}

/// The two controls of the game, as sampled on one frame.
#[derive(Clone, Copy, Debug, PartialEq, Eq, Structural)]
pub struct Controls {
    /// Whether "move paddle left" is held.
    pub left: bool,
    /// Whether "move paddle right" is held.
    pub right: bool,
}

impl Controls {
    /// No control held.
    pub fn released() -> (controls: Controls)
        ensures
            controls == (Controls { left: false, right: false }),
    {
        Controls { left: false, right: false }
    }
}

/// Everything the simulation moves, and the field it moves in.
#[derive(Clone, Copy, Debug, PartialEq, Eq, Structural)]
pub struct World {
    pub playfield: Playfield,
    pub ball: Ball,
    pub paddle: Paddle,
}

/// A [`World`] over the unbounded integers.
pub struct WorldModel {
    pub playfield: PlayfieldModel,
    pub ball: BallModel,
    pub paddle: PaddleModel,
}

impl View for World {
    type V = WorldModel;

    open spec fn view(&self) -> WorldModel {
        WorldModel { playfield: self.playfield@, ball: self.ball@, paddle: self.paddle@ }
    }
}

/// Whether `v` is at most `limit` in magnitude.
pub open spec fn within(v: int, limit: int) -> bool {
    -limit <= v <= limit
}

impl WorldModel {
    /// Whether the canvas and the paddle are of a size the library
    /// handles: the canvas is high enough to hold the ball between its
    /// walls, and nothing is negative or beyond its limit.
    pub open spec fn well_sized(self) -> bool {
        &&& 0 <= self.playfield.width <= CANVAS_LIMIT
        &&& CANVAS_MIN_HEIGHT <= self.playfield.height <= CANVAS_LIMIT
        &&& 0 <= self.paddle.half_width <= EXTENT_LIMIT
        &&& 0 <= self.paddle.half_height <= EXTENT_LIMIT
    }

    /// Whether the centres of the ball and the paddle are at most `reach`
    /// away from the origin along each axis.
    pub open spec fn within_reach(self, reach: int) -> bool {
        &&& within(self.ball.position.x, reach)
        &&& within(self.ball.position.y, reach)
        &&& within(self.paddle.center_x, reach)
        &&& within(self.paddle.center_y, reach)
    }

    /// Whether the state is within the library's bounds: it is well sized
    /// and nothing is farther than [`DRAW_LIMIT`] from the origin. Such
    /// a state can be drawn, and the paddle and the collision rules can
    /// be applied to it, without leaving the machine's integers.
    pub open spec fn bounded(self) -> bool {
        self.well_sized() && self.within_reach(DRAW_LIMIT as int)
    }

    /// Whether every rule of the simulation can be applied to the state
    /// without leaving the machine's integers: it is bounded, the ball's
    /// heading is made of signs, and its speed and boost are within
    /// [`RATE_LIMIT`].
    pub open spec fn valid(self) -> bool {
        &&& self.bounded()
        &&& within(self.ball.direction.x, 1)
        &&& within(self.ball.direction.y, 1)
        &&& within(self.ball.speed, RATE_LIMIT as int)
        &&& within(self.ball.boost, RATE_LIMIT as int)
    }

    /// Whether a whole tick can start from the state: it is valid, and
    /// so close to the origin that it is still valid after the longest
    /// tick.
    pub open spec fn tickable(self) -> bool {
        self.valid() && self.within_reach(COORD_LIMIT as int)
    }
}

impl World {
    /// The opening position on an 800 by 800 canvas: the ball near the
    /// centre, heading straight down without boost; the paddle near the
    /// bottom, below the ball.
    pub fn new() -> (world: World)
        ensures
            world == (World {
                playfield: Playfield { width: 800, height: 800 },
                ball: Ball {
                    position: Vec2 { x: 39900, y: 39900 },
                    direction: Vec2 { x: 0, y: 1 },
                    speed: BALL_SPEED,
                    boost: 0,
                },
                paddle: Paddle {
                    center_x: 39900,
                    center_y: 74900,
                    half_width: PADDLE_HALF_WIDTH,
                    half_height: PADDLE_HALF_HEIGHT,
                },
            }),
            world@.tickable(),
    {
        World {
            playfield: Playfield { width: 800, height: 800 },
            ball: Ball {
                position: Vec2 { x: 39900, y: 39900 },
                direction: Vec2 { x: 0, y: 1 },
                speed: BALL_SPEED,
                boost: 0,
            },
            paddle: Paddle {
                center_x: 39900,
                center_y: 74900,
                half_width: PADDLE_HALF_WIDTH,
                half_height: PADDLE_HALF_HEIGHT,
            },
        }
    }

    /// Whether the state is within the library's bounds.
    pub fn is_bounded(&self) -> (ok: bool)
        ensures
            ok == self@.bounded(),
    {
        0 <= self.playfield.width && self.playfield.width <= CANVAS_LIMIT && CANVAS_MIN_HEIGHT
            <= self.playfield.height && self.playfield.height <= CANVAS_LIMIT && 0
            <= self.paddle.half_width && self.paddle.half_width <= EXTENT_LIMIT && 0
            <= self.paddle.half_height && self.paddle.half_height <= EXTENT_LIMIT
            && self.is_within_reach(DRAW_LIMIT)
    }

    /// Whether every rule of the simulation can be applied to the state.
    pub fn is_valid(&self) -> (ok: bool)
        ensures
            ok == self@.valid(),
    {
        self.is_bounded() && fits(self.ball.direction.x, 1) && fits(self.ball.direction.y, 1)
            && fits(self.ball.speed, RATE_LIMIT) && fits(self.ball.boost, RATE_LIMIT)
    }

    /// Whether a whole tick can start from the state.
    pub fn is_tickable(&self) -> (ok: bool)
        ensures
            ok == self@.tickable(),
    {
        self.is_valid() && self.is_within_reach(COORD_LIMIT)
    }

    fn is_within_reach(&self, reach: i64) -> (ok: bool)
        requires
            0 <= reach,
        ensures
            ok == self@.within_reach(reach as int),
    {
        fits(self.ball.position.x, reach) && fits(self.ball.position.y, reach) && fits(
            self.paddle.center_x,
            reach,
        ) && fits(self.paddle.center_y, reach)
    }
}

fn fits(v: i64, limit: i64) -> (ok: bool)
    requires
        0 <= limit,
    ensures
        ok == within(v as int, limit as int),
{
    -limit <= v && v <= limit
}

} // verus!
