//! One tick of the simulation.
//!
//! A tick applies five rules in a fixed order: the paddle follows the
//! controls, the ball bounces off the paddle, the ball bounces off a
//! wall, the ball moves, the boost decays. Each rule is a function on
//! [`WorldModel`]; the executable methods on [`World`] compute exactly
//! these functions.

use crate::world::{
    BallModel, Controls, PaddleModel, Vec2Model, World, WorldModel, BALL_RADIUS, BOOST_DECAY,
    CANVAS_MIN_HEIGHT, DT_LIMIT, LAUNCH_BOOST, MARGIN, PADDLE_SPEED, UNITS_PER_PIXEL,
};
use vstd::prelude::*;

verus! {

/// How far the controls move the paddle during a tick of `dt`
/// milliseconds. A control counts only while sustained: held on the
/// previous sampled frame and on the current one.
pub open spec fn paddle_shift(now: Controls, before: Controls, dt: int) -> int {
    (if now.right && before.right {
        PADDLE_SPEED * dt
    } else {
        0
    }) - (if now.left && before.left {
        PADDLE_SPEED * dt
    } else {
        0
    })
}

/// The boost after one tick of decay: it loses [`BOOST_DECAY`] while
/// positive and is zero otherwise.
pub open spec fn decayed_once(boost: int) -> int {
    if boost > 0 {
        boost - BOOST_DECAY
    } else {
        0
    }
}

/// The boost after `ticks` ticks of decay.
pub open spec fn decayed(boost: int, ticks: nat) -> int
    decreases ticks,
{
    if ticks == 0 {
        boost
    } else {
        decayed_once(decayed(boost, (ticks - 1) as nat))
    }
}

impl WorldModel {
    /// The state after the paddle has followed the controls.
    pub open spec fn after_input(self, now: Controls, before: Controls, dt: int) -> WorldModel {
        WorldModel {
            paddle: PaddleModel {
                center_x: self.paddle.center_x + paddle_shift(now, before, dt),
                ..self.paddle
            },
            ..self
        }
    }

    /// Whether the ball touches the paddle: its centre is within the
    /// paddle's horizontal bounds and its bottom edge has reached or
    /// passed the paddle's top edge.
    pub open spec fn touches_paddle(self) -> bool {
        &&& self.paddle.left() <= self.ball.position.x <= self.paddle.right()
        &&& self.ball.position.y + BALL_RADIUS >= self.paddle.top()
    }

    /// The state after the paddle rule: a ball touching the paddle is put
    /// with its bottom edge on the paddle's top edge, heads up, and gets
    /// the launch boost.
    pub open spec fn after_paddle_contact(self) -> WorldModel {
        if self.touches_paddle() {
            WorldModel {
                ball: BallModel {
                    position: Vec2Model {
                        y: self.paddle.top() - BALL_RADIUS,
                        ..self.ball.position
                    },
                    direction: Vec2Model { y: -1, ..self.ball.direction },
                    boost: LAUNCH_BOOST as int,
                    ..self.ball
                },
                ..self
            }
        } else {
            self
        }
    }

    /// Whether the ball's bottom edge has reached or passed the bottom
    /// wall.
    pub open spec fn touches_bottom_wall(self) -> bool {
        self.ball.position.y + BALL_RADIUS >= self.playfield.bottom_wall()
    }

    /// Whether the ball's top edge has reached or passed the top wall.
    pub open spec fn touches_top_wall(self) -> bool {
        self.ball.position.y - BALL_RADIUS <= self.playfield.top_wall()
    }

    /// The state after the wall rule: a ball touching the bottom wall is
    /// put with its bottom edge on that wall and its vertical heading is
    /// inverted; otherwise a ball touching the top wall is treated alike.
    pub open spec fn after_wall_contact(self) -> WorldModel {
        if self.touches_bottom_wall() {
            self.bounced_to(self.playfield.bottom_wall() - BALL_RADIUS)
        } else if self.touches_top_wall() {
            self.bounced_to(self.playfield.top_wall() + BALL_RADIUS)
        } else {
            self
        }
    }

    /// The state with the ball at height `y` and its vertical heading
    /// inverted.
    pub open spec fn bounced_to(self, y: int) -> WorldModel {
        WorldModel {
            ball: BallModel {
                position: Vec2Model { y, ..self.ball.position },
                direction: Vec2Model { y: -self.ball.direction.y, ..self.ball.direction },
                ..self.ball
            },
            ..self
        }
    }

    /// The state after the ball has moved for `dt` milliseconds along its
    /// heading at its speed plus its boost.
    pub open spec fn after_motion(self, dt: int) -> WorldModel {
        WorldModel {
            ball: BallModel {
                position: Vec2Model {
                    x: self.ball.position.x + self.ball.direction.x * (self.ball.speed
                        + self.ball.boost) * dt,
                    y: self.ball.position.y + self.ball.direction.y * (self.ball.speed
                        + self.ball.boost) * dt,
                },
                ..self.ball
            },
            ..self
        }
    }

    /// The state after the boost has decayed for one tick.
    pub open spec fn after_decay(self) -> WorldModel {
        WorldModel {
            ball: BallModel { boost: decayed_once(self.ball.boost), ..self.ball },
            ..self
        }
    }

    /// The state after the two collision rules, paddle first.
    pub open spec fn after_collisions(self) -> WorldModel {
        self.after_paddle_contact().after_wall_contact()
    }

    /// The state after one whole tick of `dt` milliseconds, with the
    /// controls as sampled on this frame (`now`) and the previous one
    /// (`before`).
    pub open spec fn step(self, now: Controls, before: Controls, dt: int) -> WorldModel {
        self.after_input(now, before, dt).after_collisions().after_motion(dt).after_decay()
    }

    /// The state after `ticks` ticks in which no time passes and no
    /// control is held.
    pub open spec fn at_rest(self, ticks: nat) -> WorldModel
        decreases ticks,
    {
        if ticks == 0 {
            self
        } else {
            self.at_rest((ticks - 1) as nat).step(
                Controls { left: false, right: false },
                Controls { left: false, right: false },
                0,
            )
        }
    }
}

impl World {
    /// Moves the paddle as the controls say: right by [`PADDLE_SPEED`]
    /// times `dt` if "right" is sustained, left by as much if "left" is.
    /// A control pressed on this frame only moves nothing. Nothing keeps
    /// the paddle on the canvas.
    pub fn apply_input(&mut self, now: Controls, before: Controls, dt: u64)
        requires
            old(self)@.bounded(),
            dt <= DT_LIMIT,
        ensures
            final(self)@ == old(self)@.after_input(now, before, dt as int),
    {
        let reach: i64 = PADDLE_SPEED * (dt as i64);
        if now.right && before.right {
            self.paddle.center_x = self.paddle.center_x + reach;
        }
        if now.left && before.left {
            self.paddle.center_x = self.paddle.center_x - reach;
        }
    }

    /// Tests the ball against the paddle and, on contact, puts its
    /// bottom edge on the paddle's top edge, turns it upward and sets
    /// its boost to [`LAUNCH_BOOST`]. Returns whether there was contact.
    ///
    /// The test does not look at the ball's heading: a ball that is
    /// still in contact on the next tick, as one that did not move away
    /// is, gets launched again.
    pub fn collide_with_paddle(&mut self) -> (hit: bool)
        requires
            old(self)@.bounded(),
        ensures
            hit == old(self)@.touches_paddle(),
            final(self)@ == old(self)@.after_paddle_contact(),
    {
        let left: i64 = self.paddle.center_x - self.paddle.half_width;
        let right: i64 = self.paddle.center_x + self.paddle.half_width;
        let top: i64 = self.paddle.center_y - self.paddle.half_height;
        if self.ball.position.x >= left && self.ball.position.x <= right && self.ball.position.y
            + BALL_RADIUS >= top {
            self.ball.position.y = top - BALL_RADIUS;
            self.ball.direction.y = -1;
            self.ball.boost = LAUNCH_BOOST;
            true
        } else {
            false
        }
    }

    /// Tests the ball against the bottom wall and then, if it is clear
    /// of that, against the top wall; on contact puts the ball's edge on
    /// the wall and inverts its vertical heading. Either way the ball
    /// ends up between the walls. Returns whether there was contact.
    pub fn collide_with_walls(&mut self) -> (hit: bool)
        requires
            old(self)@.valid(),
        ensures
            hit == (old(self)@.touches_bottom_wall() || old(self)@.touches_top_wall()),
            final(self)@ == old(self)@.after_wall_contact(),
            final(self)@.playfield.top_wall() <= final(self)@.ball.position.y - BALL_RADIUS,
            final(self)@.ball.position.y + BALL_RADIUS <= final(self)@.playfield.bottom_wall(),
    {
        let bottom: i64 = (self.playfield.height as i64) * UNITS_PER_PIXEL - MARGIN;
        if self.ball.position.y + BALL_RADIUS >= bottom {
            self.ball.position.y = bottom - BALL_RADIUS;
            self.ball.direction.y = -self.ball.direction.y;
            true
        } else if self.ball.position.y - BALL_RADIUS <= MARGIN {
            self.ball.position.y = MARGIN + BALL_RADIUS;
            self.ball.direction.y = -self.ball.direction.y;
            true
        } else {
            false
        }
    }

    /// Moves the ball along its heading by its speed plus its boost,
    /// times `dt`.
    pub fn integrate(&mut self, dt: u64)
        requires
            old(self)@.valid(),
            dt <= DT_LIMIT,
        ensures
            final(self)@ == old(self)@.after_motion(dt as int),
    {
        let rate: i64 = self.ball.speed + self.ball.boost;
        let dx: i64 = self.ball.direction.x;
        let dy: i64 = self.ball.direction.y;
        let t: i64 = dt as i64;
        assert(-2_000 <= dx * rate <= 2_000 && -2_000 <= dy * rate <= 2_000)
            by (nonlinear_arith)
            requires
                -1 <= dx <= 1,
                -1 <= dy <= 1,
                -2_000 <= rate <= 2_000,
        ;
        assert(-20_000_000_000 <= dx * rate * t <= 20_000_000_000 && -20_000_000_000 <= dy * rate
            * t <= 20_000_000_000) by (nonlinear_arith)
            requires
                -2_000 <= dx * rate <= 2_000,
                -2_000 <= dy * rate <= 2_000,
                0 <= t <= 10_000_000,
        ;
        self.ball.position.x = self.ball.position.x + dx * rate * t;
        self.ball.position.y = self.ball.position.y + dy * rate * t;
    }

    /// Lets the boost decay for one tick: it loses [`BOOST_DECAY`] while
    /// positive and is set to zero otherwise.
    pub fn decay_boost(&mut self)
        ensures
            final(self)@ == old(self)@.after_decay(),
    {
        if self.ball.boost > 0 {
            self.ball.boost = self.ball.boost - BOOST_DECAY;
        } else {
            self.ball.boost = 0;
        }
    }

    /// Advances the world by one tick of `dt` milliseconds: input,
    /// paddle collision, wall collision, motion, boost decay, in that
    /// order.
    pub fn step(&mut self, now: Controls, before: Controls, dt: u64)
        requires
            old(self)@.tickable(),
            dt <= DT_LIMIT,
        ensures
            final(self)@ == old(self)@.step(now, before, dt as int),
            final(self)@.valid(),
    {
        self.apply_input(now, before, dt);
        self.collide_with_paddle();
        self.collide_with_walls();
        proof {
            let rate = self.ball.speed + self.ball.boost;
            let dx = self.ball.direction.x as int;
            let dy = self.ball.direction.y as int;
            let t = dt as int;
            assert(-20_000_000_000 <= dx * rate * t <= 20_000_000_000 && -20_000_000_000 <= dy
                * rate * t <= 20_000_000_000) by (nonlinear_arith)
                requires
                    -1 <= dx <= 1,
                    -1 <= dy <= 1,
                    -2_000 <= rate <= 2_000,
                    0 <= t <= 10_000_000,
            ;
        }
        self.integrate(dt);
        self.decay_boost();
    }
}

/// Whatever the ball's height, the wall rule leaves it between the
/// walls: its top edge on or below the top wall's line and its bottom
/// edge on or above the bottom wall's. The paddle rule before it does
/// not change that.
pub proof fn lemma_walls_contain_ball(world: WorldModel)
    requires
        world.playfield.height >= CANVAS_MIN_HEIGHT,
    ensures
        world.playfield.top_wall() <= world.after_wall_contact().ball.position.y - BALL_RADIUS,
        world.after_wall_contact().ball.position.y + BALL_RADIUS
            <= world.playfield.bottom_wall(),
        world.playfield.top_wall() <= world.after_collisions().ball.position.y - BALL_RADIUS,
        world.after_collisions().ball.position.y + BALL_RADIUS <= world.playfield.bottom_wall(),
{
}

/// A ball touching the paddle leaves the paddle rule heading up, with
/// the launch boost, and with its bottom edge exactly on the paddle's
/// top edge; nothing else about the world changes.
pub proof fn lemma_paddle_contact(world: WorldModel)
    requires
        world.touches_paddle(),
    ensures
        world.after_paddle_contact().ball.direction.y == -1,
        world.after_paddle_contact().ball.boost == LAUNCH_BOOST,
        world.after_paddle_contact().ball.position.y + BALL_RADIUS == world.paddle.top(),
        world.after_paddle_contact().ball.position.x == world.ball.position.x,
        world.after_paddle_contact().ball.direction.x == world.ball.direction.x,
        world.after_paddle_contact().ball.speed == world.ball.speed,
        world.after_paddle_contact().paddle == world.paddle,
        world.after_paddle_contact().playfield == world.playfield,
{
}

/// A ball above the paddle's centre whose bottom edge is one pixel
/// below the paddle's top edge touches the paddle, whatever its heading,
/// and leaves the paddle rule heading up, with the launch boost, and
/// with its bottom edge exactly on the paddle's top edge.
pub proof fn lemma_paddle_launch(world: WorldModel)
    requires
        world.paddle.half_width >= 0,
        world.ball.position.x == world.paddle.center_x,
        world.ball.position.y == world.paddle.top() - BALL_RADIUS + UNITS_PER_PIXEL,
    ensures
        world.touches_paddle(),
        world.after_paddle_contact().ball.direction.y == -1,
        world.after_paddle_contact().ball.boost == LAUNCH_BOOST,
        world.after_paddle_contact().ball.position.y + BALL_RADIUS == world.paddle.top(),
{
}

/// A whole tick in which the ball touches the paddle, once the paddle
/// has moved, and the paddle's top edge leaves the ball room between the
/// walls: the ball ends the tick heading up, its boost already decayed
/// once from the launch value, having travelled up from the paddle's
/// top edge for the whole tick at its speed plus the launch boost.
pub proof fn lemma_tick_with_paddle_bounce(
    world: WorldModel,
    now: Controls,
    before: Controls,
    dt: int,
)
    requires
        world.after_input(now, before, dt).touches_paddle(),
        world.playfield.top_wall() + 2 * BALL_RADIUS < world.paddle.top()
            < world.playfield.bottom_wall(),
    ensures
        world.step(now, before, dt).ball.direction.y == -1,
        world.step(now, before, dt).ball.boost == LAUNCH_BOOST - BOOST_DECAY,
        world.step(now, before, dt).ball.position.y == world.paddle.top() - BALL_RADIUS
            - (world.ball.speed + LAUNCH_BOOST) * dt,
{
    let rate = world.ball.speed + LAUNCH_BOOST;
    assert((-1) * rate * dt == -(rate * dt)) by (nonlinear_arith);
}

/// A ball whose bottom edge has reached or passed the bottom wall
/// leaves the wall rule with its vertical heading inverted and its
/// bottom edge exactly on the wall. A ball clear of the bottom wall
/// whose top edge has reached or passed the top wall is treated alike at
/// the top wall. A ball clear of both is left alone.
pub proof fn lemma_wall_contact(world: WorldModel)
    ensures
        world.touches_bottom_wall() ==> {
            &&& world.after_wall_contact().ball.direction.y == -world.ball.direction.y
            &&& world.after_wall_contact().ball.position.y == world.playfield.bottom_wall()
                - BALL_RADIUS
        },
        !world.touches_bottom_wall() && world.touches_top_wall() ==> {
            &&& world.after_wall_contact().ball.direction.y == -world.ball.direction.y
            &&& world.after_wall_contact().ball.position.y == world.playfield.top_wall()
                + BALL_RADIUS
        },
        !world.touches_bottom_wall() && !world.touches_top_wall() ==> world.after_wall_contact()
            == world,
        world.after_wall_contact().ball.position.x == world.ball.position.x,
        world.after_wall_contact().ball.direction.x == world.ball.direction.x,
        world.after_wall_contact().ball.speed == world.ball.speed,
        world.after_wall_contact().ball.boost == world.ball.boost,
        world.after_wall_contact().paddle == world.paddle,
        world.after_wall_contact().playfield == world.playfield,
{
}

/// A whole tick in which the ball does not touch the paddle but has
/// reached or passed the bottom wall: the ball ends the tick with its
/// vertical heading inverted, having travelled from the wall along the
/// new heading; if no time passes, it ends the tick exactly on the wall.
pub proof fn lemma_tick_with_wall_bounce(
    world: WorldModel,
    now: Controls,
    before: Controls,
    dt: int,
)
    requires
        !world.after_input(now, before, dt).touches_paddle(),
        world.touches_bottom_wall(),
    ensures
        world.step(now, before, dt).ball.direction.y == -world.ball.direction.y,
        world.step(now, before, dt).ball.position.y == world.playfield.bottom_wall() - BALL_RADIUS
            + (-world.ball.direction.y) * (world.ball.speed + world.ball.boost) * dt,
        dt == 0 ==> world.step(now, before, dt).ball.position.y == world.playfield.bottom_wall()
            - BALL_RADIUS,
{
}

/// Only a control held on two consecutive sampled frames moves the
/// paddle. A tick in which neither control is sustained, in particular
/// one before which nothing was held, leaves the paddle where it was; a
/// tick in which exactly one control is sustained moves it by
/// [`PADDLE_SPEED`] times `dt` in that direction, and one with both
/// sustained moves it nowhere. No tick changes the paddle's height or
/// its size.
pub proof fn lemma_debounce(world: WorldModel, now: Controls, before: Controls, dt: int)
    ensures
        !before.left && !before.right ==> world.step(now, before, dt).paddle == world.paddle,
        !(now.left && before.left) && !(now.right && before.right) ==> world.step(
            now,
            before,
            dt,
        ).paddle == world.paddle,
        now.right && before.right && !(now.left && before.left) ==> world.step(
            now,
            before,
            dt,
        ).paddle.center_x == world.paddle.center_x + PADDLE_SPEED * dt,
        now.left && before.left && !(now.right && before.right) ==> world.step(
            now,
            before,
            dt,
        ).paddle.center_x == world.paddle.center_x - PADDLE_SPEED * dt,
        now.left && before.left && now.right && before.right ==> world.step(
            now,
            before,
            dt,
        ).paddle == world.paddle,
        world.step(now, before, dt).paddle.center_y == world.paddle.center_y,
        world.step(now, before, dt).paddle.half_width == world.paddle.half_width,
        world.step(now, before, dt).paddle.half_height == world.paddle.half_height,
{
}

/// A boost that is not negative decays by [`BOOST_DECAY`] per tick until
/// it is exactly zero, stays there, and is never negative on the way.
pub proof fn lemma_decay(boost: int, ticks: nat)
    requires
        0 <= boost,
    ensures
        decayed(boost, ticks) == if ticks * BOOST_DECAY <= boost {
            boost - ticks * BOOST_DECAY
        } else {
            0
        },
        0 <= decayed(boost, ticks),
    decreases ticks,
{
    if ticks > 0 {
        lemma_decay(boost, (ticks - 1) as nat);
    }
}

/// The launch boost is gone after 400 ticks, whatever their length, and
/// is never negative before or after.
pub proof fn lemma_launch_boost_fades(ticks: nat)
    ensures
        0 <= decayed(LAUNCH_BOOST as int, ticks),
        ticks >= 400 ==> decayed(LAUNCH_BOOST as int, ticks) == 0,
{
    lemma_decay(LAUNCH_BOOST as int, ticks);
}

/// A tick in which the ball touches the paddle, once the paddle has
/// moved, leaves the boost at the launch value decayed once; any other
/// tick lets the boost it found decay once.
pub proof fn lemma_tick_decays_boost(
    world: WorldModel,
    now: Controls,
    before: Controls,
    dt: int,
)
    ensures
        world.step(now, before, dt).ball.boost == if world.after_input(
            now,
            before,
            dt,
        ).touches_paddle() {
            LAUNCH_BOOST - BOOST_DECAY
        } else {
            decayed_once(world.ball.boost)
        },
{
}

/// Over ticks in which no time passes, no control is held and the ball
/// never touches the paddle, the boost does nothing but decay: from the
/// launch value it is exactly zero after 400 such ticks and from then
/// on, and never negative.
pub proof fn lemma_boost_fades_at_rest(world: WorldModel, ticks: nat)
    requires
        0 <= world.ball.boost,
        forall|k: nat| k < ticks ==> !(#[trigger] world.at_rest(k)).touches_paddle(),
    ensures
        world.at_rest(ticks).ball.boost == decayed(world.ball.boost, ticks),
        0 <= world.at_rest(ticks).ball.boost,
        world.ball.boost == LAUNCH_BOOST && ticks >= 400 ==> world.at_rest(ticks).ball.boost
            == 0,
    decreases ticks,
{
    lemma_decay(world.ball.boost, ticks);
    if ticks > 0 {
        let earlier = (ticks - 1) as nat;
        lemma_boost_fades_at_rest(world, earlier);
        assert(!world.at_rest(earlier).touches_paddle());
        lemma_tick_decays_boost(
            world.at_rest(earlier),
            Controls { left: false, right: false },
            Controls { left: false, right: false },
            0,
        );
    }
}

} // verus!
