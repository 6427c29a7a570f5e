//! The ball: motion, collision response against paddles and walls, goal
//! detection, and the reset/serve logic.
//!
//! The ball is a little state machine.  While `start_timer > 0` it is
//! frozen before a serve: the timer counts down and the position does not
//! move.  Once the timer reaches zero it moves by `velocity * dt` each
//! frame.  A goal calls `reset`, which recenters the ball, draws a random
//! serve velocity and freezes it again.

use crate::game::{params_wf, ParamsShape, UpdateParams};
use crate::paddle::{Paddle, PaddleState};
use crate::rectangle::{rect_wf, rects_intersect, RectShape, Rectangle};
use crate::units::{
    div_toward_zero, div_trunc, lemma_div_toward_zero_abs, lemma_scale_up_grows, COORD_LIMIT,
    DT_LIMIT, MILLIS_PER_SECOND, SIZE_LIMIT, UNITS_PER_PIXEL, VEL_LIMIT,
};
use rand::Rng;
use vstd::math::abs;
use vstd::prelude::*;

verus! {

/// Width of the ball in subpixel units.
pub const BALL_WIDTH: i64 = 15 * UNITS_PER_PIXEL;

/// Height of the ball in subpixel units.
pub const BALL_HEIGHT: i64 = 15 * UNITS_PER_PIXEL;

/// Serve speed in subpixel units per second.  A serve always moves
/// horizontally at exactly this speed, toward one side or the other.
pub const BALL_STARTING_SPEED: i64 = 500 * UNITS_PER_PIXEL;

/// A paddle bounce multiplies the horizontal speed by
/// `BALL_BOUNCE_NUM / BALL_BOUNCE_DEN`, so a long rally keeps speeding up.
pub const BALL_BOUNCE_NUM: i64 = 115;

/// Denominator of the bounce speedup ratio.
pub const BALL_BOUNCE_DEN: i64 = 100;

/// A paddle bounce sets the vertical velocity to the vertical offset
/// between ball and paddle times this factor, giving the player control
/// over the return angle.
pub const BALL_ANGLE_FACTOR: i64 = 10;

/// Milliseconds the ball stays frozen after a reset, before the serve.
pub const BALL_START_DELAY: i64 = 1000;

/// Coordinate magnitude the collision routines accept.  One integration
/// step can carry the ball this far past [`COORD_LIMIT`].
pub const BALL_COORD_ROOM: i64 = 0x10_0000_0000_0000;

/// Horizontal velocity magnitude the collision routines accept.  One
/// bounce can scale a velocity this far past [`VEL_LIMIT`].
pub const BALL_VEL_ROOM: i64 = 0x20_0000_0000_0000;

/// The mathematical state of a [`Ball`].
pub ghost struct BallState {
    pub bounds: RectShape,
    pub vx: int,
    pub vy: int,
    pub start_timer: int,
}

/// The ball: its bounds, its velocity in subpixel units per second, and
/// the remaining freeze time in milliseconds.
#[derive(Clone, Debug, PartialEq, Eq, Structural)]
pub struct Ball {
    pub bounds: Rectangle,
    pub vx: i64,
    pub vy: i64,
    pub start_timer: i64,
}

impl View for Ball {
    type V = BallState;

    open spec fn view(&self) -> BallState {
        BallState {
            bounds: self.bounds@,
            vx: self.vx as int,
            vy: self.vy as int,
            start_timer: self.start_timer as int,
        }
    }
}

/// The shape every reachable ball keeps: fixed size, a horizontal speed
/// never below the serve speed, and a freeze timer that never exceeds the
/// serve delay nor trails more than one frame below zero.
pub open spec fn ball_wf(b: BallState) -> bool {
    &&& b.bounds.width == BALL_WIDTH
    &&& b.bounds.height == BALL_HEIGHT
    &&& abs(b.vx) >= BALL_STARTING_SPEED
    &&& -DT_LIMIT <= b.start_timer <= BALL_START_DELAY
}

/// A serve velocity the reset logic can draw: horizontally exactly the
/// serve speed toward either side, vertically anywhere in
/// `[-serve speed, serve speed)`.
pub open spec fn valid_serve(vx: int, vy: int) -> bool {
    &&& (vx == BALL_STARTING_SPEED || vx == -BALL_STARTING_SPEED)
    &&& -BALL_STARTING_SPEED <= vy < BALL_STARTING_SPEED
}

/// The frozen state a reset to center `(x, y)` leaves behind, given the
/// serve velocity that was drawn.
pub open spec fn ball_reset_shape(b: BallState, x: int, y: int, vx: int, vy: int) -> BallState {
    BallState {
        bounds: RectShape {
            x: x - b.bounds.width / 2,
            y: y - b.bounds.height / 2,
            width: b.bounds.width,
            height: b.bounds.height,
        },
        vx: vx,
        vy: vy,
        start_timer: BALL_START_DELAY as int,
    }
}

/// Relates a ball before a reset to one after it: recentered on `(x, y)`,
/// frozen for the serve delay, with some valid serve velocity.
pub open spec fn ball_reset_to(b_old: BallState, b_new: BallState, x: int, y: int) -> bool {
    &&& valid_serve(b_new.vx, b_new.vy)
    &&& b_new == ball_reset_shape(b_old, x, y, b_new.vx, b_new.vy)
}

/// The motion phase of one update: while frozen only the timer counts
/// down; otherwise the position integrates `velocity * dt`.
pub open spec fn ball_after_motion(b: BallState, dt: int) -> BallState {
    if b.start_timer > 0 {
        BallState {
            bounds: b.bounds,
            vx: b.vx,
            vy: b.vy,
            start_timer: b.start_timer - dt,
        }
    } else {
        BallState {
            bounds: RectShape {
                x: b.bounds.x + div_toward_zero(b.vx * dt, MILLIS_PER_SECOND as int),
                y: b.bounds.y + div_toward_zero(b.vy * dt, MILLIS_PER_SECOND as int),
                width: b.bounds.width,
                height: b.bounds.height,
            },
            vx: b.vx,
            vy: b.vy,
            start_timer: b.start_timer,
        }
    }
}

/// Collision response against one paddle.  On overlap the ball's facing
/// edge snaps flush to the paddle's facing edge (chosen by the current
/// horizontal direction), the horizontal velocity reflects and speeds up,
/// and the vertical velocity is recomputed from the vertical offset.
pub open spec fn ball_after_paddle(b: BallState, paddle: RectShape) -> BallState {
    if rects_intersect(paddle, b.bounds) {
        BallState {
            bounds: RectShape {
                x: if b.vx < 0 {
                    paddle.x + paddle.width
                } else {
                    paddle.x - b.bounds.width
                },
                y: b.bounds.y,
                width: b.bounds.width,
                height: b.bounds.height,
            },
            vx: -div_toward_zero(b.vx * BALL_BOUNCE_NUM, BALL_BOUNCE_DEN as int),
            vy: (b.bounds.y - paddle.y) * BALL_ANGLE_FACTOR,
            start_timer: b.start_timer,
        }
    } else {
        b
    }
}

/// Collision response against the top and bottom walls: the vertical
/// velocity flips, the position is deliberately not repositioned, so the
/// ball may overlap a wall for one frame.
pub open spec fn ball_after_wall(b: BallState, game_height: int) -> BallState {
    if b.bounds.y <= 0 || b.bounds.y + b.bounds.height >= game_height {
        BallState {
            bounds: b.bounds,
            vx: b.vx,
            vy: -b.vy,
            start_timer: b.start_timer,
        }
    } else {
        b
    }
}

/// A goal at the left wall: the ball's left edge reached it, so the right
/// player scores.
pub open spec fn ball_goal_left(b: BallState) -> bool {
    b.bounds.x <= 0
}

/// A goal at the right wall: the left wall was not hit and the ball's
/// right edge reached the right one, so the left player scores.
pub open spec fn ball_goal_right(b: BallState, game_width: int) -> bool {
    b.bounds.x > 0 && b.bounds.x + b.bounds.width >= game_width
}

/// Everything one ball update may do, as a relation between the states
/// before and after: the motion phase, both paddle checks, the wall check,
/// and goal detection with its reset, in that fixed order.
pub open spec fn ball_update_ok(
    b0: BallState,
    l0: PaddleState,
    r0: PaddleState,
    b1: BallState,
    l1: PaddleState,
    r1: PaddleState,
    p: ParamsShape,
) -> bool {
    let moved = ball_after_motion(b0, p.dt);
    let hit_left = ball_after_paddle(moved, l0.bounds);
    let hit_right = ball_after_paddle(hit_left, r0.bounds);
    let walled = ball_after_wall(hit_right, p.game_height);
    &&& l1.bounds == l0.bounds
    &&& r1.bounds == r0.bounds
    &&& if ball_goal_left(walled) {
        &&& r1.score == r0.score + 1
        &&& l1.score == l0.score
        &&& ball_reset_to(walled, b1, p.game_width / 2, p.game_height / 2)
    } else if ball_goal_right(walled, p.game_width) {
        &&& l1.score == l0.score + 1
        &&& r1.score == r0.score
        &&& ball_reset_to(walled, b1, p.game_width / 2, p.game_height / 2)
    } else {
        &&& b1 == walled
        &&& l1.score == l0.score
        &&& r1.score == r0.score
    }
}

/// Relies on rand::Rng::gen through rand::thread_rng: a random coin flip.
/// Nothing is promised of the outcome.
#[verifier::external_body]
fn random_coin() -> bool {
    rand::thread_rng().gen::<bool>()
}

/// Relies on rand::Rng::gen_range through rand::thread_rng: a value drawn
/// uniformly from the half-open range `[lo, hi)`.  The range must be
/// nonempty, since gen_range panics on an empty one.
#[verifier::external_body]
fn random_in_range(lo: i64, hi: i64) -> (r: i64)
    requires
        lo < hi,
    ensures
        lo <= r < hi,
{
    rand::thread_rng().gen_range(lo..hi)
}

impl Ball {
    /// Creates a ball recentered on the given position, frozen, with a
    /// random serve velocity.
    pub fn new(x: i64, y: i64) -> (b: Ball)
        requires
            -COORD_LIMIT <= x <= COORD_LIMIT,
            -COORD_LIMIT <= y <= COORD_LIMIT,
        ensures
            ball_reset_to(b@, b@, x as int, y as int),
            ball_wf(b@),
    {
        let mut ball = Ball {
            vx: 0,
            vy: 0,
            start_timer: 0,
            bounds: Rectangle::new(0, 0, BALL_WIDTH, BALL_HEIGHT),
        };
        ball.reset(x, y);
        ball
    }

    /// Recenters the ball on `(x, y)`, draws a random serve velocity and
    /// freezes the ball for the serve delay.
    pub fn reset(&mut self, x: i64, y: i64)
        requires
            0 <= old(self)@.bounds.width <= SIZE_LIMIT,
            0 <= old(self)@.bounds.height <= SIZE_LIMIT,
            -COORD_LIMIT <= x <= COORD_LIMIT,
            -COORD_LIMIT <= y <= COORD_LIMIT,
        ensures
            ball_reset_to(old(self)@, final(self)@, x as int, y as int),
            old(self)@.bounds.width == BALL_WIDTH && old(self)@.bounds.height == BALL_HEIGHT
                ==> ball_wf(final(self)@),
    {
        let vx = if random_coin() {
            BALL_STARTING_SPEED
        } else {
            -BALL_STARTING_SPEED
        };
        let vy = random_in_range(-BALL_STARTING_SPEED, BALL_STARTING_SPEED);
        self.reset_with_serve(x, y, vx, vy);
    }

    /// Recenters and freezes the ball like [`Ball::reset`], but with the
    /// serve velocity supplied by the caller, so a deterministic serve can
    /// be injected.
    pub fn reset_with_serve(&mut self, x: i64, y: i64, vx: i64, vy: i64)
        requires
            0 <= old(self)@.bounds.width <= SIZE_LIMIT,
            0 <= old(self)@.bounds.height <= SIZE_LIMIT,
            -COORD_LIMIT <= x <= COORD_LIMIT,
            -COORD_LIMIT <= y <= COORD_LIMIT,
            valid_serve(vx as int, vy as int),
        ensures
            final(self)@ == ball_reset_shape(old(self)@, x as int, y as int, vx as int, vy as int),
            ball_reset_to(old(self)@, final(self)@, x as int, y as int),
    {
        let half_width = div_trunc(self.bounds.width, 2);
        let half_height = div_trunc(self.bounds.height, 2);
        proof {
            lemma_div_toward_zero_abs(old(self)@.bounds.width, 2);
            lemma_div_toward_zero_abs(old(self)@.bounds.height, 2);
        }
        self.bounds.x = x - half_width;
        self.bounds.y = y - half_height;
        self.vx = vx;
        self.vy = vy;
        self.start_timer = BALL_START_DELAY;
    }

    /// One frame of ball simulation: the motion phase, then, in fixed
    /// order, collision against the left paddle, the right paddle, the
    /// walls, and goal detection.  The order matters: a paddle bounce can
    /// change the velocity, the wall check reads the already-updated
    /// position, and a goal's reset overrides any earlier velocity change.
    /// A goal increments the scoring paddle's score by exactly one.
    pub fn update(&mut self, params: &UpdateParams, left: &mut Paddle, right: &mut Paddle)
        requires
            params_wf(params@),
            ball_wf(old(self)@),
            abs(old(self)@.bounds.x) <= COORD_LIMIT,
            abs(old(self)@.bounds.y) <= COORD_LIMIT,
            abs(old(self)@.vx) <= VEL_LIMIT,
            abs(old(self)@.vy) <= VEL_LIMIT,
            rect_wf(old(left)@.bounds),
            rect_wf(old(right)@.bounds),
            old(left)@.score < u32::MAX,
            old(right)@.score < u32::MAX,
        ensures
            ball_update_ok(
                old(self)@,
                old(left)@,
                old(right)@,
                final(self)@,
                final(left)@,
                final(right)@,
                params@,
            ),
            ball_wf(final(self)@),
            final(left)@.score >= old(left)@.score,
            final(right)@.score >= old(right)@.score,
    {
        if self.start_timer > 0 {
            self.start_timer = self.start_timer - params.dt;
        } else {
            proof {
                let t = params.dt as int;
                let vx = old(self)@.vx;
                let vy = old(self)@.vy;
                assert(-VEL_LIMIT * DT_LIMIT <= vx * t <= VEL_LIMIT * DT_LIMIT)
                    by (nonlinear_arith)
                    requires
                        -VEL_LIMIT <= vx <= VEL_LIMIT,
                        0 <= t <= DT_LIMIT,
                {}
                assert(-VEL_LIMIT * DT_LIMIT <= vy * t <= VEL_LIMIT * DT_LIMIT)
                    by (nonlinear_arith)
                    requires
                        -VEL_LIMIT <= vy <= VEL_LIMIT,
                        0 <= t <= DT_LIMIT,
                {}
                lemma_div_toward_zero_abs(vx * t, MILLIS_PER_SECOND as int);
                lemma_div_toward_zero_abs(vy * t, MILLIS_PER_SECOND as int);
            }
            let dx = div_trunc(self.vx * params.dt, MILLIS_PER_SECOND);
            let dy = div_trunc(self.vy * params.dt, MILLIS_PER_SECOND);
            self.bounds.x = self.bounds.x + dx;
            self.bounds.y = self.bounds.y + dy;
        }
        assert(self@ == ball_after_motion(old(self)@, params@.dt));

        self.check_paddle_collision(left);
        self.check_paddle_collision(right);
        self.check_wall_collision(params);
        self.check_goal(params, left, right);
    }

    /// Collision between the ball and one paddle: on overlap, snap the
    /// ball flush to the paddle's facing edge, reflect and speed up the
    /// horizontal velocity, and recompute the vertical velocity from the
    /// vertical offset.
    pub fn check_paddle_collision(&mut self, paddle: &Paddle)
        requires
            rect_wf(paddle@.bounds),
            0 <= old(self)@.bounds.width <= SIZE_LIMIT,
            0 <= old(self)@.bounds.height <= SIZE_LIMIT,
            abs(old(self)@.bounds.x) <= BALL_COORD_ROOM,
            abs(old(self)@.bounds.y) <= BALL_COORD_ROOM,
            abs(old(self)@.vx) <= BALL_VEL_ROOM,
        ensures
            final(self)@ == ball_after_paddle(old(self)@, paddle@.bounds),
    {
        if paddle.bounds.intersects(self.bounds) {
            if self.vx < 0 {
                self.bounds.x = paddle.bounds.x + paddle.bounds.width;
            } else {
                self.bounds.x = paddle.bounds.x - self.bounds.width;
            }
            proof {
                lemma_div_toward_zero_abs(old(self)@.vx * BALL_BOUNCE_NUM, BALL_BOUNCE_DEN as int);
            }
            let scaled = div_trunc(self.vx * BALL_BOUNCE_NUM, BALL_BOUNCE_DEN);
            self.vx = -scaled;
            let dy = self.bounds.y - paddle.bounds.y;
            self.vy = dy * BALL_ANGLE_FACTOR;
        }
    }

    /// Collision between the ball and the top or bottom of the arena: the
    /// vertical velocity flips; the position is left where it is, so the
    /// ball may overlap the wall for one frame.
    pub fn check_wall_collision(&mut self, params: &UpdateParams)
        requires
            params_wf(params@),
            0 <= old(self)@.bounds.height <= SIZE_LIMIT,
            abs(old(self)@.bounds.y) <= BALL_COORD_ROOM,
            old(self)@.vy > i64::MIN,
        ensures
            final(self)@ == ball_after_wall(old(self)@, params@.game_height),
    {
        if self.bounds.y <= 0 || self.bounds.y + self.bounds.height >= params.game_height {
            self.vy = -self.vy;
        }
    }

    /// Goal detection against the left and right walls.  A goal increments
    /// the scoring paddle's score by exactly one and resets the ball at the
    /// arena center with a fresh random serve.
    pub fn check_goal(&mut self, params: &UpdateParams, left: &mut Paddle, right: &mut Paddle)
        requires
            params_wf(params@),
            0 <= old(self)@.bounds.width <= SIZE_LIMIT,
            0 <= old(self)@.bounds.height <= SIZE_LIMIT,
            abs(old(self)@.bounds.x) <= BALL_COORD_ROOM,
            old(left)@.score < u32::MAX,
            old(right)@.score < u32::MAX,
        ensures
            final(left)@.bounds == old(left)@.bounds,
            final(right)@.bounds == old(right)@.bounds,
            ball_goal_left(old(self)@) ==> {
                &&& final(right)@.score == old(right)@.score + 1
                &&& final(left)@.score == old(left)@.score
                &&& ball_reset_to(
                    old(self)@,
                    final(self)@,
                    params@.game_width / 2,
                    params@.game_height / 2,
                )
            },
            ball_goal_right(old(self)@, params@.game_width) ==> {
                &&& final(left)@.score == old(left)@.score + 1
                &&& final(right)@.score == old(right)@.score
                &&& ball_reset_to(
                    old(self)@,
                    final(self)@,
                    params@.game_width / 2,
                    params@.game_height / 2,
                )
            },
            !ball_goal_left(old(self)@) && !ball_goal_right(old(self)@, params@.game_width) ==> {
                &&& final(self)@ == old(self)@
                &&& final(left)@.score == old(left)@.score
                &&& final(right)@.score == old(right)@.score
            },
    {
        proof {
            lemma_div_toward_zero_abs(params@.game_width, 2);
            lemma_div_toward_zero_abs(params@.game_height, 2);
        }
        if self.bounds.x <= 0 {
            right.score = right.score + 1;
            let cx = div_trunc(params.game_width, 2);
            let cy = div_trunc(params.game_height, 2);
            self.reset(cx, cy);
        } else if self.bounds.x + self.bounds.width >= params.game_width {
            left.score = left.score + 1;
            let cx = div_trunc(params.game_width, 2);
            let cy = div_trunc(params.game_height, 2);
            self.reset(cx, cy);
        }
    }
}

/// While the ball is frozen before a serve, an update leaves its position
/// exactly where it was, whatever the velocity, as long as the frozen ball
/// is clear of both paddles and of the goal walls.
pub proof fn lemma_frozen_ball_keeps_position(
    b0: BallState,
    l0: PaddleState,
    r0: PaddleState,
    b1: BallState,
    l1: PaddleState,
    r1: PaddleState,
    p: ParamsShape,
)
    requires
        ball_update_ok(b0, l0, r0, b1, l1, r1, p),
        b0.start_timer > 0,
        !rects_intersect(l0.bounds, b0.bounds),
        !rects_intersect(r0.bounds, b0.bounds),
        0 < b0.bounds.x,
        b0.bounds.x + b0.bounds.width < p.game_width,
    ensures
        b1.bounds == b0.bounds,
{
}

/// A paddle bounce reflects the horizontal direction and strictly grows
/// the horizontal speed, for any ball that moves at least at serve speed.
pub proof fn lemma_paddle_bounce_reflects(b: BallState, paddle: RectShape)
    requires
        rects_intersect(paddle, b.bounds),
        abs(b.vx) >= BALL_STARTING_SPEED,
    ensures
        b.vx > 0 ==> ball_after_paddle(b, paddle).vx < 0,
        b.vx < 0 ==> ball_after_paddle(b, paddle).vx > 0,
        abs(ball_after_paddle(b, paddle).vx) > abs(b.vx),
{
    let m = abs(b.vx) as int;
    lemma_scale_up_grows(m, BALL_BOUNCE_NUM as int, BALL_BOUNCE_DEN as int);
    assert(m * (BALL_BOUNCE_NUM - BALL_BOUNCE_DEN) >= BALL_BOUNCE_DEN);
}

/// Two resets to the same center in immediate succession leave the same
/// position and freeze timer, though the drawn serve velocities may
/// differ.
pub proof fn lemma_reset_idempotent(b0: BallState, b1: BallState, b2: BallState, x: int, y: int)
    requires
        ball_reset_to(b0, b1, x, y),
        ball_reset_to(b1, b2, x, y),
    ensures
        b2.bounds == b1.bounds,
        b2.start_timer == b1.start_timer,
{
}

} // verus!
