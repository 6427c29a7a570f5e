//! The orchestrator: arena constants, the per-frame update context, and the
//! game state that owns both paddles and the ball.

use crate::ball::{
    ball_update_ok, ball_wf, valid_serve, Ball, BallState, BALL_HEIGHT, BALL_WIDTH,
};
use crate::paddle::{
    paddle_after_update, Paddle, PaddleState, PlayerInput, PADDLE_HEIGHT, PADDLE_WIDTH,
};
use crate::rectangle::rect_wf;
use crate::units::{div_trunc, COORD_LIMIT, DT_LIMIT, UNITS_PER_PIXEL, VEL_LIMIT};
use vstd::math::abs;
use vstd::prelude::*;

verus! {

/// The mathematical contents of an [`UpdateParams`].
pub ghost struct ParamsShape {
    pub dt: int,
    pub game_width: int,
    pub game_height: int,
}

/// Information about the current frame, built fresh each tick and passed to
/// every update call: the frame time in milliseconds and the arena size in
/// subpixel units.
#[derive(Clone, Debug)]
pub struct UpdateParams {
    pub dt: i64,
    pub game_width: i64,
    pub game_height: i64,
}

impl View for UpdateParams {
    type V = ParamsShape;

    open spec fn view(&self) -> ParamsShape {
        ParamsShape {
            dt: self.dt as int,
            game_width: self.game_width as int,
            game_height: self.game_height as int,
        }
    }
}

/// A frame context the update routines accept: a nonnegative bounded frame
/// time and a positive bounded arena.
pub open spec fn params_wf(p: ParamsShape) -> bool {
    &&& 0 <= p.dt <= DT_LIMIT
    &&& 0 < p.game_width <= COORD_LIMIT
    &&& 0 < p.game_height <= COORD_LIMIT
}

/// Arena width in subpixel units (1280 pixels).
pub const GAME_WIDTH: i64 = 1280 * UNITS_PER_PIXEL;

/// Arena height in subpixel units (720 pixels).
pub const GAME_HEIGHT: i64 = 720 * UNITS_PER_PIXEL;

/// The fixed logical frame time in milliseconds, the step of the
/// fixed-timestep loop (roughly sixty frames per second).
pub const GAME_FRAME_MILLIS: i64 = 16;

/// The first player to reach this score wins and the simulation freezes.
pub const SCORE_TO_WIN: u32 = 10;

/// Distance from a side wall to the center of the paddle on that side.
pub const PADDLE_OFFSET: i64 = 25 * UNITS_PER_PIXEL;

/// The mathematical state of a [`Game`].
pub ghost struct GameState {
    pub width: int,
    pub height: int,
    pub left: PaddleState,
    pub right: PaddleState,
    pub ball: BallState,
}

/// The whole simulation: the arena size, both paddles and the ball.
#[derive(Clone, Debug)]
pub struct Game {
    pub width: i64,
    pub height: i64,
    pub left_paddle: Paddle,
    pub right_paddle: Paddle,
    pub ball: Ball,
}

impl View for Game {
    type V = GameState;

    open spec fn view(&self) -> GameState {
        GameState {
            width: self.width as int,
            height: self.height as int,
            left: self.left_paddle@,
            right: self.right_paddle@,
            ball: self.ball@,
        }
    }
}

/// The shape every reachable game keeps: the fixed arena, paddles of the
/// fixed size inside it, and a well-formed ball.
pub open spec fn game_wf(g: GameState) -> bool {
    &&& g.width == GAME_WIDTH
    &&& g.height == GAME_HEIGHT
    &&& rect_wf(g.left.bounds)
    &&& rect_wf(g.right.bounds)
    &&& g.left.bounds.width == PADDLE_WIDTH
    &&& g.left.bounds.height == PADDLE_HEIGHT
    &&& g.right.bounds.width == PADDLE_WIDTH
    &&& g.right.bounds.height == PADDLE_HEIGHT
    &&& ball_wf(g.ball)
}

/// The match is over as soon as either player has reached the winning
/// score.
pub open spec fn game_over(g: GameState) -> bool {
    g.left.score >= SCORE_TO_WIN || g.right.score >= SCORE_TO_WIN
}

impl Game {
    /// Creates a fresh game: paddles centered vertically near their walls,
    /// scores at zero, and the ball frozen at the center with a random
    /// serve.
    pub fn new() -> (g: Game)
        ensures
            game_wf(g@),
            g@.left.score == 0,
            g@.right.score == 0,
            g@.left.bounds.x == PADDLE_OFFSET - PADDLE_WIDTH / 2,
            g@.left.bounds.y == GAME_HEIGHT / 2 - PADDLE_HEIGHT / 2,
            g@.right.bounds.x == GAME_WIDTH - PADDLE_OFFSET - PADDLE_WIDTH / 2,
            g@.right.bounds.y == GAME_HEIGHT / 2 - PADDLE_HEIGHT / 2,
            g@.ball.bounds.x == GAME_WIDTH / 2 - BALL_WIDTH / 2,
            g@.ball.bounds.y == GAME_HEIGHT / 2 - BALL_HEIGHT / 2,
            g@.ball.start_timer == crate::ball::BALL_START_DELAY,
            valid_serve(g@.ball.vx, g@.ball.vy),
    {
        let center_x = div_trunc(GAME_WIDTH, 2);
        let center_y = div_trunc(GAME_HEIGHT, 2);
        Game {
            width: GAME_WIDTH,
            height: GAME_HEIGHT,
            left_paddle: Paddle::new(PADDLE_OFFSET, center_y),
            right_paddle: Paddle::new(GAME_WIDTH - PADDLE_OFFSET, center_y),
            ball: Ball::new(center_x, center_y),
        }
    }

    /// Whether either player has already won, which freezes the
    /// simulation.
    pub fn has_winner(&self) -> (b: bool)
        ensures
            b == game_over(self@),
    {
        self.left_paddle.score >= SCORE_TO_WIN || self.right_paddle.score >= SCORE_TO_WIN
    }

    /// One simulation tick.  If the match is over, nothing moves.
    /// Otherwise both paddles update on the held keys, then the ball moves
    /// and collides against the freshly moved paddles, possibly scoring.
    pub fn update(&mut self, params: &UpdateParams, input: &PlayerInput)
        requires
            params_wf(params@),
            game_wf(old(self)@),
            old(self)@.left.bounds.height <= params@.game_height,
            old(self)@.right.bounds.height <= params@.game_height,
            abs(old(self)@.ball.bounds.x) <= COORD_LIMIT,
            abs(old(self)@.ball.bounds.y) <= COORD_LIMIT,
            abs(old(self)@.ball.vx) <= VEL_LIMIT,
            abs(old(self)@.ball.vy) <= VEL_LIMIT,
        ensures
            game_wf(final(self)@),
            final(self)@.width == old(self)@.width,
            final(self)@.height == old(self)@.height,
            final(self)@.left.score >= old(self)@.left.score,
            final(self)@.right.score >= old(self)@.right.score,
            game_over(old(self)@) ==> final(self)@ == old(self)@,
            !game_over(old(self)@) ==> ({
                let moved_left = paddle_after_update(
                    old(self)@.left,
                    params@.dt,
                    params@.game_height,
                    *input,
                );
                let moved_right = paddle_after_update(
                    old(self)@.right,
                    params@.dt,
                    params@.game_height,
                    *input,
                );
                ball_update_ok(
                    old(self)@.ball,
                    moved_left,
                    moved_right,
                    final(self)@.ball,
                    final(self)@.left,
                    final(self)@.right,
                    params@,
                )
            }),
    {
        if !self.has_winner() {
            self.left_paddle.update(params, input);
            self.right_paddle.update(params, input);
            self.ball.update(params, &mut self.left_paddle, &mut self.right_paddle);
        }
    }
}

} // verus!
