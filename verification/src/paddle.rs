//! A player's paddle: a rectangle that moves vertically under key input,
//! clamped to the arena, plus that player's score.

use crate::game::{params_wf, UpdateParams};
use crate::rectangle::{rect_wf, RectShape, Rectangle};
use crate::units::{
    div_toward_zero, div_trunc, lemma_div_toward_zero_abs, COORD_LIMIT, DT_LIMIT,
    MILLIS_PER_SECOND, UNITS_PER_PIXEL,
};
use vstd::prelude::*;

verus! {

/// Width of a paddle in subpixel units.
pub const PADDLE_WIDTH: i64 = 20 * UNITS_PER_PIXEL;

/// Height of a paddle in subpixel units.
pub const PADDLE_HEIGHT: i64 = 100 * UNITS_PER_PIXEL;

/// Vertical speed a held key contributes, in subpixel units per second.
pub const PADDLE_SPEED: i64 = 500 * UNITS_PER_PIXEL;

/// The two logical inputs a paddle reacts to.  Holding both keys cancels
/// out; every other key is ignored before it gets here.
#[derive(Clone, Copy, Debug, PartialEq, Eq, Structural)]
pub struct PlayerInput {
    pub up: bool,
    pub down: bool,
}

/// The mathematical state of a [`Paddle`].
pub ghost struct PaddleState {
    pub bounds: RectShape,
    pub score: int,
}

/// A paddle with its bounds and the owning player's score.  The score is
/// only ever incremented, by the ball's goal detection.
#[derive(Clone, Debug, PartialEq, Eq, Structural)]
pub struct Paddle {
    pub bounds: Rectangle,
    pub score: u32,
}

impl View for Paddle {
    type V = PaddleState;

    open spec fn view(&self) -> PaddleState {
        PaddleState { bounds: self.bounds@, score: self.score as int }
    }
}

/// Net vertical velocity for a set of held keys: each key contributes its
/// fixed speed, so holding both is a standstill.
pub open spec fn input_velocity(input: PlayerInput) -> int {
    (if input.up {
        -PADDLE_SPEED as int
    } else {
        0
    }) + (if input.down {
        PADDLE_SPEED as int
    } else {
        0
    })
}

/// Clamps a paddle's top edge into `[0, game_height - height]`.
pub open spec fn clamp_top_edge(y: int, height: int, game_height: int) -> int {
    if y < 0 {
        0
    } else if y + height > game_height {
        game_height - height
    } else {
        y
    }
}

/// One paddle update: integrate the input-driven velocity over `dt`
/// milliseconds, then clamp into the arena.
pub open spec fn paddle_after_update(
    p: PaddleState,
    dt: int,
    game_height: int,
    input: PlayerInput,
) -> PaddleState {
    let moved_y = p.bounds.y + div_toward_zero(input_velocity(input) * dt, MILLIS_PER_SECOND as int);
    PaddleState {
        bounds: RectShape {
            x: p.bounds.x,
            y: clamp_top_edge(moved_y, p.bounds.height, game_height),
            width: p.bounds.width,
            height: p.bounds.height,
        },
        score: p.score,
    }
}

impl Paddle {
    /// Creates a paddle centered at the given position with score zero.
    pub fn new(x: i64, y: i64) -> (p: Paddle)
        requires
            -COORD_LIMIT + PADDLE_WIDTH <= x <= COORD_LIMIT,
            -COORD_LIMIT + PADDLE_HEIGHT <= y <= COORD_LIMIT,
        ensures
            p@.bounds == (RectShape {
                x: x - PADDLE_WIDTH / 2,
                y: y - PADDLE_HEIGHT / 2,
                width: PADDLE_WIDTH as int,
                height: PADDLE_HEIGHT as int,
            }),
            p@.score == 0,
            rect_wf(p@.bounds),
    {
        Paddle { bounds: Rectangle::new_centered(x, y, PADDLE_WIDTH, PADDLE_HEIGHT), score: 0 }
    }

    /// Moves the paddle for one frame of held-key input and clamps it into
    /// the arena: afterwards the top edge always lies in
    /// `[0, game_height - height]`.
    pub fn update(&mut self, params: &UpdateParams, input: &PlayerInput)
        requires
            params_wf(params@),
            rect_wf(old(self)@.bounds),
            old(self)@.bounds.height <= params@.game_height,
        ensures
            final(self)@ == paddle_after_update(
                old(self)@,
                params@.dt,
                params@.game_height,
                *input,
            ),
            0 <= final(self)@.bounds.y,
            final(self)@.bounds.y + final(self)@.bounds.height <= params@.game_height,
            rect_wf(final(self)@.bounds),
    {
        let mut vy: i64 = 0;
        if input.up {
            vy = vy - PADDLE_SPEED;
        }
        if input.down {
            vy = vy + PADDLE_SPEED;
        }
        proof {
            let v = vy as int;
            let t = params.dt as int;
            assert(-PADDLE_SPEED * DT_LIMIT <= v * t <= PADDLE_SPEED * DT_LIMIT)
                by (nonlinear_arith)
                requires
                    -PADDLE_SPEED <= v <= PADDLE_SPEED,
                    0 <= t <= DT_LIMIT,
            {}
            lemma_div_toward_zero_abs(v * t, MILLIS_PER_SECOND as int);
        }
        let delta = div_trunc(vy * params.dt, MILLIS_PER_SECOND);
        self.bounds.y = self.bounds.y + delta;

        if self.bounds.y < 0 {
            self.bounds.y = 0;
        } else if self.bounds.y + self.bounds.height > params.game_height {
            self.bounds.y = params.game_height - self.bounds.height;
        }
    }
}

} // verus!
