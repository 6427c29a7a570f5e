use pong::ball::{Ball, BALL_START_DELAY, BALL_STARTING_SPEED};
use pong::game::{Game, UpdateParams, GAME_HEIGHT, GAME_WIDTH, SCORE_TO_WIN};
use pong::paddle::{Paddle, PlayerInput, PADDLE_HEIGHT, PADDLE_WIDTH};
use pong::rectangle::Rectangle;

fn frame() -> UpdateParams {
    UpdateParams { dt: 16, game_width: GAME_WIDTH, game_height: GAME_HEIGHT }
}

fn no_keys() -> PlayerInput {
    PlayerInput { up: false, down: false }
}

fn paddle_at(x: i64, y: i64) -> Paddle {
    Paddle { bounds: Rectangle::new(x, y, PADDLE_WIDTH, PADDLE_HEIGHT), score: 0 }
}

fn ball_at(x: i64, y: i64, vx: i64, vy: i64, start_timer: i64) -> Ball {
    Ball { bounds: Rectangle::new(x, y, 15_000, 15_000), vx, vy, start_timer }
}

// Paddles placed against the side walls, far away from mid-arena balls.
fn side_paddles() -> (Paddle, Paddle) {
    (paddle_at(15_000, 310_000), paddle_at(1_245_000, 310_000))
}

#[test]
fn paddle_new_is_centered_with_zero_score() {
    let p = Paddle::new(25_000, 360_000);
    assert_eq!(p.bounds.x, 15_000);
    assert_eq!(p.bounds.y, 310_000);
    assert_eq!(p.bounds.width, PADDLE_WIDTH);
    assert_eq!(p.bounds.height, PADDLE_HEIGHT);
    assert_eq!(p.score, 0);
}

#[test]
fn paddle_moves_down_at_fixed_speed() {
    let mut p = paddle_at(15_000, 310_000);
    p.update(&frame(), &PlayerInput { up: false, down: true });
    // 500_000 units/s over 16 ms is exactly 8_000 units.
    assert_eq!(p.bounds.y, 318_000);
    assert_eq!(p.bounds.x, 15_000);
}

#[test]
fn paddle_moves_up_at_fixed_speed() {
    let mut p = paddle_at(15_000, 310_000);
    p.update(&frame(), &PlayerInput { up: true, down: false });
    assert_eq!(p.bounds.y, 302_000);
}

#[test]
fn both_keys_held_cancel_out() {
    let mut p = paddle_at(15_000, 310_000);
    p.update(&frame(), &PlayerInput { up: true, down: true });
    assert_eq!(p.bounds.y, 310_000);
}

#[test]
fn paddle_at_top_stays_clamped_when_moving_up() {
    for dt in [1, 7, 16, 1000] {
        let mut p = paddle_at(15_000, 0);
        let params = UpdateParams { dt, game_width: GAME_WIDTH, game_height: GAME_HEIGHT };
        p.update(&params, &PlayerInput { up: true, down: false });
        assert_eq!(p.bounds.y, 0);
    }
}

#[test]
fn paddle_clamps_at_the_bottom() {
    let mut p = paddle_at(15_000, 619_000);
    p.update(&frame(), &PlayerInput { up: false, down: true });
    assert_eq!(p.bounds.y, GAME_HEIGHT - PADDLE_HEIGHT);
}

#[test]
fn paddle_with_no_keys_stays_put() {
    let mut p = paddle_at(15_000, 310_000);
    p.update(&frame(), &no_keys());
    assert_eq!(p.bounds.y, 310_000);
    assert_eq!(p.score, 0);
}

#[test]
fn ball_new_is_centered_and_frozen() {
    let b = Ball::new(640_000, 360_000);
    assert_eq!(b.bounds.x, 632_500);
    assert_eq!(b.bounds.y, 352_500);
    assert_eq!(b.bounds.width, 15_000);
    assert_eq!(b.bounds.height, 15_000);
    assert_eq!(b.start_timer, BALL_START_DELAY);
}

#[test]
fn serve_velocity_stays_in_its_range() {
    for _ in 0..64 {
        let b = Ball::new(640_000, 360_000);
        assert!(b.vx == BALL_STARTING_SPEED || b.vx == -BALL_STARTING_SPEED);
        assert!(-BALL_STARTING_SPEED <= b.vy && b.vy < BALL_STARTING_SPEED);
    }
}

#[test]
fn injected_serve_is_taken_verbatim() {
    let mut b = Ball::new(640_000, 360_000);
    b.reset_with_serve(640_000, 360_000, BALL_STARTING_SPEED, 123);
    assert_eq!(b.vx, BALL_STARTING_SPEED);
    assert_eq!(b.vy, 123);
    assert_eq!(b.bounds.x, 632_500);
    assert_eq!(b.bounds.y, 352_500);
    assert_eq!(b.start_timer, BALL_START_DELAY);
}

#[test]
fn reset_twice_lands_in_the_same_frozen_position() {
    let mut b = Ball::new(640_000, 360_000);
    b.reset(400_000, 200_000);
    let first_bounds = b.bounds;
    let first_timer = b.start_timer;
    b.reset(400_000, 200_000);
    assert_eq!(b.bounds, first_bounds);
    assert_eq!(b.start_timer, first_timer);
}

#[test]
fn frozen_ball_does_not_move() {
    let (mut left, mut right) = side_paddles();
    let mut b = ball_at(500_000, 300_000, 500_000, 200_000, 500);
    b.update(&frame(), &mut left, &mut right);
    assert_eq!(b.bounds.x, 500_000);
    assert_eq!(b.bounds.y, 300_000);
    assert_eq!(b.start_timer, 484);
    assert_eq!(b.vx, 500_000);
    assert_eq!(b.vy, 200_000);
}

#[test]
fn moving_ball_integrates_velocity() {
    let (mut left, mut right) = side_paddles();
    let mut b = ball_at(500_000, 300_000, 500_000, 200_000, 0);
    b.update(&frame(), &mut left, &mut right);
    assert_eq!(b.bounds.x, 508_000);
    assert_eq!(b.bounds.y, 303_200);
    assert_eq!(left.score, 0);
    assert_eq!(right.score, 0);
}

#[test]
fn paddle_bounce_reflects_and_speeds_up() {
    let paddle = paddle_at(15_000, 300_000);
    // Ball overlapping the paddle, moving left.
    let mut b = ball_at(30_000, 320_000, -500_000, 100_000, 0);
    b.check_paddle_collision(&paddle);
    // Direction flips and the speed grows by exactly 115/100.
    assert_eq!(b.vx, 575_000);
    // The ball snaps flush to the paddle's right edge.
    assert_eq!(b.bounds.x, 35_000);
    // The vertical velocity comes from the vertical offset times ten.
    assert_eq!(b.vy, 200_000);
}

#[test]
fn paddle_bounce_moving_right_snaps_to_the_left_edge() {
    let paddle = paddle_at(1_245_000, 300_000);
    let mut b = ball_at(1_240_000, 310_000, 575_000, 0, 0);
    b.check_paddle_collision(&paddle);
    assert_eq!(b.vx, -661_250);
    assert_eq!(b.bounds.x, 1_230_000);
    assert_eq!(b.vy, 100_000);
}

#[test]
fn missed_paddle_changes_nothing() {
    let paddle = paddle_at(15_000, 300_000);
    let mut b = ball_at(500_000, 300_000, -500_000, 100_000, 0);
    b.check_paddle_collision(&paddle);
    assert_eq!(b.vx, -500_000);
    assert_eq!(b.bounds.x, 500_000);
    assert_eq!(b.vy, 100_000);
}

#[test]
fn wall_bounce_flips_vertical_velocity_only() {
    let mut b = ball_at(500_000, 0, 500_000, -300_000, 0);
    b.check_wall_collision(&frame());
    assert_eq!(b.vy, 300_000);
    // The wall check repositions nothing.
    assert_eq!(b.bounds.x, 500_000);
    assert_eq!(b.bounds.y, 0);
    assert_eq!(b.vx, 500_000);
}

#[test]
fn bottom_wall_also_bounces() {
    let mut b = ball_at(500_000, 705_000, 500_000, 300_000, 0);
    b.check_wall_collision(&frame());
    assert_eq!(b.vy, -300_000);
}

#[test]
fn ball_clear_of_walls_keeps_velocity() {
    let mut b = ball_at(500_000, 300_000, 500_000, 300_000, 0);
    b.check_wall_collision(&frame());
    assert_eq!(b.vy, 300_000);
}

#[test]
fn goal_on_the_left_scores_for_the_right_player() {
    let (mut left, mut right) = side_paddles();
    // Ball on the left wall moving left: the next update is a goal.
    let mut b = ball_at(0, 352_500, -500_000, 0, 0);
    b.update(&frame(), &mut left, &mut right);
    assert_eq!(right.score, 1);
    assert_eq!(left.score, 0);
    assert_eq!(b.bounds.x, GAME_WIDTH / 2 - 7_500);
    assert_eq!(b.bounds.y, GAME_HEIGHT / 2 - 7_500);
    assert_eq!(b.start_timer, BALL_START_DELAY);
}

#[test]
fn goal_on_the_right_scores_for_the_left_player() {
    let (mut left, mut right) = side_paddles();
    let mut b = ball_at(1_265_000, 352_500, 500_000, 0, 0);
    b.check_goal(&frame(), &mut left, &mut right);
    assert_eq!(left.score, 1);
    assert_eq!(right.score, 0);
    assert_eq!(b.start_timer, BALL_START_DELAY);
}

#[test]
fn no_goal_keeps_both_scores() {
    let (mut left, mut right) = side_paddles();
    let mut b = ball_at(500_000, 300_000, 500_000, 0, 0);
    b.check_goal(&frame(), &mut left, &mut right);
    assert_eq!(left.score, 0);
    assert_eq!(right.score, 0);
    assert_eq!(b.bounds.x, 500_000);
}

#[test]
fn game_new_lays_out_the_arena() {
    let g = Game::new();
    assert_eq!(g.width, GAME_WIDTH);
    assert_eq!(g.height, GAME_HEIGHT);
    assert_eq!(g.left_paddle.bounds.x, 15_000);
    assert_eq!(g.left_paddle.bounds.y, 310_000);
    assert_eq!(g.right_paddle.bounds.x, 1_245_000);
    assert_eq!(g.right_paddle.bounds.y, 310_000);
    assert_eq!(g.ball.bounds.x, 632_500);
    assert_eq!(g.ball.bounds.y, 352_500);
    assert_eq!(g.left_paddle.score, 0);
    assert_eq!(g.right_paddle.score, 0);
    assert!(g.ball.start_timer > 0);
}

#[test]
fn has_winner_at_the_threshold() {
    let mut g = Game::new();
    assert!(!g.has_winner());
    g.left_paddle.score = SCORE_TO_WIN - 1;
    assert!(!g.has_winner());
    g.left_paddle.score = SCORE_TO_WIN;
    assert!(g.has_winner());
    g.left_paddle.score = 0;
    g.right_paddle.score = SCORE_TO_WIN;
    assert!(g.has_winner());
}

#[test]
fn finished_game_freezes_completely() {
    let mut g = Game::new();
    g.right_paddle.score = SCORE_TO_WIN;
    let ball_before = g.ball.clone();
    let left_before = g.left_paddle.clone();
    g.update(&frame(), &PlayerInput { up: true, down: false });
    assert_eq!(g.ball, ball_before);
    assert_eq!(g.left_paddle, left_before);
}

#[test]
fn game_tick_moves_both_paddles() {
    let mut g = Game::new();
    g.update(&frame(), &PlayerInput { up: true, down: false });
    assert_eq!(g.left_paddle.bounds.y, 302_000);
    assert_eq!(g.right_paddle.bounds.y, 302_000);
    // The ball is frozen right after construction, so it has not moved.
    assert_eq!(g.ball.bounds.x, 632_500);
    assert_eq!(g.ball.bounds.y, 352_500);
}

#[test]
fn rally_keeps_speeding_up() {
    let paddle = paddle_at(15_000, 300_000);
    let mut b = ball_at(30_000, 310_000, -500_000, 0, 0);
    b.check_paddle_collision(&paddle);
    let first = b.vx;
    b.vx = -first;
    b.check_paddle_collision(&paddle);
    assert_eq!(first, 575_000);
    assert_eq!(b.vx, 661_250);
    assert!(b.vx.abs() > first.abs());
}
