//! End-to-end checks of the simulation on concrete games.

use pong::config::{AppConfig, PlayerType};
use pong::model::{ai_input, ai_side_intent, Ball, Controls, Model, Paddle};

fn fresh() -> Model {
    // A 100 by 50 cell field in fixed-point units.
    Model::new(10_000, 5_000)
}

#[test]
fn new_model_layout() {
    let m = fresh();
    assert_eq!(m.field.x, 10_000);
    assert_eq!(m.field.y, 5_000);
    assert_eq!(m.ball.x, 5_000);
    assert_eq!(m.ball.y, 2_500);
    assert_eq!(m.ball.radius, 50);
    assert_eq!(m.ball.vx, 50);
    assert_eq!(m.ball.vy, 50);
    assert_eq!(m.l_paddle.len, 400);
    assert_eq!(m.l_paddle.x, 833);
    assert_eq!(m.l_paddle.y, 2_500);
    assert_eq!(m.l_paddle.vy, 0);
    assert_eq!(m.r_paddle.len, 400);
    assert_eq!(m.r_paddle.x, 9_166);
    assert_eq!(m.r_paddle.y, 2_500);
    assert_eq!(m.l_score, 0);
    assert_eq!(m.r_score, 0);
    assert_eq!(m.l_input, Controls::Stop);
    assert_eq!(m.r_input, Controls::Stop);
}

#[test]
fn free_flight_moves_by_velocity() {
    let mut m = fresh();
    m.tick();
    assert_eq!(m.ball.x, 5_050);
    assert_eq!(m.ball.y, 2_550);
    assert_eq!(m.ball.vx, 50);
    assert_eq!(m.ball.vy, 50);
    assert_eq!(m.l_score, 0);
    assert_eq!(m.r_score, 0);
    assert_eq!(m.l_input, Controls::Stop);
    assert_eq!(m.r_input, Controls::Stop);
}

#[test]
fn bottom_wall_reflects_exactly() {
    let mut m = fresh();
    m.ball.y = 30;
    m.ball.vy = -50;
    m.tick();
    // Overshoot of 20 below the wall mirrors to 20 above it.
    assert_eq!(m.ball.y, 20);
    assert_eq!(m.ball.vy, 50);
    assert_eq!(m.ball.x, 5_050);
}

#[test]
fn top_wall_reflects_exactly() {
    let mut m = fresh();
    m.ball.y = 4_980;
    m.ball.vy = 50;
    m.tick();
    // 5030 mirrors through the top wall at 5000 to 4970.
    assert_eq!(m.ball.y, 4_970);
    assert_eq!(m.ball.vy, -50);
}

#[test]
fn paddle_moves_and_clamps() {
    let mut m = fresh();
    m.r_input = Controls::Up;
    m.tick();
    assert_eq!(m.r_paddle.y, 2_700);
    assert_eq!(m.r_paddle.vy, 200);
    assert_eq!(m.r_input, Controls::Stop);

    m.r_paddle.y = 4_750;
    m.r_input = Controls::Up;
    m.tick();
    // Clamped so the whole paddle stays inside: 5000 - 400 / 2.
    assert_eq!(m.r_paddle.y, 4_800);

    m.l_paddle.y = 250;
    m.l_input = Controls::Down;
    m.tick();
    // Clamped at half the paddle's extent above the bottom wall.
    assert_eq!(m.l_paddle.y, 200);
    assert_eq!(m.l_paddle.vy, -200);
}

#[test]
fn paddle_contact_bounces_and_speeds_up() {
    let mut m = fresh();
    m.ball.x = 9_100;
    m.ball.y = 2_500;
    m.ball.vx = 100;
    m.ball.vy = 100;
    m.tick();
    // Five percent faster on both axes, horizontal direction flipped.
    assert_eq!(m.ball.vx, -105);
    assert_eq!(m.ball.vy, 105);
    assert_eq!(m.ball.x, 8_995);
    assert_eq!(m.ball.y, 2_605);
    assert_eq!(m.l_score, 0);
    assert_eq!(m.r_score, 0);
}

#[test]
fn left_goal_scores_right_and_reserves() {
    let mut m = fresh();
    m.ball.x = 30;
    m.ball.y = 1_000;
    m.ball.vx = -60;
    m.ball.vy = 0;
    m.tick();
    assert_eq!(m.r_score, 1);
    assert_eq!(m.l_score, 0);
    assert_eq!(m.ball.x, 5_000);
    assert_eq!(m.ball.y, 2_500);
    assert!(m.ball.vx >= 40 && m.ball.vx < 60);
    assert!(m.ball.vy >= 40 && m.ball.vy < 60);
}

#[test]
fn right_goal_scores_left_and_serves_back() {
    let mut m = fresh();
    m.ball.x = 9_970;
    m.ball.y = 1_000;
    m.ball.vx = 60;
    m.ball.vy = 0;
    m.tick();
    assert_eq!(m.l_score, 1);
    assert_eq!(m.r_score, 0);
    assert_eq!(m.ball.x, 5_000);
    assert_eq!(m.ball.y, 2_500);
    // The serve is flipped toward the side that conceded.
    assert!(m.ball.vx <= -40 && m.ball.vx > -60);
    assert!(m.ball.vy >= 40 && m.ball.vy < 60);
}

#[test]
fn serve_places_ball_at_centre() {
    let mut m = fresh();
    m.serve(45, -50);
    assert_eq!(m.ball.x, 5_000);
    assert_eq!(m.ball.y, 2_500);
    assert_eq!(m.ball.vx, 45);
    assert_eq!(m.ball.vy, -50);
    assert_eq!(m.ball.radius, 50);
}

#[test]
fn resize_scales_every_coordinate_exactly() {
    let mut m = fresh();
    m.resize(20_000, 10_000);
    assert_eq!(m.field.x, 20_000);
    assert_eq!(m.field.y, 10_000);
    assert_eq!(m.ball.x, 10_000);
    assert_eq!(m.ball.y, 5_000);
    assert_eq!(m.l_paddle.x, 1_666);
    assert_eq!(m.l_paddle.y, 5_000);
    assert_eq!(m.l_paddle.len, 800);
    assert_eq!(m.r_paddle.x, 18_332);
    assert_eq!(m.ball.vx, 50);
    assert_eq!(m.ball.vy, 50);

    m.resize(10_000, 5_000);
    assert_eq!(m.ball.x, 5_000);
    assert_eq!(m.l_paddle.x, 833);
    assert_eq!(m.l_paddle.len, 400);
}

#[test]
fn ai_chases_with_deadband() {
    // A paddle of extent 9 cells has a deadband of 3 cells.
    let paddle = Paddle { len: 900, x: 9_166, y: 500, vy: 0 };
    let high_ball = Ball { x: 0, y: 1_000, radius: 50, vx: 10, vy: 0 };
    assert_eq!(ai_input(&high_ball, &paddle), Controls::Up);

    let level_ball = Ball { x: 0, y: 500, radius: 50, vx: 10, vy: 0 };
    assert_eq!(ai_input(&level_ball, &paddle), Controls::Stop);

    let low_paddle = Paddle { len: 900, x: 9_166, y: 1_000, vy: 0 };
    let ball_below = Ball { x: 0, y: 500, radius: 50, vx: 10, vy: 0 };
    assert_eq!(ai_input(&ball_below, &low_paddle), Controls::Down);

    // Just inside the deadband on either side: hold still.
    let near = Ball { x: 0, y: 800, radius: 50, vx: 10, vy: 0 };
    assert_eq!(ai_input(&near, &paddle), Controls::Stop);
}

#[test]
fn ai_side_only_engages_toward_its_side() {
    let paddle = Paddle { len: 900, x: 9_166, y: 500, vy: 0 };
    let ball_right = Ball { x: 0, y: 1_000, radius: 50, vx: 10, vy: 0 };
    let ball_left = Ball { x: 0, y: 1_000, radius: 50, vx: -10, vy: 0 };
    assert_eq!(ai_side_intent(&ball_right, &paddle, false), Controls::Up);
    assert_eq!(ai_side_intent(&ball_left, &paddle, false), Controls::Stop);
    assert_eq!(ai_side_intent(&ball_left, &paddle, true), Controls::Up);
    assert_eq!(ai_side_intent(&ball_right, &paddle, true), Controls::Stop);
}

#[test]
fn goals_keep_counting() {
    let mut m = fresh();
    m.ball.x = 30;
    m.ball.y = 1_000;
    m.ball.vx = -60;
    m.ball.vy = 0;
    m.tick();
    assert_eq!(m.r_score, 1);
    m.ball.x = 30;
    m.ball.y = 1_000;
    m.ball.vx = -60;
    m.ball.vy = 0;
    m.tick();
    assert_eq!(m.r_score, 2);
    assert_eq!(m.l_score, 0);
}

#[test]
fn config_holds_both_sides() {
    let c = AppConfig { player_l: PlayerType::Human, player_r: PlayerType::Ai };
    assert_eq!(c.player_l, PlayerType::Human);
    assert_eq!(c.player_r, PlayerType::Ai);
    assert_ne!(PlayerType::Human, PlayerType::Ai);
}

#[test]
fn rally_until_left_concedes() {
    let mut m = fresh();
    m.ball.y = 1_000;
    m.ball.vx = -60;
    m.ball.vy = 0;
    let mut ticks: usize = 0;
    while m.r_score == 0 && ticks < 200 {
        m.tick();
        ticks += 1;
    }
    assert_eq!(m.r_score, 1);
    assert_eq!(m.l_score, 0);
    assert_eq!(m.ball.x, 5_000);
    assert_eq!(m.ball.y, 2_500);
    assert!(m.ball.vx >= 40 && m.ball.vx < 60);
    assert!(m.ball.vy >= 40 && m.ball.vy < 60);
}
