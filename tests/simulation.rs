use pong::collision::CollisionSystem;
use pong::components::{Ball, Paddle, Score};
use pong::config::{Config, SUBPIXELS};
use pong::movement::{steer_paddle, MovementSystem};
use pong::scoring::ScoringSystem;

fn px(n: i64) -> i64 {
    n * SUBPIXELS
}

#[test]
fn ball_moves_by_velocity_times_elapsed() {
    let config = Config::default();
    let mut ball = Ball { x: px(400), y: px(300), velocity_x: 200, velocity_y: -100 };
    let mut player = Paddle::new(px(50), px(250), true);
    let mut ai = Paddle::new(px(750), px(250), false);
    MovementSystem::new().update(&mut ball, &mut player, &mut ai, 500_000, &config);
    assert_eq!(ball.x, px(500));
    assert_eq!(ball.y, px(250));
    assert_eq!(ball.velocity_x, 200);
    assert_eq!(ball.velocity_y, -100);
}

#[test]
fn paddles_are_clamped_to_the_window() {
    let config = Config::default();
    let mut ball = Ball { x: px(400), y: px(590), velocity_x: 0, velocity_y: 0 };
    let mut player = Paddle { x: px(50), y: px(10), velocity_y: -300, is_player: true };
    let mut ai = Paddle { x: px(750), y: px(490), velocity_y: 0, is_player: false };
    MovementSystem::new().update(&mut ball, &mut player, &mut ai, 1_000_000, &config);
    assert_eq!(player.y, 0);
    assert_eq!(ai.velocity_y, 200);
    assert_eq!(ai.y, px(500));

    let mut low = Paddle { x: px(50), y: px(480), velocity_y: i64::MAX, is_player: true };
    MovementSystem::new().update(&mut ball, &mut low, &mut ai, 1_000_000, &config);
    assert_eq!(low.y, px(500));
}

#[test]
fn ai_velocity_follows_dead_zone() {
    let config = Config::default();
    let system = MovementSystem::new();
    let cases: [(i64, i64); 5] = [(100, -200), (289, -200), (290, 0), (310, 0), (311, 200)];
    for (ball_y, expected) in cases {
        let mut ball = Ball { x: px(400), y: px(ball_y), velocity_x: 0, velocity_y: 0 };
        let mut player = Paddle::new(px(50), px(250), true);
        let mut ai = Paddle::new(px(750), px(250), false);
        system.update(&mut ball, &mut player, &mut ai, 0, &config);
        assert_eq!(ai.velocity_y, expected);
    }
}

#[test]
fn zero_elapsed_moves_nothing() {
    let config = Config::default();
    let mut ball = Ball { x: px(123), y: px(100), velocity_x: -150, velocity_y: 80 };
    let mut player = Paddle { x: px(50), y: px(42), velocity_y: 300, is_player: true };
    let mut ai = Paddle { x: px(750), y: px(250), velocity_y: 0, is_player: false };
    MovementSystem::new().update(&mut ball, &mut player, &mut ai, 0, &config);
    assert_eq!((ball.x, ball.y), (px(123), px(100)));
    assert_eq!(player.y, px(42));
    assert_eq!(ai.y, px(250));
    assert_eq!(ai.velocity_y, -200);
}

#[test]
fn paddle_hit_in_the_middle_only_reverses() {
    let config = Config::default();
    let mut ball = Ball { x: px(60), y: px(300), velocity_x: -150, velocity_y: 40 };
    let player = Paddle::new(px(50), px(250), true);
    let ai = Paddle::new(px(750), px(250), false);
    CollisionSystem::new().update(&mut ball, &player, &ai, &config);
    assert_eq!(ball.velocity_x, 150);
    assert_eq!(ball.velocity_y, 40);
    assert_eq!((ball.x, ball.y), (px(60), px(300)));
}

#[test]
fn paddle_hit_at_the_edge_adds_full_boost() {
    let config = Config::default();
    let mut ball = Ball { x: px(60), y: px(350), velocity_x: -150, velocity_y: 0 };
    let paddle = Paddle::new(px(50), px(250), true);
    CollisionSystem::new().check_paddle_collision(&mut ball, &paddle, &config);
    assert_eq!(ball.velocity_x, 150);
    assert_eq!(ball.velocity_y, 100);

    let mut high = Ball { x: px(60), y: px(275), velocity_x: -150, velocity_y: 0 };
    CollisionSystem::new().check_paddle_collision(&mut high, &paddle, &config);
    assert_eq!(high.velocity_y, -50);
}

#[test]
fn no_contact_leaves_velocity() {
    let config = Config::default();
    let mut ball = Ball { x: px(400), y: px(300), velocity_x: -150, velocity_y: 40 };
    let player = Paddle::new(px(50), px(250), true);
    let ai = Paddle::new(px(750), px(250), false);
    CollisionSystem::new().update(&mut ball, &player, &ai, &config);
    assert_eq!((ball.velocity_x, ball.velocity_y), (-150, 40));
}

#[test]
fn walls_reverse_vertical_velocity_at_the_edges() {
    let config = Config::default();
    let player = Paddle::new(px(50), px(250), true);
    let ai = Paddle::new(px(750), px(250), false);
    for y in [0, px(5), px(595), px(600)] {
        let mut ball = Ball { x: px(400), y, velocity_x: 150, velocity_y: 90 };
        CollisionSystem::new().update(&mut ball, &player, &ai, &config);
        assert_eq!(ball.velocity_y, -90);
    }
    let mut inside = Ball { x: px(400), y: px(6), velocity_x: 150, velocity_y: 90 };
    CollisionSystem::new().update(&mut inside, &player, &ai, &config);
    assert_eq!(inside.velocity_y, 90);
}

#[test]
fn ball_out_left_scores_for_ai() {
    let config = Config::default();
    let mut ball = Ball { x: px(-5), y: px(300), velocity_x: -150, velocity_y: 30 };
    let mut score = Score::new();
    ScoringSystem::new().update(&mut ball, &mut score, &config);
    assert_eq!(score.ai_score, 1);
    assert_eq!(score.player_score, 0);
    assert_eq!((ball.x, ball.y), (px(400), px(300)));
    assert_eq!((ball.velocity_x, ball.velocity_y), (200, 100));
}

#[test]
fn ball_out_right_scores_for_player() {
    let config = Config::default();
    let mut ball = Ball { x: px(805), y: px(300), velocity_x: 150, velocity_y: -30 };
    let mut score = Score::new();
    ScoringSystem::new().update(&mut ball, &mut score, &config);
    assert_eq!(score.player_score, 1);
    assert_eq!(score.ai_score, 0);
    assert_eq!((ball.x, ball.y), (px(400), px(300)));
    assert_eq!((ball.velocity_x, ball.velocity_y), (-200, 100));
}

#[test]
fn ball_inside_scores_nothing() {
    let config = Config::default();
    let mut ball = Ball { x: px(800), y: px(300), velocity_x: 150, velocity_y: -30 };
    let mut score = Score::new();
    ScoringSystem::new().update(&mut ball, &mut score, &config);
    assert_eq!((score.player_score, score.ai_score), (0, 0));
    assert_eq!(ball, Ball { x: px(800), y: px(300), velocity_x: 150, velocity_y: -30 });
}

#[test]
fn score_counters() {
    let mut score = Score::new();
    score.player_scores();
    score.player_scores();
    score.ai_scores();
    assert_eq!((score.player_score, score.ai_score), (2, 1));
    score.reset();
    assert_eq!((score.player_score, score.ai_score), (0, 0));
}

#[test]
fn ball_reset_serves_against_last_direction() {
    let mut ball = Ball::new(1, 2);
    assert_eq!((ball.velocity_x, ball.velocity_y), (200, 100));
    ball.velocity_y = -7;
    ball.reset(10, 20);
    assert_eq!((ball.x, ball.y, ball.velocity_x, ball.velocity_y), (10, 20, -200, 100));
    ball.reset(30, 40);
    assert_eq!(ball.velocity_x, 200);
}

#[test]
fn steering_follows_keys() {
    let config = Config::default();
    let mut player = Paddle::new(px(50), px(250), true);
    steer_paddle(&mut player, true, false, &config);
    assert_eq!(player.velocity_y, -300);
    steer_paddle(&mut player, false, true, &config);
    assert_eq!(player.velocity_y, 300);
    steer_paddle(&mut player, true, true, &config);
    assert_eq!(player.velocity_y, 0);
    let mut ai = Paddle { x: px(750), y: px(250), velocity_y: 200, is_player: false };
    steer_paddle(&mut ai, true, false, &config);
    assert_eq!(ai.velocity_y, 200);
}

#[test]
fn default_config_values() {
    let config = Config::default();
    assert_eq!((config.window_width, config.window_height), (800, 600));
    assert_eq!(config.window_title, "Ping Pong");
    assert_eq!((config.paddle_width, config.paddle_height, config.ball_size), (20, 100, 10));
    assert_eq!(config.fps_target, 60);
}

#[test]
fn range_checks_before_a_step() {
    let config = Config::default();
    let ball = Ball { x: px(400), y: px(300), velocity_x: 200, velocity_y: 100 };
    assert!(MovementSystem::advance_fits(&ball, 1_000_000));
    let fast = Ball { x: i64::MAX - 10, y: 0, velocity_x: 11, velocity_y: 0 };
    assert!(!MovementSystem::advance_fits(&fast, 1));
    assert!(MovementSystem::advance_fits(&fast, 0));

    let player = Paddle::new(px(50), px(250), true);
    let ai = Paddle::new(px(750), px(250), false);
    let touching = Ball { x: px(60), y: px(300), velocity_x: i64::MIN, velocity_y: 0 };
    assert!(!CollisionSystem::velocities_fit(&touching, &player, &ai, &config));
    let free = Ball { x: px(400), y: px(300), velocity_x: i64::MIN, velocity_y: 0 };
    assert!(CollisionSystem::velocities_fit(&free, &player, &ai, &config));
}
