use vstd::prelude::*;

use crate::components::{serve_velocity_x, Ball, Score, SERVE_SPEED_Y};
use crate::config::{pixels, Config, SUBPIXELS};

verus! {

/// The ball has left the window on the player's side: the computer scores.
pub open spec fn out_left(ball: Ball) -> bool {
    ball.x < 0
}

/// The ball has left the window on the computer's side: the player scores.
pub open spec fn out_right(ball: Ball, config: Config) -> bool {
    !out_left(ball) && ball.x > pixels(config.window_width as int)
}

/// The ball is served again from the middle of the window.
pub open spec fn served(old_ball: Ball, ball: Ball, config: Config) -> bool {
    &&& ball.x == pixels(config.window_width as int) / 2
    &&& ball.y == pixels(config.window_height as int) / 2
    &&& ball.velocity_x == serve_velocity_x(old_ball.velocity_x as int)
    &&& ball.velocity_y == SERVE_SPEED_Y
}

/// Awards a point when the ball leaves the window sideways and serves again.
pub struct ScoringSystem;

impl ScoringSystem {
    pub fn new() -> (r: ScoringSystem) {
        ScoringSystem
    }

    /// Left of the window the computer scores, right of it the player; either
    /// way the ball is served again from the middle. Otherwise nothing changes.
    pub fn update(&mut self, ball: &mut Ball, score: &mut Score, config: &Config)
        requires
            out_left(*old(ball)) ==> old(score).ai_score < u32::MAX,
            out_right(*old(ball), *config) ==> old(score).player_score < u32::MAX,
        ensures
            out_left(*old(ball)) ==> final(score).ai_score == old(score).ai_score + 1
                && final(score).player_score == old(score).player_score
                && served(*old(ball), *final(ball), *config),
            out_right(*old(ball), *config) ==> final(score).player_score == old(
                score,
            ).player_score + 1 && final(score).ai_score == old(score).ai_score
                && served(*old(ball), *final(ball), *config),
            !out_left(*old(ball)) && !out_right(*old(ball), *config) ==> *final(score) == *old(
                score,
            ) && *final(ball) == *old(ball),
    {
        let center_x: i64 = config.window_width as i64 * 500_000;
        let center_y: i64 = config.window_height as i64 * 500_000;
        if ball.x < 0 {
            score.ai_scores();
            ball.reset(center_x, center_y);
        } else if ball.x > config.window_width as i64 * SUBPIXELS {
            score.player_scores();
            ball.reset(center_x, center_y);
        }
    }
}

} // verus!
