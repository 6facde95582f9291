use vstd::prelude::*;

use crate::components::{Ball, Paddle};
use crate::config::{pixels, Config, SUBPIXELS};

verus! {

/// Speed at which the computer paddle chases the ball, in pixels per second.
pub const AI_SPEED: i64 = 200;

/// Distance from a paddle's top edge to the point the computer aims with, in pixels.
pub const AI_AIM_OFFSET: i64 = 50;

/// Half the width of the band around the aim point where the computer holds still, in pixels.
pub const AI_DEAD_ZONE: i64 = 10;

/// `v` brought into `[lo, hi]`.
pub open spec fn clamp(v: int, lo: int, hi: int) -> int {
    if v < lo {
        lo
    } else if v > hi {
        hi
    } else {
        v
    }
}

/// Where a coordinate moving at `velocity` pixels per second is after `elapsed` microseconds.
pub open spec fn advance(pos: int, velocity: int, elapsed: int) -> int {
    pos + velocity * elapsed
}

/// The velocity the computer gives its paddle (top edge `paddle_y`) for a ball at height `ball_y`.
pub open spec fn ai_velocity(ball_y: int, paddle_y: int) -> int {
    let center = paddle_y + pixels(AI_AIM_OFFSET as int);
    if ball_y < center - pixels(AI_DEAD_ZONE as int) {
        -AI_SPEED
    } else if ball_y > center + pixels(AI_DEAD_ZONE as int) {
        AI_SPEED as int
    } else {
        0
    }
}

/// The ball after moving for `elapsed` microseconds fits in the integer fields.
pub open spec fn ball_advance_fits(ball: Ball, elapsed: int) -> bool {
    i64::MIN <= advance(ball.x as int, ball.velocity_x as int, elapsed) <= i64::MAX
        && i64::MIN <= advance(ball.y as int, ball.velocity_y as int, elapsed) <= i64::MAX
}

/// What one movement step does: `b`, `p`, `a` are the ball and the two
/// paddles after the step from `ball`, `player`, `ai`.
pub open spec fn moved(
    ball: Ball,
    player: Paddle,
    ai: Paddle,
    elapsed: int,
    config: Config,
    b: Ball,
    p: Paddle,
    a: Paddle,
) -> bool {
    &&& b.x == advance(ball.x as int, ball.velocity_x as int, elapsed)
    &&& b.y == advance(ball.y as int, ball.velocity_y as int, elapsed)
    &&& b.velocity_x == ball.velocity_x
    &&& b.velocity_y == ball.velocity_y
    &&& p.x == player.x
    &&& p.velocity_y == player.velocity_y
    &&& p.is_player == player.is_player
    &&& p.y == clamp(
        advance(player.y as int, player.velocity_y as int, elapsed),
        0,
        config.max_paddle_y(),
    )
    &&& a.x == ai.x
    &&& a.is_player == ai.is_player
    &&& a.velocity_y == ai_velocity(b.y as int, ai.y as int)
    &&& a.y == clamp(advance(ai.y as int, a.velocity_y as int, elapsed), 0, config.max_paddle_y())
}

/// The velocity the keys give the player's paddle: up subtracts `speed`,
/// down adds it, both cancel out.
pub open spec fn input_velocity(up: bool, down: bool, speed: int) -> int {
    (if down {
        speed
    } else {
        0
    }) - (if up {
        speed
    } else {
        0
    })
}

/// Sets the velocity of the player's paddle from the state of the up and
/// down keys; the computer's paddle is left alone.
pub fn steer_paddle(paddle: &mut Paddle, up: bool, down: bool, config: &Config)
    ensures
        old(paddle).is_player ==> final(paddle).velocity_y == input_velocity(
            up,
            down,
            config.paddle_speed as int,
        ),
        !old(paddle).is_player ==> final(paddle).velocity_y == old(paddle).velocity_y,
        final(paddle).x == old(paddle).x,
        final(paddle).y == old(paddle).y,
        final(paddle).is_player == old(paddle).is_player,
{
    if paddle.is_player {
        let mut velocity: i64 = 0;
        if up {
            velocity = velocity - config.paddle_speed as i64;
        }
        if down {
            velocity = velocity + config.paddle_speed as i64;
        }
        paddle.velocity_y = velocity;
    }
}

/// Moves the ball and both paddles; the computer steers its own paddle.
pub struct MovementSystem;

/// `pos + velocity * elapsed` computed without overflow.
fn advance_wide(pos: i64, velocity: i64, elapsed: u32) -> (r: i128)
    ensures
        r == advance(pos as int, velocity as int, elapsed as int),
{
    proof {
        assert(-0x8000_0000_0000_0000_0000_0000 <= (velocity as int) * (elapsed as int)
            <= 0x8000_0000_0000_0000_0000_0000) by (nonlinear_arith)
            requires
                i64::MIN <= velocity <= i64::MAX,
                0 <= elapsed <= u32::MAX,
        ;
    }
    (pos as i128) + (velocity as i128) * (elapsed as i128)
}

/// Brings a paddle's new top edge into `[0, max_y]`.
fn clamp_paddle(y: i128, max_y: i64) -> (r: i64)
    requires
        0 <= max_y,
    ensures
        r == clamp(y as int, 0, max_y as int),
{
    if y < 0 {
        0
    } else if y > max_y as i128 {
        max_y
    } else {
        y as i64
    }
}

impl MovementSystem {
    pub fn new() -> (r: MovementSystem) {
        MovementSystem
    }

    /// Whether the ball's new position after `elapsed_micros` microseconds
    /// fits in the integer fields, which `update` asks of its caller.
    pub fn advance_fits(ball: &Ball, elapsed_micros: u32) -> (r: bool)
        ensures
            r == ball_advance_fits(*ball, elapsed_micros as int),
    {
        let x: i128 = advance_wide(ball.x, ball.velocity_x, elapsed_micros);
        let y: i128 = advance_wide(ball.y, ball.velocity_y, elapsed_micros);
        i64::MIN as i128 <= x && x <= i64::MAX as i128 && i64::MIN as i128 <= y && y
            <= i64::MAX as i128
    }

    /// Advances the ball and both paddles by `elapsed_micros` microseconds.
    /// The computer first picks its paddle's velocity from the ball's new
    /// height; both paddles end inside the window.
    pub fn update(
        &self,
        ball: &mut Ball,
        player_paddle: &mut Paddle,
        ai_paddle: &mut Paddle,
        elapsed_micros: u32,
        config: &Config,
    )
        requires
            config.paddle_height <= config.window_height,
            ball_advance_fits(*old(ball), elapsed_micros as int),
        ensures
            moved(
                *old(ball),
                *old(player_paddle),
                *old(ai_paddle),
                elapsed_micros as int,
                *config,
                *final(ball),
                *final(player_paddle),
                *final(ai_paddle),
            ),
            0 <= final(player_paddle).y <= config.max_paddle_y(),
            0 <= final(ai_paddle).y <= config.max_paddle_y(),
            final(ai_paddle).velocity_y == -AI_SPEED || final(ai_paddle).velocity_y == 0
                || final(ai_paddle).velocity_y == AI_SPEED,
    {
        ball.x = advance_wide(ball.x, ball.velocity_x, elapsed_micros) as i64;
        ball.y = advance_wide(ball.y, ball.velocity_y, elapsed_micros) as i64;

        let max_y: i64 = (config.window_height - config.paddle_height) as i64 * SUBPIXELS;

        player_paddle.y = clamp_paddle(
            advance_wide(player_paddle.y, player_paddle.velocity_y, elapsed_micros),
            max_y,
        );

        let center: i128 = ai_paddle.y as i128 + (AI_AIM_OFFSET * SUBPIXELS) as i128;
        let dead_zone: i128 = (AI_DEAD_ZONE * SUBPIXELS) as i128;
        if (ball.y as i128) < center - dead_zone {
            ai_paddle.velocity_y = -AI_SPEED;
        } else if (ball.y as i128) > center + dead_zone {
            ai_paddle.velocity_y = AI_SPEED;
        } else {
            ai_paddle.velocity_y = 0;
        }

        ai_paddle.y = clamp_paddle(
            advance_wide(ai_paddle.y, ai_paddle.velocity_y, elapsed_micros),
            max_y,
        );
    }
}

/// With no time elapsed a movement step moves nothing: the ball keeps its
/// place, and so does each paddle that was inside the window.
pub proof fn lemma_zero_elapsed_keeps_positions(
    ball: Ball,
    player: Paddle,
    ai: Paddle,
    config: Config,
    b: Ball,
    p: Paddle,
    a: Paddle,
)
    requires
        moved(ball, player, ai, 0, config, b, p, a),
        0 <= player.y <= config.max_paddle_y(),
        0 <= ai.y <= config.max_paddle_y(),
    ensures
        b == ball,
        p == player,
        a.x == ai.x,
        a.y == ai.y,
        a.velocity_y == ai_velocity(ball.y as int, ai.y as int),
{
}

} // verus!
