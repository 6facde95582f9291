use vstd::prelude::*;

use crate::components::{Ball, Paddle};
use crate::config::{pixels, Config};

verus! {

/// How much a hit at a paddle's very edge adds to the vertical velocity, in pixels per second.
pub const HIT_BOOST: i64 = 100;

/// `a / d` rounded toward zero.
pub open spec fn trunc_div(a: int, d: int) -> int {
    if a >= 0 {
        a / d
    } else {
        -((-a) / d)
    }
}

pub open spec fn fits_i64(v: int) -> bool {
    i64::MIN <= v <= i64::MAX
}

/// The ball touches the top or the bottom of the window.
pub open spec fn wall_hit(ball: Ball, config: Config) -> bool {
    ball.y <= config.half_ball() || ball.y >= pixels(config.window_height as int)
        - config.half_ball()
}

/// The ball's box and the paddle's box intersect (edges included).
pub open spec fn overlaps(ball: Ball, paddle: Paddle, config: Config) -> bool {
    &&& ball.x + config.half_ball() >= paddle.x
    &&& ball.x - config.half_ball() <= paddle.x + pixels(config.paddle_width as int)
    &&& ball.y + config.half_ball() >= paddle.y
    &&& ball.y - config.half_ball() <= paddle.y + pixels(config.paddle_height as int)
}

/// Half a paddle's height, in micropixels.
pub open spec fn half_paddle(config: Config) -> int {
    pixels(config.paddle_height as int) / 2
}

/// What a paddle hit adds to the vertical velocity: `HIT_BOOST` times the
/// ball's offset from the paddle's middle, in half paddle heights, rounded
/// toward zero.
pub open spec fn hit_boost(ball: Ball, paddle: Paddle, config: Config) -> int {
    trunc_div(
        HIT_BOOST * (ball.y - (paddle.y + half_paddle(config))),
        half_paddle(config),
    )
}

/// Horizontal velocity `vx` after the paddle check.
pub open spec fn bounce_x(vx: int, ball: Ball, paddle: Paddle, config: Config) -> int {
    if overlaps(ball, paddle, config) {
        -vx
    } else {
        vx
    }
}

/// Vertical velocity `vy` after the paddle check.
pub open spec fn bounce_y(vy: int, ball: Ball, paddle: Paddle, config: Config) -> int {
    if overlaps(ball, paddle, config) {
        vy + hit_boost(ball, paddle, config)
    } else {
        vy
    }
}

/// Vertical velocity after the wall check.
pub open spec fn wall_y(ball: Ball, config: Config) -> int {
    if wall_hit(ball, config) {
        -ball.velocity_y
    } else {
        ball.velocity_y as int
    }
}

/// Horizontal velocity after a whole collision step.
pub open spec fn collided_x(ball: Ball, player: Paddle, ai: Paddle, config: Config) -> int {
    bounce_x(bounce_x(ball.velocity_x as int, ball, player, config), ball, ai, config)
}

/// Vertical velocity after a whole collision step.
pub open spec fn collided_y(ball: Ball, player: Paddle, ai: Paddle, config: Config) -> int {
    bounce_y(bounce_y(wall_y(ball, config), ball, player, config), ball, ai, config)
}

/// Every velocity a collision step passes through fits in the integer fields.
pub open spec fn collision_fits(ball: Ball, player: Paddle, ai: Paddle, config: Config) -> bool {
    &&& fits_i64(bounce_x(ball.velocity_x as int, ball, player, config))
    &&& fits_i64(collided_x(ball, player, ai, config))
    &&& fits_i64(wall_y(ball, config))
    &&& fits_i64(bounce_y(wall_y(ball, config), ball, player, config))
    &&& fits_i64(collided_y(ball, player, ai, config))
}

/// Turns the ball around at the walls and at the paddles.
pub struct CollisionSystem;

impl CollisionSystem {
    pub fn new() -> (r: CollisionSystem) {
        CollisionSystem
    }

    /// Checks the walls, then the player's paddle, then the computer's, all
    /// against the ball's present position. The position is not changed.
    pub fn update(&self, ball: &mut Ball, player_paddle: &Paddle, ai_paddle: &Paddle, config: &Config)
        requires
            config.paddle_height > 0,
            collision_fits(*old(ball), *player_paddle, *ai_paddle, *config),
        ensures
            final(ball).x == old(ball).x,
            final(ball).y == old(ball).y,
            final(ball).velocity_x == collided_x(*old(ball), *player_paddle, *ai_paddle, *config),
            final(ball).velocity_y == collided_y(*old(ball), *player_paddle, *ai_paddle, *config),
    {
        if wall_touch(ball, config) {
            ball.velocity_y = -ball.velocity_y;
        }
        self.check_paddle_collision(ball, player_paddle, config);
        self.check_paddle_collision(ball, ai_paddle, config);
    }

    /// On contact with `paddle`, reverses the ball's horizontal velocity and
    /// adds to its vertical velocity according to where it hit.
    pub fn check_paddle_collision(&self, ball: &mut Ball, paddle: &Paddle, config: &Config)
        requires
            config.paddle_height > 0,
            fits_i64(bounce_x(old(ball).velocity_x as int, *old(ball), *paddle, *config)),
            fits_i64(bounce_y(old(ball).velocity_y as int, *old(ball), *paddle, *config)),
        ensures
            final(ball).x == old(ball).x,
            final(ball).y == old(ball).y,
            overlaps(*old(ball), *paddle, *config) ==> final(ball).velocity_x
                == -old(ball).velocity_x,
            overlaps(*old(ball), *paddle, *config) ==> final(ball).velocity_y
                == old(ball).velocity_y + hit_boost(*old(ball), *paddle, *config),
            !overlaps(*old(ball), *paddle, *config) ==> final(ball).velocity_x
                == old(ball).velocity_x && final(ball).velocity_y == old(ball).velocity_y,
    {
        if touches(ball, paddle, config) {
            let boost: i128 = boost_of(ball, paddle, config);
            ball.velocity_x = -ball.velocity_x;
            ball.velocity_y = (ball.velocity_y as i128 + boost) as i64;
        }
    }

    /// Whether a collision step on these values keeps every velocity within
    /// the integer fields, which `update` asks of its caller.
    pub fn velocities_fit(ball: &Ball, player_paddle: &Paddle, ai_paddle: &Paddle, config: &Config) -> (r: bool)
        requires
            config.paddle_height > 0,
        ensures
            r == collision_fits(*ball, *player_paddle, *ai_paddle, *config),
    {
        let min: i128 = i64::MIN as i128;
        let max: i128 = i64::MAX as i128;
        let hits_player: bool = touches(ball, player_paddle, config);
        let hits_ai: bool = touches(ball, ai_paddle, config);
        let vx: i128 = ball.velocity_x as i128;
        let vx1: i128 = if hits_player { -vx } else { vx };
        let vx2: i128 = if hits_ai { -vx1 } else { vx1 };
        let vy: i128 = if wall_touch(ball, config) {
            -(ball.velocity_y as i128)
        } else {
            ball.velocity_y as i128
        };
        let vy1: i128 = if hits_player { vy + boost_of(ball, player_paddle, config) } else { vy };
        let vy2: i128 = if hits_ai { vy1 + boost_of(ball, ai_paddle, config) } else { vy1 };
        min <= vx1 && vx1 <= max && min <= vx2 && vx2 <= max && min <= vy && vy <= max && min
            <= vy1 && vy1 <= max && min <= vy2 && vy2 <= max
    }
}

fn wall_touch(ball: &Ball, config: &Config) -> (r: bool)
    ensures
        r == wall_hit(*ball, *config),
{
    let half: i128 = config.ball_size as i128 * 500_000;
    let bottom: i128 = config.window_height as i128 * 1_000_000;
    ball.y as i128 <= half || ball.y as i128 >= bottom - half
}

fn touches(ball: &Ball, paddle: &Paddle, config: &Config) -> (r: bool)
    ensures
        r == overlaps(*ball, *paddle, *config),
{
    let half: i128 = config.ball_size as i128 * 500_000;
    let ball_left: i128 = ball.x as i128 - half;
    let ball_right: i128 = ball.x as i128 + half;
    let ball_top: i128 = ball.y as i128 - half;
    let ball_bottom: i128 = ball.y as i128 + half;

    let paddle_left: i128 = paddle.x as i128;
    let paddle_right: i128 = paddle.x as i128 + config.paddle_width as i128 * 1_000_000;
    let paddle_top: i128 = paddle.y as i128;
    let paddle_bottom: i128 = paddle.y as i128 + config.paddle_height as i128 * 1_000_000;

    ball_right >= paddle_left && ball_left <= paddle_right && ball_bottom >= paddle_top
        && ball_top <= paddle_bottom
}

fn boost_of(ball: &Ball, paddle: &Paddle, config: &Config) -> (r: i128)
    requires
        config.paddle_height > 0,
    ensures
        r == hit_boost(*ball, *paddle, *config),
        -0x1_0000_0000_0000_0000_0000 <= r <= 0x1_0000_0000_0000_0000_0000,
{
    let half_height: i128 = config.paddle_height as i128 * 500_000;
    let offset: i128 = HIT_BOOST as i128 * (ball.y as i128 - (paddle.y as i128 + half_height));
    if offset >= 0 {
        proof {
            assert(offset / half_height <= offset) by (nonlinear_arith)
                requires
                    offset >= 0,
                    half_height >= 1,
            ;
        }
        offset / half_height
    } else {
        proof {
            assert((-(offset as int)) / (half_height as int) <= -(offset as int)) by (nonlinear_arith)
                requires
                    offset < 0,
                    half_height >= 1,
            ;
        }
        -((-offset) / half_height)
    }
}

/// A ball whose centre is on the top or the bottom edge of the window
/// always counts as touching a wall, so its vertical velocity is reversed.
pub proof fn lemma_edge_rows_hit_wall(ball: Ball, config: Config)
    requires
        ball.y == 0 || ball.y == pixels(config.window_height as int),
    ensures
        wall_hit(ball, config),
{
}

/// The boost from a paddle hit is at most `HIT_BOOST` either way when the
/// ball's centre lies within the paddle's vertical extent.
pub proof fn lemma_hit_boost_bounded(ball: Ball, paddle: Paddle, config: Config)
    requires
        config.paddle_height > 0,
        paddle.y <= ball.y <= paddle.y + pixels(config.paddle_height as int),
    ensures
        -HIT_BOOST <= hit_boost(ball, paddle, config) <= HIT_BOOST,
{
    let h = half_paddle(config);
    let d = ball.y - (paddle.y + h);
    assert(h * 2 == pixels(config.paddle_height as int));
    assert(-h <= d <= h);
    assert(h >= 1);
    if d >= 0 {
        assert(100 * d <= 100 * h) by (nonlinear_arith)
            requires
                d <= h,
        ;
        assert((100 * d) / h <= 100) by (nonlinear_arith)
            requires
                100 * d <= 100 * h,
                h >= 1,
                d >= 0,
        ;
        assert((100 * d) / h >= 0) by (nonlinear_arith)
            requires
                h >= 1,
                d >= 0,
        ;
    } else {
        assert((100 * (-d)) / h <= 100) by (nonlinear_arith)
            requires
                -d <= h,
                h >= 1,
                d < 0,
        ;
        assert((100 * (-d)) / h >= 0) by (nonlinear_arith)
            requires
                h >= 1,
                d < 0,
        ;
        assert(-(100 * d) == 100 * (-d));
    }
}

} // verus!
