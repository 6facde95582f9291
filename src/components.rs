use vstd::prelude::*;

verus! {

/// The ball. Positions are in micropixels (millionths of a screen pixel),
/// velocities in pixels per second; a velocity times an elapsed time in
/// microseconds is therefore a displacement in micropixels.
#[derive(Debug, Clone, Copy, PartialEq, Eq, Structural)]
pub struct Ball {
    pub x: i64,
    pub y: i64,
    pub velocity_x: i64,
    pub velocity_y: i64,
}

/// Horizontal speed of a fresh ball and of every serve, in pixels per second.
pub const SERVE_SPEED_X: i64 = 200;

/// Vertical speed of a fresh ball and of every serve, in pixels per second.
pub const SERVE_SPEED_Y: i64 = 100;

/// The horizontal velocity of a serve: against the direction the ball had.
pub open spec fn serve_velocity_x(previous: int) -> int {
    if previous > 0 {
        -SERVE_SPEED_X
    } else {
        SERVE_SPEED_X as int
    }
}

impl Ball {
    pub fn new(x: i64, y: i64) -> (r: Ball)
        ensures
            r.x == x,
            r.y == y,
            r.velocity_x == SERVE_SPEED_X,
            r.velocity_y == SERVE_SPEED_Y,
    {
        Ball { x, y, velocity_x: SERVE_SPEED_X, velocity_y: SERVE_SPEED_Y }
    }

    /// Puts the ball at `(x, y)` and serves it back against its last direction.
    pub fn reset(&mut self, x: i64, y: i64)
        ensures
            final(self).x == x,
            final(self).y == y,
            final(self).velocity_x == serve_velocity_x(old(self).velocity_x as int),
            final(self).velocity_y == SERVE_SPEED_Y,
    {
        self.x = x;
        self.y = y;
        self.velocity_x = if self.velocity_x > 0 {
            -SERVE_SPEED_X
        } else {
            SERVE_SPEED_X
        };
        self.velocity_y = SERVE_SPEED_Y;
    }
}

/// A paddle: `x` is fixed, `y` is its top edge, both in micropixels;
/// `velocity_y` is in pixels per second.
#[derive(Debug, Clone, Copy, PartialEq, Eq, Structural)]
pub struct Paddle {
    pub x: i64,
    pub y: i64,
    pub velocity_y: i64,
    pub is_player: bool,
}

impl Paddle {
    pub fn new(x: i64, y: i64, is_player: bool) -> (r: Paddle)
        ensures
            r.x == x,
            r.y == y,
            r.velocity_y == 0,
            r.is_player == is_player,
    {
        Paddle { x, y, velocity_y: 0, is_player }
    }
}

/// The two counters of a match: points won by the player and by the computer.
#[derive(Debug, Clone, Copy, PartialEq, Eq, Structural)]
pub struct Score {
    pub player_score: u32,
    pub ai_score: u32,
}

impl Score {
    pub fn new() -> (r: Score)
        ensures
            r.player_score == 0,
            r.ai_score == 0,
    {
        Score { player_score: 0, ai_score: 0 }
    }

    pub fn player_scores(&mut self)
        requires
            old(self).player_score < u32::MAX,
        ensures
            final(self).player_score == old(self).player_score + 1,
            final(self).ai_score == old(self).ai_score,
    {
        self.player_score = self.player_score + 1;
    }

    pub fn ai_scores(&mut self)
        requires
            old(self).ai_score < u32::MAX,
        ensures
            final(self).ai_score == old(self).ai_score + 1,
            final(self).player_score == old(self).player_score,
    {
        self.ai_score = self.ai_score + 1;
    }

    pub fn reset(&mut self)
        ensures
            final(self).player_score == 0,
            final(self).ai_score == 0,
    {
        self.player_score = 0;
        self.ai_score = 0;
    }
}

} // verus!
