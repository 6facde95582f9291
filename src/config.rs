use vstd::prelude::*;

verus! {

/// Micropixels in one pixel: the unit of every position in the game.
pub const SUBPIXELS: i64 = 1_000_000;

/// A length of `n` whole pixels, in micropixels.
pub open spec fn pixels(n: int) -> int {
    n * SUBPIXELS
}

/// The tunables of one run. Lengths are whole pixels, speeds pixels per
/// second, colours RGBA with one byte per channel.
#[derive(Debug, Clone)]
pub struct Config {
    pub window_width: u32,
    pub window_height: u32,
    pub window_title: String,
    pub paddle_speed: u32,
    pub ball_speed: u32,
    pub ball_radius: u32,
    pub paddle_width: u32,
    pub paddle_height: u32,
    pub ball_color: [u8; 4],
    pub paddle_color: [u8; 4],
    pub ball_size: u32,
    pub fps_target: u64,
    pub background_color: [u8; 4],
    pub font_path: String,
    pub font_size: u32,
    pub score_color: [u8; 4],
    pub score_position: [u32; 2],
    pub score_font_size: u32,
    pub score_spacing: u32,
    pub score_font_path: String,
    pub score_font_color: [u8; 4],
    pub score_font_outline_color: [u8; 4],
    pub score_font_outline_thickness: u32,
    pub score_font_outline_offset: [i32; 2],
}

impl Config {
    /// A paddle fits in the window and has some height.
    pub open spec fn wf(&self) -> bool {
        0 < self.paddle_height <= self.window_height
    }

    /// The lowest top edge a paddle may have, in micropixels.
    pub open spec fn max_paddle_y(&self) -> int {
        pixels(self.window_height - self.paddle_height)
    }

    /// Half the ball's side, in micropixels.
    pub open spec fn half_ball(&self) -> int {
        pixels(self.ball_size as int) / 2
    }
}

impl Default for Config {
    fn default() -> (r: Config)
        ensures
            r.window_width == 800,
            r.window_height == 600,
            r.window_title@ == "Ping Pong"@,
            r.paddle_speed == 300,
            r.ball_speed == 200,
            r.ball_radius == 10,
            r.paddle_width == 20,
            r.paddle_height == 100,
            r.ball_size == 10,
            r.fps_target == 60,
            r.wf(),
    {
        let white: [u8; 4] = [255, 255, 255, 255];
        let black: [u8; 4] = [0, 0, 0, 255];
        Config {
            window_width: 800,
            window_height: 600,
            window_title: "Ping Pong".to_owned(),
            paddle_speed: 300,
            ball_speed: 200,
            ball_radius: 10,
            paddle_width: 20,
            paddle_height: 100,
            ball_color: white,
            paddle_color: white,
            background_color: black,
            font_path: "assets/fonts/Roboto-Regular.ttf".to_owned(),
            font_size: 48,
            score_color: white,
            score_position: [400, 50],
            score_font_size: 48,
            score_spacing: 10,
            score_font_path: "assets/fonts/Roboto-Regular.ttf".to_owned(),
            score_font_color: white,
            score_font_outline_color: black,
            score_font_outline_thickness: 2,
            score_font_outline_offset: [1, 1],
            ball_size: 10,
            fps_target: 60,
        }
    }
}

} // verus!
