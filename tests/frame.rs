use pong::canvas::Canvas;
use pong::components::{Ball, Paddle, Score};
use pong::config::Config;
use pong::render::{
    draw_center_line, draw_digital_number, draw_simple_char, draw_text_label, render_ball,
    render_paddle, render_score,
};
use pong::time::{frame_due, micros_from_nanos, Timer};

#[test]
fn new_canvas_is_black() {
    let canvas = Canvas::new(4, 3);
    assert_eq!(canvas.pixels().len(), 12);
    assert!(canvas.pixels().iter().all(|&p| p == 0));
}

#[test]
fn rect_is_clipped_to_the_canvas() {
    let mut canvas = Canvas::new(5, 4);
    canvas.draw_rect(3, 2, 10, 10, 7);
    for py in 0..4 {
        for px in 0..5 {
            let expected = if px >= 3 && py >= 2 { 7 } else { 0 };
            assert_eq!(canvas.pixel(px, py), expected);
        }
    }
    canvas.clear(9);
    assert!(canvas.pixels().iter().all(|&p| p == 9));
}

#[test]
fn center_line_is_dashed() {
    let mut canvas = Canvas::new(10, 40);
    draw_center_line(&mut canvas);
    for py in 0..40 {
        let on = py % 35 < 20;
        for px in 0..10 {
            let expected = if on && (3..7).contains(&px) { 0x444444 } else { 0 };
            assert_eq!(canvas.pixel(px, py), expected);
        }
    }
}

#[test]
fn seven_segment_one() {
    let mut canvas = Canvas::new(20, 20);
    draw_digital_number(&mut canvas, 11, 0, 0, 10, 10, 2);
    assert_eq!(canvas.pixel(9, 0), 0x00FFFF);
    assert_eq!(canvas.pixel(8, 9), 0x00FFFF);
    assert_eq!(canvas.pixel(0, 0), 0);
    assert_eq!(canvas.pixel(4, 5), 0);
}

#[test]
fn glyph_and_label() {
    let mut canvas = Canvas::new(30, 10);
    draw_simple_char(&mut canvas, 'L', 0, 0, 8, 5);
    assert_eq!(canvas.pixel(0, 0), 5);
    assert_eq!(canvas.pixel(1, 0), 0);
    assert_eq!(canvas.pixel(4, 7), 5);
    assert_eq!(canvas.pixel(5, 7), 0);
    let mut other = Canvas::new(30, 10);
    draw_text_label(&mut other, &vec!['A', 'I'], 0, 0, 3);
    assert_eq!(other.pixel(1, 0), 3);
    assert_eq!(other.pixel(0, 0), 0);
    assert_eq!(other.pixel(10, 0), 3);
    assert_eq!(other.pixel(12, 1), 3);
}

#[test]
fn paddle_and_ball_are_white_boxes() {
    let config = Config::default();
    let mut canvas = Canvas::new(800, 600);
    render_paddle(&mut canvas, &Paddle::new(50_000_000, 250_000_000, true), &config);
    assert_eq!(canvas.pixel(50, 250), 0xFFFFFF);
    assert_eq!(canvas.pixel(69, 349), 0xFFFFFF);
    assert_eq!(canvas.pixel(70, 250), 0);
    render_ball(&mut canvas, &Ball::new(400_000_000, 300_000_000), &config);
    assert_eq!(canvas.pixel(395, 295), 0xFFFFFF);
    assert_eq!(canvas.pixel(404, 304), 0xFFFFFF);
    assert_eq!(canvas.pixel(405, 300), 0);
}

#[test]
fn score_display_shows_winner() {
    let mut canvas = Canvas::new(800, 600);
    let score = Score { player_score: 10, ai_score: 3 };
    render_score(&mut canvas, &score);
    // top segment of the player's zero
    assert_eq!(canvas.pixel(180, 80), 0x00FFFF);
    // first column of the "P" label
    assert_eq!(canvas.pixel(180, 40), 0xCCCCCC);
    // first column of the "W" of the banner
    assert_eq!(canvas.pixel(170, 160), 0x00FF00);
    // centre line
    assert_eq!(canvas.pixel(400, 5), 0x444444);
    let mut calm = Canvas::new(800, 600);
    render_score(&mut calm, &Score { player_score: 3, ai_score: 3 });
    assert_eq!(calm.pixel(170, 160), 0);
}

#[test]
fn frame_timing() {
    assert!(frame_due(16_666_667, 16_666_666));
    assert!(!frame_due(16_666_665, 16_666_666));
    assert_eq!(micros_from_nanos(16_666_999), 16_666);
    assert_eq!(micros_from_nanos(u128::MAX), u32::MAX);
    let mut timer = Timer::new(60);
    assert_eq!(timer.frame_nanos(), 16_666_666);
    assert!(timer.delta_time() < 60_000_000);
    let _ = timer.should_update();
}
