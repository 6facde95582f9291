use vstd::prelude::*;

use vstd::arithmetic::div_mod::lemma_fundamental_div_mod_converse;

use crate::canvas::{in_rect, lemma_index_position, painted, Canvas};
use crate::components::{Ball, Paddle, Score};
use crate::config::{Config, SUBPIXELS};

verus! {

pub const WHITE: u32 = 0xFFFFFF;

pub const CENTER_LINE_COLOR: u32 = 0x444444;

/// Length of a dash of the centre line, in pixels.
pub const DASH_LENGTH: usize = 20;

/// Gap between two dashes of the centre line, in pixels.
pub const DASH_GAP: usize = 15;

/// Width of the centre line, in pixels.
pub const LINE_WIDTH: usize = 4;

/// The screen pixel of a coordinate in micropixels; left of or above the
/// window counts as the first pixel.
pub open spec fn to_screen(v: int) -> int {
    if v < 0 {
        0
    } else if v / SUBPIXELS as int > usize::MAX {
        usize::MAX as int
    } else {
        v / SUBPIXELS as int
    }
}

fn screen_pixel(v: i128) -> (r: usize)
    requires
        v <= i64::MAX,
    ensures
        r == to_screen(v as int),
{
    if v < 0 {
        0
    } else {
        let q: i128 = v / SUBPIXELS as i128;
        if q > usize::MAX as i128 {
            usize::MAX
        } else {
            q as usize
        }
    }
}

/// Draws a paddle as a white rectangle of the configured size.
pub fn render_paddle(canvas: &mut Canvas, paddle: &Paddle, config: &Config)
    requires
        old(canvas).wf(),
    ensures
        final(canvas).wf(),
        final(canvas).spec_width() == old(canvas).spec_width(),
        final(canvas).spec_height() == old(canvas).spec_height(),
        painted(
            old(canvas)@,
            final(canvas)@,
            old(canvas).spec_width() as int,
            to_screen(paddle.x as int),
            to_screen(paddle.y as int),
            config.paddle_width as int,
            config.paddle_height as int,
            WHITE,
        ),
{
    canvas.draw_rect(
        screen_pixel(paddle.x as i128),
        screen_pixel(paddle.y as i128),
        config.paddle_width as usize,
        config.paddle_height as usize,
        WHITE,
    );
}

/// Draws the ball as a white square of the configured size around its centre.
pub fn render_ball(canvas: &mut Canvas, ball: &Ball, config: &Config)
    requires
        old(canvas).wf(),
    ensures
        final(canvas).wf(),
        final(canvas).spec_width() == old(canvas).spec_width(),
        final(canvas).spec_height() == old(canvas).spec_height(),
        painted(
            old(canvas)@,
            final(canvas)@,
            old(canvas).spec_width() as int,
            to_screen(ball.x - config.half_ball()),
            to_screen(ball.y - config.half_ball()),
            config.ball_size as int,
            config.ball_size as int,
            WHITE,
        ),
{
    let half: i128 = config.ball_size as i128 * 500_000;
    canvas.draw_rect(
        screen_pixel(ball.x as i128 - half),
        screen_pixel(ball.y as i128 - half),
        config.ball_size as usize,
        config.ball_size as usize,
        WHITE,
    );
}

/// The pixel `(px, py)` belongs to the dashed line down the middle of a
/// canvas `width` pixels wide.
pub open spec fn on_center_line(px: int, py: int, width: int) -> bool {
    width / 2 - LINE_WIDTH / 2 <= px < width / 2 + LINE_WIDTH / 2 && py % ((DASH_LENGTH
        + DASH_GAP) as int) < DASH_LENGTH
}

/// Draws the dashed line that separates the two halves of the field.
pub fn draw_center_line(canvas: &mut Canvas)
    requires
        old(canvas).wf(),
        old(canvas).spec_width() >= LINE_WIDTH,
    ensures
        final(canvas).wf(),
        final(canvas).spec_width() == old(canvas).spec_width(),
        final(canvas).spec_height() == old(canvas).spec_height(),
        final(canvas)@.len() == old(canvas)@.len(),
        forall|i: int|
            0 <= i < final(canvas)@.len() ==> #[trigger] final(canvas)@[i] == (if on_center_line(
                i % (final(canvas).spec_width() as int),
                i / (final(canvas).spec_width() as int),
                final(canvas).spec_width() as int,
            ) {
                CENTER_LINE_COLOR
            } else {
                old(canvas)@[i]
            }),
{
    let width: usize = canvas.width();
    let height: usize = canvas.height();
    let left: usize = width / 2 - LINE_WIDTH / 2;
    let total: usize = canvas.pixels().len();
    let ghost w = width as int;
    let ghost start = canvas@;
    let mut y: usize = 0;
    let ghost mut k: int = 0;
    proof {
        assert(height as int <= usize::MAX / 4) by (nonlinear_arith)
            requires
                w >= 4,
                w * height <= usize::MAX,
        ;
    }
    while y < height
        invariant
            canvas.wf(),
            canvas.spec_width() == width,
            canvas.spec_height() == height,
            width >= 4,
            height <= usize::MAX / 4,
            w == width,
            left == width / 2 - LINE_WIDTH / 2,
            y == 35 * k,
            k >= 0,
            y <= height + 35,
            canvas@.len() == start.len(),
            forall|i: int|
                0 <= i < canvas@.len() ==> #[trigger] canvas@[i] == (if on_center_line(
                    i % w,
                    i / w,
                    w,
                ) && i / w < y {
                    CENTER_LINE_COLOR
                } else {
                    start[i]
                }),
        decreases height + 35 - y,
    {
        let ghost before = canvas@;
        canvas.draw_rect(left, y, LINE_WIDTH, DASH_LENGTH, CENTER_LINE_COLOR);
        proof {
            assert forall|i: int| 0 <= i < canvas@.len() implies #[trigger] canvas@[i] == (
            if on_center_line(i % w, i / w, w) && i / w < y + 35 {
                CENTER_LINE_COLOR
            } else {
                start[i]
            }) by {
                lemma_index_position(i, w, height as int);
                let r = i / w;
                assert(canvas@[i] == (if in_rect(i % w, r, left as int, y as int, 4, 20) {
                    CENTER_LINE_COLOR
                } else {
                    before[i]
                }));
                if y <= r < y + 35 {
                    lemma_fundamental_div_mod_converse(r, 35, k, r - y);
                }
            }
        }
        y = y + 35;
        proof {
            k = k + 1;
        }
    }
    proof {
        assert forall|i: int| 0 <= i < canvas@.len() implies #[trigger] canvas@[i] == (
        if on_center_line(i % w, i / w, w) {
            CENTER_LINE_COLOR
        } else {
            start[i]
        }) by {
            lemma_index_position(i, w, height as int);
        }
    }
}

pub const SEGMENT_COLOR: u32 = 0x00FFFF;

/// The lit segments of a seven-segment digit, one bit each, from the most
/// significant: top, top right, bottom right, bottom, bottom left, top left,
/// middle.
pub open spec fn segment_pattern(digit: int) -> u8 {
    if digit == 0 {
        0b1111110
    } else if digit == 1 {
        0b0110000
    } else if digit == 2 {
        0b1101101
    } else if digit == 3 {
        0b1111001
    } else if digit == 4 {
        0b0110011
    } else if digit == 5 {
        0b1011011
    } else if digit == 6 {
        0b1011111
    } else if digit == 7 {
        0b1110000
    } else if digit == 8 {
        0b1111111
    } else if digit == 9 {
        0b1111011
    } else {
        0
    }
}

fn pattern_of(digit: u32) -> (r: u8)
    ensures
        r == segment_pattern(digit as int),
{
    if digit == 0 {
        0b1111110
    } else if digit == 1 {
        0b0110000
    } else if digit == 2 {
        0b1101101
    } else if digit == 3 {
        0b1111001
    } else if digit == 4 {
        0b0110011
    } else if digit == 5 {
        0b1011011
    } else if digit == 6 {
        0b1011111
    } else if digit == 7 {
        0b1110000
    } else if digit == 8 {
        0b1111111
    } else if digit == 9 {
        0b1111011
    } else {
        0
    }
}

/// The segment selected by `mask` is lit in the pattern.
pub open spec fn lit(pattern: u8, mask: u8) -> bool {
    pattern & mask != 0
}

/// The pixel `(px, py)` is on a lit segment of the last decimal digit of a
/// number drawn `width` by `height` at `(x, y)` with strokes `thickness` thick.
pub open spec fn digit_covers(
    number: int,
    x: int,
    y: int,
    width: int,
    height: int,
    thickness: int,
    px: int,
    py: int,
) -> bool {
    let p = segment_pattern(number % 10);
    let half = height / 2;
    ||| lit(p, 0b1000000) && in_rect(px, py, x, y, width, thickness)
    ||| lit(p, 0b0100000) && in_rect(px, py, x + width - thickness, y, thickness, half)
    ||| lit(p, 0b0010000) && in_rect(px, py, x + width - thickness, y + half, thickness, half)
    ||| lit(p, 0b0001000) && in_rect(px, py, x, y + height - thickness, width, thickness)
    ||| lit(p, 0b0000100) && in_rect(px, py, x, y + half, thickness, half)
    ||| lit(p, 0b0000010) && in_rect(px, py, x, y, thickness, half)
    ||| lit(p, 0b0000001) && in_rect(px, py, x, y + half - thickness / 2, width, thickness)
}

/// Paints the rectangle when `on`, else leaves the canvas as it is.
fn draw_segment(
    canvas: &mut Canvas,
    on: bool,
    x: usize,
    y: usize,
    width: usize,
    height: usize,
)
    requires
        old(canvas).wf(),
    ensures
        final(canvas).wf(),
        final(canvas).spec_width() == old(canvas).spec_width(),
        final(canvas).spec_height() == old(canvas).spec_height(),
        final(canvas)@.len() == old(canvas)@.len(),
        forall|i: int|
            0 <= i < final(canvas)@.len() ==> #[trigger] final(canvas)@[i] == (if on && in_rect(
                i % (final(canvas).spec_width() as int),
                i / (final(canvas).spec_width() as int),
                x as int,
                y as int,
                width as int,
                height as int,
            ) {
                SEGMENT_COLOR
            } else {
                old(canvas)@[i]
            }),
{
    if on {
        canvas.draw_rect(x, y, width, height, SEGMENT_COLOR);
    }
}

/// Draws the last decimal digit of `number` as a seven-segment figure
/// `width` by `height` at `(x, y)`.
pub fn draw_digital_number(
    canvas: &mut Canvas,
    number: u32,
    x: usize,
    y: usize,
    width: usize,
    height: usize,
    thickness: usize,
)
    requires
        old(canvas).wf(),
        thickness <= width,
        thickness <= height,
        x + width <= usize::MAX,
        y + height <= usize::MAX,
    ensures
        final(canvas).wf(),
        final(canvas).spec_width() == old(canvas).spec_width(),
        final(canvas).spec_height() == old(canvas).spec_height(),
        final(canvas)@.len() == old(canvas)@.len(),
        forall|i: int|
            0 <= i < final(canvas)@.len() ==> #[trigger] final(canvas)@[i] == (if digit_covers(
                number as int,
                x as int,
                y as int,
                width as int,
                height as int,
                thickness as int,
                i % (final(canvas).spec_width() as int),
                i / (final(canvas).spec_width() as int),
            ) {
                SEGMENT_COLOR
            } else {
                old(canvas)@[i]
            }),
{
    let pattern: u8 = pattern_of(number % 10);
    let half: usize = height / 2;
    let right: usize = x + width - thickness;
    let ghost s0 = canvas@;
    draw_segment(canvas, pattern & 0b1000000 != 0, x, y, width, thickness);
    let ghost s1 = canvas@;
    draw_segment(canvas, pattern & 0b0100000 != 0, right, y, thickness, half);
    let ghost s2 = canvas@;
    draw_segment(canvas, pattern & 0b0010000 != 0, right, y + half, thickness, half);
    let ghost s3 = canvas@;
    draw_segment(canvas, pattern & 0b0001000 != 0, x, y + height - thickness, width, thickness);
    let ghost s4 = canvas@;
    draw_segment(canvas, pattern & 0b0000100 != 0, x, y + half, thickness, half);
    let ghost s5 = canvas@;
    draw_segment(canvas, pattern & 0b0000010 != 0, x, y, thickness, half);
    let ghost s6 = canvas@;
    draw_segment(canvas, pattern & 0b0000001 != 0, x, y + half - thickness / 2, width, thickness);
    proof {
        assert forall|i: int| 0 <= i < canvas@.len() implies #[trigger] canvas@[i] == (
        if digit_covers(
            number as int,
            x as int,
            y as int,
            width as int,
            height as int,
            thickness as int,
            i % (canvas.spec_width() as int),
            i / (canvas.spec_width() as int),
        ) {
            SEGMENT_COLOR
        } else {
            s0[i]
        }) by {
            assert(s1[i] == s1[i] && s2[i] == s2[i] && s3[i] == s3[i] && s4[i] == s4[i] && s5[i]
                == s5[i] && s6[i] == s6[i]);
        }
    }
}

/// Columns of a glyph.
pub const GLYPH_WIDTH: usize = 8;

/// Rows of a glyph.
pub const GLYPH_ROWS: usize = 8;

/// Distance from one character of a label to the next, in pixels.
pub const CHAR_ADVANCE: usize = 10;

/// Row `row` of the bitmap of `ch`, most significant bit leftmost. Characters
/// without a bitmap are blank.
pub open spec fn glyph_row(ch: char, row: int) -> u8 {
    let rows: Seq<u8> = if ch == 'P' {
        seq![0b11111000, 0b10001000, 0b10001000, 0b11111000, 0b10000000, 0b10000000, 0b10000000, 0b10000000]
    } else if ch == 'L' {
        seq![0b10000000, 0b10000000, 0b10000000, 0b10000000, 0b10000000, 0b10000000, 0b10000000, 0b11111000]
    } else if ch == 'A' {
        seq![0b01110000, 0b10001000, 0b10001000, 0b10001000, 0b11111000, 0b10001000, 0b10001000, 0b10001000]
    } else if ch == 'Y' {
        seq![0b10001000, 0b10001000, 0b10001000, 0b01010000, 0b00100000, 0b00100000, 0b00100000, 0b00100000]
    } else if ch == 'E' {
        seq![0b11111000, 0b10000000, 0b10000000, 0b11110000, 0b10000000, 0b10000000, 0b10000000, 0b11111000]
    } else if ch == 'R' {
        seq![0b11111000, 0b10001000, 0b10001000, 0b11111000, 0b11000000, 0b10100000, 0b10010000, 0b10001000]
    } else if ch == 'I' {
        seq![0b11111000, 0b00100000, 0b00100000, 0b00100000, 0b00100000, 0b00100000, 0b00100000, 0b11111000]
    } else if ch == 'W' {
        seq![0b10001000, 0b10001000, 0b10001000, 0b10001000, 0b10101000, 0b10101000, 0b11011000, 0b10001000]
    } else if ch == 'N' {
        seq![0b10001000, 0b11001000, 0b10101000, 0b10101000, 0b10101000, 0b10011000, 0b10001000, 0b10001000]
    } else if ch == '!' {
        seq![0b00100000, 0b00100000, 0b00100000, 0b00100000, 0b00100000, 0b00000000, 0b00100000, 0b00100000]
    } else {
        seq![0u8, 0, 0, 0, 0, 0, 0, 0]
    };
    rows[row]
}

fn glyph_rows(ch: char) -> (r: Vec<u8>)
    ensures
        r@.len() == GLYPH_ROWS,
        forall|row: int| 0 <= row < GLYPH_ROWS ==> #[trigger] r@[row] == glyph_row(ch, row),
{
    let r: Vec<u8> = if ch == 'P' {
        vec![0b11111000, 0b10001000, 0b10001000, 0b11111000, 0b10000000, 0b10000000, 0b10000000, 0b10000000]
    } else if ch == 'L' {
        vec![0b10000000, 0b10000000, 0b10000000, 0b10000000, 0b10000000, 0b10000000, 0b10000000, 0b11111000]
    } else if ch == 'A' {
        vec![0b01110000, 0b10001000, 0b10001000, 0b10001000, 0b11111000, 0b10001000, 0b10001000, 0b10001000]
    } else if ch == 'Y' {
        vec![0b10001000, 0b10001000, 0b10001000, 0b01010000, 0b00100000, 0b00100000, 0b00100000, 0b00100000]
    } else if ch == 'E' {
        vec![0b11111000, 0b10000000, 0b10000000, 0b11110000, 0b10000000, 0b10000000, 0b10000000, 0b11111000]
    } else if ch == 'R' {
        vec![0b11111000, 0b10001000, 0b10001000, 0b11111000, 0b11000000, 0b10100000, 0b10010000, 0b10001000]
    } else if ch == 'I' {
        vec![0b11111000, 0b00100000, 0b00100000, 0b00100000, 0b00100000, 0b00100000, 0b00100000, 0b11111000]
    } else if ch == 'W' {
        vec![0b10001000, 0b10001000, 0b10001000, 0b10001000, 0b10101000, 0b10101000, 0b11011000, 0b10001000]
    } else if ch == 'N' {
        vec![0b10001000, 0b11001000, 0b10101000, 0b10101000, 0b10101000, 0b10011000, 0b10001000, 0b10001000]
    } else if ch == '!' {
        vec![0b00100000, 0b00100000, 0b00100000, 0b00100000, 0b00100000, 0b00000000, 0b00100000, 0b00100000]
    } else {
        vec![0u8, 0, 0, 0, 0, 0, 0, 0]
    };
    r
}

/// The bit for column `col` of row `row` of `ch` is set.
pub open spec fn glyph_bit(ch: char, row: int, col: int) -> bool {
    (glyph_row(ch, row) >> ((7 - col) as u8)) & 1u8 == 1u8
}

/// The pixel `(px, py)` is set in the glyph of `ch` drawn at `(x, y)`, of
/// which the first `width` columns (at most eight) are drawn.
pub open spec fn glyph_covers(ch: char, x: int, y: int, width: int, px: int, py: int) -> bool {
    &&& x <= px < x + width
    &&& px - x < GLYPH_WIDTH
    &&& y <= py < y + GLYPH_ROWS
    &&& glyph_bit(ch, py - y, px - x)
}

/// Draws the bitmap of `ch` at `(x, y)` in `color`, keeping the first
/// `width` columns.
pub fn draw_simple_char(canvas: &mut Canvas, ch: char, x: usize, y: usize, width: usize, color: u32)
    requires
        old(canvas).wf(),
        x + GLYPH_WIDTH <= usize::MAX,
        y + GLYPH_ROWS <= usize::MAX,
    ensures
        final(canvas).wf(),
        final(canvas).spec_width() == old(canvas).spec_width(),
        final(canvas).spec_height() == old(canvas).spec_height(),
        final(canvas)@.len() == old(canvas)@.len(),
        forall|i: int|
            0 <= i < final(canvas)@.len() ==> #[trigger] final(canvas)@[i] == (if glyph_covers(
                ch,
                x as int,
                y as int,
                width as int,
                i % (final(canvas).spec_width() as int),
                i / (final(canvas).spec_width() as int),
            ) {
                color
            } else {
                old(canvas)@[i]
            }),
{
    let rows = glyph_rows(ch);
    let cols: usize = if width < GLYPH_WIDTH { width } else { GLYPH_WIDTH };
    let ghost cw = canvas.spec_width() as int;
    let ghost start = canvas@;
    let mut row: usize = 0;
    while row < GLYPH_ROWS
        invariant
            canvas.wf(),
            canvas.spec_width() == cw,
            canvas.spec_height() == old(canvas).spec_height(),
            canvas@.len() == start.len(),
            start == old(canvas)@,
            row <= GLYPH_ROWS,
            cols <= GLYPH_WIDTH,
            cols <= width,
            cols == GLYPH_WIDTH || cols == width,
            rows@.len() == GLYPH_ROWS,
            forall|r: int| 0 <= r < GLYPH_ROWS ==> #[trigger] rows@[r] == glyph_row(ch, r),
            x + GLYPH_WIDTH <= usize::MAX,
            y + GLYPH_ROWS <= usize::MAX,
            forall|i: int|
                0 <= i < canvas@.len() ==> #[trigger] canvas@[i] == (if glyph_covers(
                    ch,
                    x as int,
                    y as int,
                    width as int,
                    i % cw,
                    i / cw,
                ) && i / cw < y + row {
                    color
                } else {
                    start[i]
                }),
        decreases GLYPH_ROWS - row,
    {
        let bits: u8 = rows[row];
        let mut col: usize = 0;
        while col < cols
            invariant
                canvas.wf(),
                canvas.spec_width() == cw,
                canvas.spec_height() == old(canvas).spec_height(),
                canvas@.len() == start.len(),
                row < GLYPH_ROWS,
                col <= cols,
                cols <= GLYPH_WIDTH,
                cols <= width,
                cols == GLYPH_WIDTH || cols == width,
                bits == glyph_row(ch, row as int),
                x + GLYPH_WIDTH <= usize::MAX,
                y + GLYPH_ROWS <= usize::MAX,
                forall|i: int|
                    0 <= i < canvas@.len() ==> #[trigger] canvas@[i] == (if glyph_covers(
                        ch,
                        x as int,
                        y as int,
                        width as int,
                        i % cw,
                        i / cw,
                    ) && (i / cw < y + row || (i / cw == y + row && i % cw < x + col)) {
                        color
                    } else {
                        start[i]
                    }),
            decreases cols - col,
        {
            let ghost before = canvas@;
            if (bits >> (7 - col as u8)) & 1 == 1 {
                canvas.draw_rect(x + col, y + row, 1, 1, color);
            }
            proof {
                assert forall|i: int| 0 <= i < canvas@.len() implies #[trigger] canvas@[i] == (
                if glyph_covers(ch, x as int, y as int, width as int, i % cw, i / cw) && (i / cw
                    < y + row || (i / cw == y + row && i % cw < x + col + 1)) {
                    color
                } else {
                    start[i]
                }) by {
                    assert(before[i] == before[i]);
                }
            }
            col = col + 1;
        }
        row = row + 1;
    }
}

/// The pixel `(px, py)` is set in some character of `text` drawn from `(x, y)`.
pub open spec fn label_covers(text: Seq<char>, x: int, y: int, px: int, py: int) -> bool
    decreases text.len(),
{
    if text.len() == 0 {
        false
    } else {
        label_covers(text.drop_last(), x, y, px, py) || glyph_covers(
            text.last(),
            x + CHAR_ADVANCE * (text.len() - 1),
            y,
            GLYPH_WIDTH as int,
            px,
            py,
        )
    }
}

/// Writes `text` from `(x, y)` in `color`, one glyph every `CHAR_ADVANCE` pixels.
pub fn draw_text_label(canvas: &mut Canvas, text: &Vec<char>, x: usize, y: usize, color: u32)
    requires
        old(canvas).wf(),
        x + CHAR_ADVANCE * text@.len() + GLYPH_WIDTH <= usize::MAX,
        y + GLYPH_ROWS <= usize::MAX,
    ensures
        final(canvas).wf(),
        final(canvas).spec_width() == old(canvas).spec_width(),
        final(canvas).spec_height() == old(canvas).spec_height(),
        final(canvas)@.len() == old(canvas)@.len(),
        forall|i: int|
            0 <= i < final(canvas)@.len() ==> #[trigger] final(canvas)@[i] == (if label_covers(
                text@,
                x as int,
                y as int,
                i % (final(canvas).spec_width() as int),
                i / (final(canvas).spec_width() as int),
            ) {
                color
            } else {
                old(canvas)@[i]
            }),
{
    let ghost cw = canvas.spec_width() as int;
    let ghost start = canvas@;
    let mut k: usize = 0;
    while k < text.len()
        invariant
            canvas.wf(),
            canvas.spec_width() == cw,
            canvas.spec_height() == old(canvas).spec_height(),
            canvas@.len() == start.len(),
            start == old(canvas)@,
            k <= text@.len(),
            x + CHAR_ADVANCE * text@.len() + GLYPH_WIDTH <= usize::MAX,
            y + GLYPH_ROWS <= usize::MAX,
            forall|i: int|
                0 <= i < canvas@.len() ==> #[trigger] canvas@[i] == (if label_covers(
                    text@.take(k as int),
                    x as int,
                    y as int,
                    i % cw,
                    i / cw,
                ) {
                    color
                } else {
                    start[i]
                }),
        decreases text@.len() - k,
    {
        let ghost before = canvas@;
        proof {
            assert(CHAR_ADVANCE * k <= CHAR_ADVANCE * text@.len()) by (nonlinear_arith)
                requires
                    k <= text@.len(),
            ;
        }
        draw_simple_char(canvas, text[k], x + CHAR_ADVANCE * k, y, GLYPH_WIDTH, color);
        proof {
            assert(text@.take(k + 1).drop_last() == text@.take(k as int));
            assert(text@.take(k + 1).last() == text@[k as int]);
            assert forall|i: int| 0 <= i < canvas@.len() implies #[trigger] canvas@[i] == (
            if label_covers(text@.take(k + 1), x as int, y as int, i % cw, i / cw) {
                color
            } else {
                start[i]
            }) by {
                assert(before[i] == before[i]);
            }
        }
        k = k + 1;
    }
    proof {
        assert(text@.take(text@.len() as int) == text@);
    }
}

pub const LABEL_COLOR: u32 = 0xCCCCCC;

pub const WINNER_COLOR: u32 = 0x00FF00;

/// Top edge of the score digits, in pixels.
pub const SCORE_Y: usize = 80;

pub const DIGIT_WIDTH: usize = 40;

pub const DIGIT_HEIGHT: usize = 60;

pub const SEGMENT_THICKNESS: usize = 6;

/// Top edge of the "PLAYER" and "AI" labels, in pixels.
pub const LABEL_Y: usize = 40;

/// Top edge of the winner banner, in pixels.
pub const WINNER_Y: usize = 160;

/// A side needs this many points before a leader is shown as the winner.
pub const WINNING_SCORE: u32 = 10;

/// Left edge of the player's score on a canvas `width` pixels wide.
pub open spec fn player_score_x(width: int) -> int {
    width / 4 - DIGIT_WIDTH / 2
}

/// Left edge of the computer's score on a canvas `width` pixels wide.
pub open spec fn ai_score_x(width: int) -> int {
    width * 3 / 4 - DIGIT_WIDTH / 2
}

pub open spec fn player_label() -> Seq<char> {
    seq!['P', 'L', 'A', 'Y', 'E', 'R']
}

pub open spec fn ai_label() -> Seq<char> {
    seq!['A', 'I']
}

pub open spec fn winner_label() -> Seq<char> {
    seq!['W', 'I', 'N', 'N', 'E', 'R', '!']
}

/// The pixel belongs to the winner banner: some side has reached
/// `WINNING_SCORE` and leads, and the banner stands under its score.
pub open spec fn winner_covers(score: Score, width: int, px: int, py: int) -> bool {
    &&& (score.player_score >= WINNING_SCORE || score.ai_score >= WINNING_SCORE)
    &&& {
        ||| score.player_score > score.ai_score && label_covers(
            winner_label(),
            player_score_x(width) - 10,
            WINNER_Y as int,
            px,
            py,
        )
        ||| score.ai_score > score.player_score && label_covers(
            winner_label(),
            ai_score_x(width) - 10,
            WINNER_Y as int,
            px,
            py,
        )
    }
}

/// The colour the score display gives pixel `(px, py)` of a canvas `width`
/// pixels wide, or `old` where it draws nothing.
pub open spec fn score_pixel(score: Score, width: int, px: int, py: int, old: u32) -> u32 {
    if winner_covers(score, width, px, py) {
        WINNER_COLOR
    } else if label_covers(player_label(), player_score_x(width), LABEL_Y as int, px, py)
        || label_covers(ai_label(), ai_score_x(width) + DIGIT_WIDTH / 4, LABEL_Y as int, px, py) {
        LABEL_COLOR
    } else if digit_covers(
        score.player_score as int,
        player_score_x(width),
        SCORE_Y as int,
        DIGIT_WIDTH as int,
        DIGIT_HEIGHT as int,
        SEGMENT_THICKNESS as int,
        px,
        py,
    ) || digit_covers(
        score.ai_score as int,
        ai_score_x(width),
        SCORE_Y as int,
        DIGIT_WIDTH as int,
        DIGIT_HEIGHT as int,
        SEGMENT_THICKNESS as int,
        px,
        py,
    ) {
        SEGMENT_COLOR
    } else if on_center_line(px, py, width) {
        CENTER_LINE_COLOR
    } else {
        old
    }
}

/// Draws the centre line, both scores as seven-segment digits with their
/// labels, and a winner banner once a side has reached `WINNING_SCORE` and leads.
pub fn render_score(canvas: &mut Canvas, score: &Score)
    requires
        old(canvas).wf(),
        120 <= old(canvas).spec_width() <= usize::MAX / 4,
    ensures
        final(canvas).wf(),
        final(canvas).spec_width() == old(canvas).spec_width(),
        final(canvas).spec_height() == old(canvas).spec_height(),
        final(canvas)@.len() == old(canvas)@.len(),
        forall|i: int|
            0 <= i < final(canvas)@.len() ==> #[trigger] final(canvas)@[i] == score_pixel(
                *score,
                final(canvas).spec_width() as int,
                i % (final(canvas).spec_width() as int),
                i / (final(canvas).spec_width() as int),
                old(canvas)@[i],
            ),
{
    let width: usize = canvas.width();
    let ghost cw = width as int;
    let player_x: usize = width / 4 - DIGIT_WIDTH / 2;
    let ai_x: usize = width * 3 / 4 - DIGIT_WIDTH / 2;
    let ghost s0 = canvas@;
    draw_center_line(canvas);
    let ghost s1 = canvas@;
    draw_digital_number(canvas, score.player_score, player_x, SCORE_Y, DIGIT_WIDTH, DIGIT_HEIGHT, SEGMENT_THICKNESS);
    let ghost s2 = canvas@;
    draw_digital_number(canvas, score.ai_score, ai_x, SCORE_Y, DIGIT_WIDTH, DIGIT_HEIGHT, SEGMENT_THICKNESS);
    let ghost s3 = canvas@;
    let player_text: Vec<char> = vec!['P', 'L', 'A', 'Y', 'E', 'R'];
    let ai_text: Vec<char> = vec!['A', 'I'];
    proof {
        assert(player_text@ == player_label());
        assert(ai_text@ == ai_label());
    }
    draw_text_label(canvas, &player_text, player_x, LABEL_Y, LABEL_COLOR);
    let ghost s4 = canvas@;
    draw_text_label(canvas, &ai_text, ai_x + DIGIT_WIDTH / 4, LABEL_Y, LABEL_COLOR);
    let ghost s5 = canvas@;
    let winner_text: Vec<char> = vec!['W', 'I', 'N', 'N', 'E', 'R', '!'];
    proof {
        assert(winner_text@ == winner_label());
    }
    if score.player_score >= WINNING_SCORE || score.ai_score >= WINNING_SCORE {
        if score.player_score > score.ai_score {
            draw_text_label(canvas, &winner_text, player_x - 10, WINNER_Y, WINNER_COLOR);
        } else if score.ai_score > score.player_score {
            draw_text_label(canvas, &winner_text, ai_x - 10, WINNER_Y, WINNER_COLOR);
        }
    }
    proof {
        assert forall|i: int| 0 <= i < canvas@.len() implies #[trigger] canvas@[i] == score_pixel(
            *score,
            cw,
            i % cw,
            i / cw,
            s0[i],
        ) by {
            assert(s1[i] == s1[i] && s2[i] == s2[i] && s3[i] == s3[i] && s4[i] == s4[i] && s5[i]
                == s5[i]);
        }
    }
}

} // verus!
