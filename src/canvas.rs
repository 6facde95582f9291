use vstd::prelude::*;

use vstd::arithmetic::div_mod::{lemma_fundamental_div_mod, lemma_fundamental_div_mod_converse};

verus! {

/// The pixel `(px, py)` lies in the rectangle with top-left corner `(x, y)`.
pub open spec fn in_rect(px: int, py: int, x: int, y: int, width: int, height: int) -> bool {
    x <= px < x + width && y <= py < y + height
}

/// `after` is `before` with the rectangle at `(x, y)` painted `color` on a
/// canvas `canvas_width` pixels wide.
pub open spec fn painted(
    before: Seq<u32>,
    after: Seq<u32>,
    canvas_width: int,
    x: int,
    y: int,
    width: int,
    height: int,
    color: u32,
) -> bool {
    &&& after.len() == before.len()
    &&& forall|i: int|
        0 <= i < after.len() ==> #[trigger] after[i] == (if in_rect(
            i % canvas_width,
            i / canvas_width,
            x,
            y,
            width,
            height,
        ) {
            color
        } else {
            before[i]
        })
}

/// An RGB frame of `width * height` pixels, row after row: pixel `i` is at
/// column `i % width` and row `i / width`.
pub struct Canvas {
    width: usize,
    height: usize,
    pixels: Vec<u32>,
}

/// Pixel `i` of a `width` by `height` canvas has its column and row inside the canvas.
pub proof fn lemma_index_position(i: int, width: int, height: int)
    requires
        0 <= i < width * height,
        width > 0,
    ensures
        0 <= i % width < width,
        0 <= i / width < height,
        i == (i / width) * width + i % width,
{
    lemma_fundamental_div_mod(i, width);
    let q = i / width;
    let r = i % width;
    assert(q * width == width * q) by (nonlinear_arith);
    assert(0 <= q < height) by (nonlinear_arith)
        requires
            i == q * width + r,
            0 <= r < width,
            0 <= i < width * height,
            width > 0,
    ;
}

/// The index of pixel `(px, py)` is in bounds and maps back to that pixel.
proof fn lemma_position_index(px: int, py: int, width: int, height: int)
    requires
        0 <= px < width,
        0 <= py < height,
    ensures
        0 <= py * width + px < width * height,
        (py * width + px) % width == px,
        (py * width + px) / width == py,
{
    assert(0 <= py * width + px < width * height) by (nonlinear_arith)
        requires
            0 <= px < width,
            0 <= py < height,
    ;
    lemma_fundamental_div_mod_converse(py * width + px, width, py, px);
}

impl Canvas {
    pub open spec fn wf(&self) -> bool {
        self@.len() == self.spec_width() * self.spec_height()
    }

    pub closed spec fn spec_width(&self) -> nat {
        self.width as nat
    }

    pub closed spec fn spec_height(&self) -> nat {
        self.height as nat
    }

    /// The pixels, row after row.
    pub closed spec fn view(&self) -> Seq<u32> {
        self.pixels@
    }

    /// A black canvas of `width` by `height` pixels.
    pub fn new(width: usize, height: usize) -> (r: Canvas)
        requires
            width * height <= usize::MAX,
        ensures
            r.wf(),
            r.spec_width() == width,
            r.spec_height() == height,
            r@.len() == width * height,
            forall|i: int| 0 <= i < r@.len() ==> r@[i] == 0,
    {
        let len: usize = width * height;
        let mut pixels: Vec<u32> = Vec::new();
        let mut i: usize = 0;
        while i < len
            invariant
                i <= len,
                pixels@.len() == i,
                forall|j: int| 0 <= j < i ==> pixels@[j] == 0,
            decreases len - i,
        {
            pixels.push(0);
            i = i + 1;
        }
        Canvas { width, height, pixels }
    }

    pub fn width(&self) -> (r: usize)
        ensures
            r == self.spec_width(),
    {
        self.width
    }

    pub fn height(&self) -> (r: usize)
        ensures
            r == self.spec_height(),
    {
        self.height
    }

    /// The pixels, row after row.
    pub fn pixels(&self) -> (r: &Vec<u32>)
        ensures
            r@ == self@,
    {
        &self.pixels
    }

    /// The colour of pixel `(px, py)`.
    pub fn pixel(&self, px: usize, py: usize) -> (r: u32)
        requires
            self.wf(),
            px < self.spec_width(),
            py < self.spec_height(),
        ensures
            r == self@[py * self.spec_width() + px],
    {
        let len: usize = self.pixels.len();
        proof {
            lemma_position_index(px as int, py as int, self.width as int, self.height as int);
            assert(py * self.width <= py * self.width + px < len);
        }
        self.pixels[py * self.width + px]
    }

    /// Paints every pixel with `color`.
    pub fn clear(&mut self, color: u32)
        requires
            old(self).wf(),
        ensures
            final(self).wf(),
            final(self).spec_width() == old(self).spec_width(),
            final(self).spec_height() == old(self).spec_height(),
            final(self)@.len() == old(self)@.len(),
            forall|i: int| 0 <= i < final(self)@.len() ==> final(self)@[i] == color,
    {
        let len: usize = self.pixels.len();
        let mut i: usize = 0;
        while i < len
            invariant
                i <= len,
                len == self.pixels@.len(),
                self.wf(),
                self.width == old(self).width,
                self.height == old(self).height,
                forall|j: int| 0 <= j < i ==> self.pixels@[j] == color,
            decreases len - i,
        {
            self.pixels.set(i, color);
            i = i + 1;
        }
    }

    /// Paints with `color` the part of the `width` by `height` rectangle at
    /// `(x, y)` that lies on the canvas; every other pixel keeps its colour.
    pub fn draw_rect(&mut self, x: usize, y: usize, width: usize, height: usize, color: u32)
        requires
            old(self).wf(),
        ensures
            final(self).wf(),
            final(self).spec_width() == old(self).spec_width(),
            final(self).spec_height() == old(self).spec_height(),
            final(self)@.len() == old(self)@.len(),
            painted(old(self)@, final(self)@, final(self).spec_width() as int, x as int, y as int, width as int, height as int, color),
    {
        if x >= self.width || y >= self.height {
            proof {
                assert forall|i: int| 0 <= i < self.pixels@.len() implies !#[trigger] in_rect(
                    i % (self.width as int),
                    i / (self.width as int),
                    x as int,
                    y as int,
                    width as int,
                    height as int,
                ) by {
                    if self.width > 0 {
                        lemma_index_position(i, self.width as int, self.height as int);
                    } else {
                        assert((self.width as int) * (self.height as int) == 0) by (nonlinear_arith)
                            requires
                                self.width == 0,
                        ;
                    }
                }
            }
            return;
        }
        let w: usize = self.width;
        let x_end: usize = if width > w - x { w } else { x + width };
        let y_end: usize = if height > self.height - y { self.height } else { y + height };
        let ghost old_pixels = self.pixels@;
        let mut py: usize = y;
        while py < y_end
            invariant
                y <= py <= y_end <= self.height,
                x <= x_end <= w,
                w == self.width,
                w > 0,
                self.width == old(self).width,
                self.height == old(self).height,
                self.wf(),
                old_pixels == old(self).pixels@,
                x_end == (if width > w - x { w as int } else { x + width }),
                y_end == (if height > self.height - y { self.height as int } else { y + height }),
                forall|i: int|
                    0 <= i < self.pixels@.len() ==> self.pixels@[i] == (if y <= i / (w as int) < py
                        && x <= i % (w as int) < x_end {
                        color
                    } else {
                        old_pixels[i]
                    }),
            decreases y_end - py,
        {
            let mut px: usize = x;
            while px < x_end
                invariant
                    y <= py < y_end <= self.height,
                    x <= px <= x_end <= w,
                    w == self.width,
                    w > 0,
                    self.width == old(self).width,
                    self.height == old(self).height,
                    self.wf(),
                    forall|i: int|
                        0 <= i < self.pixels@.len() ==> self.pixels@[i] == (if (y <= i / (w as int)
                            < py && x <= i % (w as int) < x_end) || (i / (w as int) == py && x
                            <= i % (w as int) < px) {
                            color
                        } else {
                            old_pixels[i]
                        }),
                decreases x_end - px,
            {
                let len: usize = self.pixels.len();
                proof {
                    lemma_position_index(px as int, py as int, w as int, self.height as int);
                    assert(py * w <= py * w + px < len);
                }
                let idx: usize = py * w + px;
                let ghost before = self.pixels@;
                self.pixels.set(idx, color);
                proof {
                    assert forall|i: int| 0 <= i < self.pixels@.len() implies self.pixels@[i] == (if (
                    y <= i / (w as int) < py && x <= i % (w as int) < x_end) || (i / (w as int)
                        == py && x <= i % (w as int) < px + 1) {
                        color
                    } else {
                        old_pixels[i]
                    }) by {
                        lemma_index_position(i, w as int, self.height as int);
                        if i / (w as int) == py && i % (w as int) == px {
                            assert(i == idx);
                        }
                    }
                }
                px = px + 1;
            }
            py = py + 1;
        }
        proof {
            assert forall|i: int| 0 <= i < self.pixels@.len() implies (#[trigger] in_rect(
                i % (w as int),
                i / (w as int),
                x as int,
                y as int,
                width as int,
                height as int,
            ) <==> (y <= i / (w as int) < y_end && x <= i % (w as int) < x_end)) by {
                lemma_index_position(i, w as int, self.height as int);
            }
        }
    }
}

} // verus!
