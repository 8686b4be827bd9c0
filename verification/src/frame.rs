//! The pixel-level model of one renderable frame: a row-major grid of
//! colors, with the clear operation a render pass starts with.

use vstd::prelude::*;
use crate::Color;

verus! {

/// One acquired, renderable instance of the surface's backing image:
/// a `width` by `height` grid of colors, stored row by row.
#[derive(Debug)]
pub struct Frame {
    width: u32,
    height: u32,
    pixels: Vec<Color>,
}

proof fn lemma_row_major_index(x: int, y: int, w: int, h: int)
    requires
        0 <= x < w,
        0 <= y < h,
    ensures
        0 <= y * w + x < w * h,
{
    assert(0 <= y * w + x < w * h) by (nonlinear_arith)
        requires
            0 <= x < w,
            0 <= y < h,
    ;
}

proof fn lemma_row_major_distinct(i: int, j: int, x: int, y: int, w: int)
    requires
        0 <= i < w,
        0 <= x < w,
        !(i == x && j == y),
    ensures
        j * w + i != y * w + x,
{
    assert(j * w + i != y * w + x) by (nonlinear_arith)
        requires
            0 <= i < w,
            0 <= x < w,
            !(i == x && j == y),
    ;
}

impl Frame {
    pub closed spec fn spec_width(self) -> u32 {
        self.width
    }

    pub closed spec fn spec_height(self) -> u32 {
        self.height
    }

    /// The pixel grid, row by row.
    pub closed spec fn spec_pixels(self) -> Seq<Color> {
        self.pixels@
    }

    /// A frame is well formed when it holds exactly one color per pixel.
    pub open spec fn wf(self) -> bool {
        self.spec_pixels().len() == self.spec_width() * self.spec_height()
    }

    /// The color of the pixel in column `x` of row `y`.
    pub open spec fn spec_pixel(self, x: int, y: int) -> Color {
        self.spec_pixels()[y * self.spec_width() + x]
    }

    /// Every pixel of the frame holds color `c`.
    pub open spec fn uniform(self, c: Color) -> bool {
        forall|x: int, y: int|
            0 <= x < self.spec_width() && 0 <= y < self.spec_height() ==> self.spec_pixel(
                x,
                y,
            ) == c
    }

    /// Allocates a frame of the given dimensions with every pixel
    /// transparent black.
    pub fn new(width: u32, height: u32) -> (f: Frame)
        requires
            width * height <= usize::MAX,
        ensures
            f.spec_width() == width,
            f.spec_height() == height,
            f.wf(),
            f.uniform(Color::spec_transparent_black()),
    {
        let n: usize = (width as usize) * (height as usize);
        let mut pixels: Vec<Color> = Vec::new();
        let mut i: usize = 0;
        while i < n
            invariant
                i <= n,
                pixels@.len() == i,
                forall|j: int| 0 <= j < i ==> pixels@[j] == Color::spec_transparent_black(),
            decreases n - i,
        {
            pixels.push(Color::transparent_black());
            i = i + 1;
        }
        let f = Frame { width, height, pixels };
        proof {
            assert forall|x: int, y: int|
                0 <= x < f.spec_width() && 0 <= y < f.spec_height() implies f.spec_pixel(x, y)
                == Color::spec_transparent_black() by {
                lemma_row_major_index(x, y, width as int, height as int);
            }
        }
        f
    }

    pub fn width(&self) -> (w: u32)
        ensures
            w == self.spec_width(),
    {
        self.width
    }

    pub fn height(&self) -> (h: u32)
        ensures
            h == self.spec_height(),
    {
        self.height
    }

    /// Reads the pixel in column `x` of row `y`.
    pub fn pixel(&self, x: u32, y: u32) -> (c: Color)
        requires
            self.wf(),
            x < self.spec_width(),
            y < self.spec_height(),
        ensures
            c == self.spec_pixel(x as int, y as int),
    {
        let n: usize = self.pixels.len();
        proof {
            lemma_row_major_index(
                x as int,
                y as int,
                self.spec_width() as int,
                self.spec_height() as int,
            );
            assert((y as int) * (self.spec_width() as int) + (x as int) < n as int);
        }
        self.pixels[(y as usize) * (self.width as usize) + (x as usize)]
    }

    /// Overwrites the pixel in column `x` of row `y` with color `c`,
    /// leaving every other pixel as it was.
    pub fn set_pixel(&mut self, x: u32, y: u32, c: Color)
        requires
            old(self).wf(),
            x < old(self).spec_width(),
            y < old(self).spec_height(),
        ensures
            final(self).wf(),
            final(self).spec_width() == old(self).spec_width(),
            final(self).spec_height() == old(self).spec_height(),
            final(self).spec_pixel(x as int, y as int) == c,
            forall|i: int, j: int|
                0 <= i < old(self).spec_width() && 0 <= j < old(self).spec_height() && !(i == x
                    && j == y) ==> final(self).spec_pixel(i, j) == old(self).spec_pixel(i, j),
    {
        let n: usize = self.pixels.len();
        proof {
            lemma_row_major_index(
                x as int,
                y as int,
                self.spec_width() as int,
                self.spec_height() as int,
            );
            assert((y as int) * (self.spec_width() as int) + (x as int) < n as int);
        }
        self.pixels[(y as usize) * (self.width as usize) + (x as usize)] = c;
        proof {
            let w = self.spec_width() as int;
            let h = self.spec_height() as int;
            assert forall|i: int, j: int|
                0 <= i < w && 0 <= j < h && !(i == x && j == y) implies self.spec_pixel(i, j)
                == old(self).spec_pixel(i, j) by {
                lemma_row_major_index(i, j, w, h);
                lemma_row_major_distinct(i, j, x as int, y as int, w);
            }
        }
    }

    /// Overwrites every pixel with color `c`: the load operation a render
    /// pass performs before any geometry is drawn.
    pub fn clear(&mut self, c: Color)
        requires
            old(self).wf(),
        ensures
            final(self).wf(),
            final(self).spec_width() == old(self).spec_width(),
            final(self).spec_height() == old(self).spec_height(),
            final(self).uniform(c),
    {
        let n: usize = self.pixels.len();
        let mut i: usize = 0;
        while i < n
            invariant
                i <= n,
                n == self.pixels@.len(),
                self.width == old(self).spec_width(),
                self.height == old(self).spec_height(),
                self.pixels@.len() == old(self).spec_pixels().len(),
                forall|j: int| 0 <= j < i ==> self.pixels@[j] == c,
            decreases n - i,
        {
            self.pixels[i] = c;
            i = i + 1;
        }
        proof {
            assert forall|x: int, y: int|
                0 <= x < self.spec_width() && 0 <= y < self.spec_height() implies self.spec_pixel(
                x,
                y,
            ) == c by {
                lemma_row_major_index(x, y, self.spec_width() as int, self.spec_height() as int);
            }
        }
    }
}

} // verus!
