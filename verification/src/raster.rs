//! Raster images: a width x height grid of 8-bit RGBA pixels.
//!
//! Pixels are stored row-major with the origin at the top-left corner; the
//! y axis grows downward. This orientation is fixed here once and used by
//! every component, so no vertical flip ever enters the core.

use vstd::prelude::*;

verus! {

/// One 8-bit RGBA pixel.
#[derive(Clone, Copy, PartialEq, Eq, Structural, Debug)]
pub struct Rgba {
    pub r: u8,
    pub g: u8,
    pub b: u8,
    pub a: u8,
}

/// A width x height grid of pixels, row-major, top-left origin.
#[derive(Debug)]
pub struct Raster {
    width: u32,
    height: u32,
    data: Vec<Rgba>,
}

impl Raster {
    /// The stored pixel vector covers the grid exactly.
    pub closed spec fn wf(self) -> bool {
        self.data@.len() == self.width * self.height && self.width * self.height <= usize::MAX
    }

    pub closed spec fn spec_width(self) -> int {
        self.width as int
    }

    pub closed spec fn spec_height(self) -> int {
        self.height as int
    }

    /// The pixel at column `x`, row `y`.
    pub closed spec fn pix(self, x: int, y: int) -> Rgba {
        self.data@[y * self.width + x]
    }

    /// A well-formed raster's pixel count fits a `usize`.
    pub proof fn lemma_wf_dims(self)
        requires
            self.wf(),
        ensures
            self.spec_width() * self.spec_height() <= usize::MAX,
    {
    }

    /// A blank image: every pixel fully transparent black.
    pub fn new(width: u32, height: u32) -> (r: Raster)
        requires
            width * height <= usize::MAX,
        ensures
            r.wf(),
            r.spec_width() == width,
            r.spec_height() == height,
            forall|x: int, y: int|
                0 <= x < width && 0 <= y < height ==> r.pix(x, y) == (Rgba {
                    r: 0,
                    g: 0,
                    b: 0,
                    a: 0,
                }),
    {
        let n: usize = (width as usize) * (height as usize);
        let mut data: Vec<Rgba> = Vec::new();
        let mut i: usize = 0;
        while i < n
            invariant
                i <= n,
                data@.len() == i,
                forall|k: int|
                    0 <= k < i ==> data@[k] == (Rgba { r: 0, g: 0, b: 0, a: 0 }),
            decreases n - i,
        {
            data.push(Rgba { r: 0, g: 0, b: 0, a: 0 });
            i = i + 1;
        }
        let out = Raster { width, height, data };
        proof {
            assert forall|x: int, y: int| 0 <= x < width && 0 <= y < height implies out.pix(x, y)
                == (Rgba { r: 0, g: 0, b: 0, a: 0 }) by {
                lemma_row_major_in_range(x, y, width as int, height as int);
            }
        }
        out
    }

    /// The width in pixels.
    pub fn width(&self) -> (r: u32)
        ensures
            r == self.spec_width(),
    {
        self.width
    }

    /// The height in pixels.
    pub fn height(&self) -> (r: u32)
        ensures
            r == self.spec_height(),
    {
        self.height
    }

    /// Read the pixel at `(x, y)`.
    pub fn get_pixel(&self, x: u32, y: u32) -> (r: Rgba)
        requires
            self.wf(),
            x < self.spec_width(),
            y < self.spec_height(),
        ensures
            r == self.pix(x as int, y as int),
    {
        proof {
            lemma_row_major_in_range(x as int, y as int, self.spec_width(), self.spec_height());
        }
        let idx: usize = (y as usize) * (self.width as usize) + (x as usize);
        self.data[idx]
    }

    /// Overwrite the pixel at `(x, y)`; every other pixel keeps its value.
    pub fn put_pixel(&mut self, x: u32, y: u32, c: Rgba)
        requires
            old(self).wf(),
            x < old(self).spec_width(),
            y < old(self).spec_height(),
        ensures
            final(self).wf(),
            final(self).spec_width() == old(self).spec_width(),
            final(self).spec_height() == old(self).spec_height(),
            final(self).pix(x as int, y as int) == c,
            forall|i: int, j: int|
                0 <= i < final(self).spec_width() && 0 <= j < final(self).spec_height() && !(i == x
                    && j == y) ==> final(self).pix(i, j) == old(self).pix(i, j),
    {
        proof {
            lemma_row_major_in_range(x as int, y as int, self.spec_width(), self.spec_height());
        }
        let idx: usize = (y as usize) * (self.width as usize) + (x as usize);
        self.data.set(idx, c);
        proof {
            assert forall|i: int, j: int|
                0 <= i < self.spec_width() && 0 <= j < self.spec_height() && !(i == x && j == y)
                implies self.pix(i, j) == old(self).pix(i, j) by {
                lemma_row_major_in_range(i, j, self.spec_width(), self.spec_height());
                lemma_row_major_distinct(i, j, x as int, y as int, self.spec_width());
            }
        }
    }
}

/// A row-major index stays inside the pixel vector.
proof fn lemma_row_major_in_range(x: int, y: int, w: int, h: int)
    by (nonlinear_arith)
    requires
        0 <= x < w,
        0 <= y < h,
    ensures
        0 <= y * w + x < w * h,
{
}

/// Distinct coordinates give distinct row-major indices.
proof fn lemma_row_major_distinct(x1: int, y1: int, x2: int, y2: int, w: int)
    by (nonlinear_arith)
    requires
        0 <= x1 < w,
        0 <= x2 < w,
        0 <= y1,
        0 <= y2,
        !(x1 == x2 && y1 == y2),
    ensures
        y1 * w + x1 != y2 * w + x2,
{
}

} // verus!
