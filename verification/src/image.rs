//! Flat pixel store with row-major addressing.

use vstd::prelude::*;

verus! {

/// One 8-bit RGB sample. Value semantics: equality is component-wise.
#[derive(Clone, Copy, PartialEq, Eq, Structural, Debug)]
pub struct Pixel {
    pub r: u8,
    pub g: u8,
    pub b: u8,
}

impl Default for Pixel {
    /// The all-black pixel.
    fn default() -> (p: Pixel)
        ensures
            p == (Pixel { r: 0, g: 0, b: 0 }),
    {
        Pixel { r: 0, g: 0, b: 0 }
    }
}

/// A `width` x `height` raster of pixels stored row-major: the pixel at
/// `(row, col)` lives at index `row * width + col`.
pub struct Image {
    pub pixels: Vec<Pixel>,
    pub width: usize,
    pub height: usize,
}

impl Image {
    /// The buffer holds exactly one pixel per coordinate.
    pub open spec fn wf(&self) -> bool {
        self.pixels.len() == self.width * self.height
    }

    /// Row-major index of `(row, col)`.
    pub open spec fn spec_offset(&self, row: int, col: int) -> int {
        row * self.width + col
    }

    /// The pixel stored at `(row, col)`.
    pub open spec fn spec_pixel(&self, row: int, col: int) -> Pixel {
        self.pixels[self.spec_offset(row, col)]
    }

    /// A fresh all-black image of the requested shape.
    pub fn new(width: usize, height: usize) -> (img: Image)
        requires
            width * height <= usize::MAX,
        ensures
            img.wf(),
            img.width == width,
            img.height == height,
            forall|k: int| 0 <= k < img.pixels.len() ==> img.pixels[k] == (Pixel {
                r: 0,
                g: 0,
                b: 0,
            }),
    {
        let count = width * height;
        let mut pixels: Vec<Pixel> = Vec::new();
        let mut k: usize = 0;
        while k < count
            invariant
                k <= count,
                pixels.len() == k,
                forall|i: int| 0 <= i < k ==> pixels[i] == (Pixel { r: 0, g: 0, b: 0 }),
            decreases count - k,
        {
            pixels.push(Pixel { r: 0, g: 0, b: 0 });
            k = k + 1;
        }
        Image { pixels, width, height }
    }

    /// Row-major index of `(row, col)`, in bounds for a well-formed image.
    pub fn offset(&self, row: usize, col: usize) -> (k: usize)
        requires
            self.wf(),
            row < self.height,
            col < self.width,
        ensures
            k == self.spec_offset(row as int, col as int),
            k < self.pixels.len(),
    {
        proof {
            lemma_row_major_in_bounds(
                row as int,
                col as int,
                self.width as int,
                self.height as int,
            );
        }
        row * self.width + col
    }

    /// The pixel at `(row, col)`.
    pub fn pixel(&self, row: usize, col: usize) -> (p: Pixel)
        requires
            self.wf(),
            row < self.height,
            col < self.width,
        ensures
            p == self.spec_pixel(row as int, col as int),
    {
        let k = self.offset(row, col);
        self.pixels[k]
    }
}

/// Row-major addressing stays inside the buffer: for coordinates within the
/// image, `row * width + col` is a valid index of the `width * height` store.
pub proof fn lemma_row_major_in_bounds(row: int, col: int, width: int, height: int)
    requires
        0 <= row < height,
        0 <= col < width,
    ensures
        0 <= row * width + col < width * height,
{
    assert(row * width + col < width * height) by (nonlinear_arith)
        requires
            0 <= row < height,
            0 <= col < width,
    ;
    assert(0 <= row * width + col) by (nonlinear_arith)
        requires
            0 <= row,
            0 <= col,
            0 < width,
    ;
}

} // verus!
