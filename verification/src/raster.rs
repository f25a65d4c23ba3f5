//! Plain pixel grids.
//!
//! The library works on immutable, caller-owned grids of channel samples:
//! [`Image`] holds RGB pixels, [`GrayImage`] single-channel ones. Pixels are
//! stored row-major; a grid is well formed when it holds exactly
//! `width * height` samples, which every constructor establishes and every
//! consumer requires.

use vstd::prelude::*;
use vstd::arithmetic::mul::{lemma_mul_inequality, lemma_mul_upper_bound};

verus! {

/// One RGB pixel, each channel sampled in `0..=255`.
#[derive(Clone, Copy, Debug, PartialEq, Eq, Structural)]
pub struct Rgb {
    pub r: u8,
    pub g: u8,
    pub b: u8,
}

/// An RGB image: a row-major grid of `width * height` pixels.
#[derive(Debug)]
pub struct Image {
    width: u32,
    height: u32,
    pixels: Vec<Rgb>,
}

/// `x, y` lie inside a grid of the given dimensions.
pub open spec fn in_bounds(x: int, y: int, width: int, height: int) -> bool {
    0 <= x < width && 0 <= y < height
}

/// Position `x, y` lies strictly before `width * height` in row-major order.
proof fn lemma_row_major_index(x: int, y: int, width: int, height: int)
    requires
        in_bounds(x, y, width, height),
    ensures
        0 <= y * width + x < width * height,
{
    lemma_mul_inequality(y + 1, height, width);
    assert(y * width + x < (y + 1) * width) by (nonlinear_arith)
        requires x < width,
    ;
}

impl Image {
    /// The grid holds one pixel per cell.
    pub closed spec fn wf(&self) -> bool {
        self.pixels@.len() == self.width * self.height
    }

    pub closed spec fn spec_width(&self) -> int {
        self.width as int
    }

    pub closed spec fn spec_height(&self) -> int {
        self.height as int
    }

    /// The pixel at column `x` of row `y`.
    pub closed spec fn pix(&self, x: int, y: int) -> Rgb {
        self.pixels@[y * self.spec_width() + x]
    }

    /// What `==` means on images: equal dimensions and equal pixel storage.
    pub closed spec fn spec_eq(&self, other: &Image) -> bool {
        &&& self.width == other.width
        &&& self.height == other.height
        &&& self.pixels@ == other.pixels@
    }

    /// Two images hold the same grid.
    pub open spec fn same_grid(&self, other: &Image) -> bool {
        &&& self.spec_width() == other.spec_width()
        &&& self.spec_height() == other.spec_height()
        &&& forall|x: int, y: int|
            in_bounds(x, y, self.spec_width(), self.spec_height()) ==> self.pix(x, y)
                == other.pix(x, y)
    }

    /// Builds an image from its dimensions and row-major pixels; rejects a
    /// pixel count that does not match the dimensions.
    pub fn new(width: u32, height: u32, pixels: Vec<Rgb>) -> (res: Option<Image>)
        ensures
            res is Some <==> pixels@.len() == width * height,
            res matches Some(img) ==> {
                &&& img.wf()
                &&& img.spec_width() == width
                &&& img.spec_height() == height
                &&& forall|x: int, y: int|
                    in_bounds(x, y, width as int, height as int) ==> img.pix(x, y) == pixels@[y
                        * width + x]
            },
    {
        proof {
            lemma_mul_upper_bound(width as int, u32::MAX as int, height as int, u32::MAX as int);
        }
        if pixels.len() as u64 == width as u64 * height as u64 {
            Some(Image { width, height, pixels })
        } else {
            None
        }
    }

    pub fn width(&self) -> (w: u32)
        ensures
            w == self.spec_width(),
    {
        self.width
    }

    pub fn height(&self) -> (h: u32)
        ensures
            h == self.spec_height(),
    {
        self.height
    }

    /// Reads the pixel at column `x` of row `y`.
    pub fn get_pixel(&self, x: u32, y: u32) -> (p: Rgb)
        requires
            self.wf(),
            in_bounds(x as int, y as int, self.spec_width(), self.spec_height()),
        ensures
            p == self.pix(x as int, y as int),
    {
        proof {
            lemma_row_major_index(x as int, y as int, self.spec_width(), self.spec_height());
        }
        let n: usize = self.pixels.len();
        assert(y * self.spec_width() + x < n);
        self.pixels[(y as usize) * (self.width as usize) + (x as usize)]
    }

    /// Copies out row `y`, left to right: bounded row iteration for callers
    /// that want to walk the grid line by line.
    pub fn row(&self, y: u32) -> (r: Vec<Rgb>)
        requires
            self.wf(),
            0 <= y < self.spec_height(),
        ensures
            r@.len() == self.spec_width(),
            forall|x: int|
                0 <= x < self.spec_width() ==> r@[x] == self.pix(x, y as int),
    {
        let w = self.width;
        let mut r: Vec<Rgb> = Vec::new();
        let mut x: u32 = 0;
        while x < w
            invariant
                self.wf(),
                w == self.spec_width(),
                0 <= y < self.spec_height(),
                0 <= x <= w,
                r@.len() == x,
                forall|i: int| 0 <= i < x ==> r@[i] == self.pix(i, y as int),
            decreases w - x,
        {
            r.push(self.get_pixel(x, y));
            x += 1;
        }
        r
    }
}

impl Clone for Image {
    /// A clone holds the same dimensions and the same pixels.
    fn clone(&self) -> (res: Image)
        ensures
            res.spec_eq(self),
    {
        let n = self.pixels.len();
        let mut pixels: Vec<Rgb> = Vec::new();
        let mut i: usize = 0;
        while i < n
            invariant
                n == self.pixels@.len(),
                0 <= i <= n,
                pixels@ =~= self.pixels@.subrange(0, i as int),
            decreases n - i,
        {
            pixels.push(self.pixels[i]);
            i += 1;
        }
        proof {
            assert(pixels@ =~= self.pixels@);
        }
        Image { width: self.width, height: self.height, pixels }
    }
}

impl PartialEq for Image {
    /// Two images are equal when their dimensions and pixels are.
    fn eq(&self, other: &Image) -> (r: bool) {
        if self.width != other.width || self.height != other.height
            || self.pixels.len() != other.pixels.len() {
            return false;
        }
        let n = self.pixels.len();
        let mut i: usize = 0;
        while i < n
            invariant
                n == self.pixels@.len() == other.pixels@.len(),
                0 <= i <= n,
                forall|j: int| 0 <= j < i ==> self.pixels@[j] == other.pixels@[j],
            decreases n - i,
        {
            if self.pixels[i] != other.pixels[i] {
                return false;
            }
            i += 1;
        }
        proof {
            assert(self.pixels@ =~= other.pixels@);
        }
        true
    }
}

/// Equal images are interchangeable: `spec_eq` carries the dimensions, the
/// well-formedness and every pixel over.
pub proof fn lemma_spec_eq_same_grid(a: &Image, b: &Image)
    requires
        a.spec_eq(b),
    ensures
        a.spec_width() == b.spec_width(),
        a.spec_height() == b.spec_height(),
        a.wf() <==> b.wf(),
        a.same_grid(b),
{
}

impl vstd::std_specs::cmp::PartialEqSpecImpl for Image {
    open spec fn obeys_eq_spec() -> bool {
        true
    }

    open spec fn eq_spec(&self, other: &Image) -> bool {
        self.spec_eq(other)
    }
}

/// A grayscale image: a row-major grid of `width * height` samples.
#[derive(Debug)]
pub struct GrayImage {
    width: u32,
    height: u32,
    pixels: Vec<u8>,
}

impl GrayImage {
    /// The grid holds one sample per cell.
    pub closed spec fn wf(&self) -> bool {
        self.pixels@.len() == self.width * self.height
    }

    pub closed spec fn spec_width(&self) -> int {
        self.width as int
    }

    pub closed spec fn spec_height(&self) -> int {
        self.height as int
    }

    /// The sample at column `x` of row `y`.
    pub closed spec fn pix(&self, x: int, y: int) -> u8 {
        self.pixels@[y * self.spec_width() + x]
    }

    /// Builds a grayscale image from its dimensions and row-major samples;
    /// rejects a sample count that does not match the dimensions.
    pub fn new(width: u32, height: u32, pixels: Vec<u8>) -> (res: Option<GrayImage>)
        ensures
            res is Some <==> pixels@.len() == width * height,
            res matches Some(img) ==> {
                &&& img.wf()
                &&& img.spec_width() == width
                &&& img.spec_height() == height
                &&& forall|x: int, y: int|
                    in_bounds(x, y, width as int, height as int) ==> img.pix(x, y) == pixels@[y
                        * width + x]
            },
    {
        proof {
            lemma_mul_upper_bound(width as int, u32::MAX as int, height as int, u32::MAX as int);
        }
        if pixels.len() as u64 == width as u64 * height as u64 {
            Some(GrayImage { width, height, pixels })
        } else {
            None
        }
    }

    pub fn width(&self) -> (w: u32)
        ensures
            w == self.spec_width(),
    {
        self.width
    }

    pub fn height(&self) -> (h: u32)
        ensures
            h == self.spec_height(),
    {
        self.height
    }

    /// Reads the sample at column `x` of row `y`.
    pub fn get_pixel(&self, x: u32, y: u32) -> (p: u8)
        requires
            self.wf(),
            in_bounds(x as int, y as int, self.spec_width(), self.spec_height()),
        ensures
            p == self.pix(x as int, y as int),
    {
        proof {
            lemma_row_major_index(x as int, y as int, self.spec_width(), self.spec_height());
        }
        let n: usize = self.pixels.len();
        assert(y * self.spec_width() + x < n);
        self.pixels[(y as usize) * (self.width as usize) + (x as usize)]
    }
}

} // verus!
