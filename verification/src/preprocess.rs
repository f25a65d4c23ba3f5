//! Image preprocessing: normalizing to a target character-grid resolution.
//!
//! The basic preprocessor resamples an image to exactly the requested
//! dimensions with nearest-neighbor sampling — destination cell `(x, y)`
//! reads source pixel `(floor(x * src_w / dst_w), floor(y * src_h / dst_h))`
//! — and hands an exact copy back when the dimensions already match, so an
//! exact match picks up no resampling artifacts. Nearest-neighbor is chosen
//! deliberately: at text-grid pixel densities it preserves hard edges where
//! averaging filters would wash detail out. The null preprocessor performs
//! no resizing regardless of the requested dimensions.

use vstd::prelude::*;
use vstd::arithmetic::div_mod::{
    lemma_div_multiples_vanish, lemma_div_pos_is_pos, lemma_multiply_divide_lt,
};
use vstd::arithmetic::mul::{lemma_mul_nonnegative, lemma_mul_upper_bound};
use crate::raster::{in_bounds, lemma_spec_eq_same_grid, Image, Rgb};

verus! {

/// The source index nearest-neighbor sampling reads for destination index
/// `dst`: `floor(dst * src_len / dst_len)`.
pub open spec fn nearest_src(dst: int, src_len: int, dst_len: int) -> int {
    dst * src_len / dst_len
}

/// Nearest-neighbor sampling never reads out of bounds, and when the length
/// is unchanged it reads the very same index.
pub proof fn lemma_nearest_src_bounds(dst: int, src_len: int, dst_len: int)
    requires
        0 <= dst < dst_len,
        0 < src_len,
    ensures
        0 <= nearest_src(dst, src_len, dst_len) < src_len,
        src_len == dst_len ==> nearest_src(dst, src_len, dst_len) == dst,
{
    lemma_mul_nonnegative(dst, src_len);
    lemma_div_pos_is_pos(dst * src_len, dst_len);
    assert(dst * src_len < dst_len * src_len) by (nonlinear_arith)
        requires
            dst < dst_len,
            0 < src_len,
    ;
    lemma_multiply_divide_lt(dst * src_len, dst_len, src_len);
    if src_len == dst_len {
        assert(dst * src_len == dst_len * dst) by (nonlinear_arith)
            requires
                src_len == dst_len,
        ;
        lemma_div_multiples_vanish(dst, dst_len);
    }
}

/// The pixel resampling places at destination cell `(x, y)`.
pub open spec fn resampled(img: Image, dst_w: int, dst_h: int, x: int, y: int) -> Rgb {
    img.pix(nearest_src(x, img.spec_width(), dst_w), nearest_src(y, img.spec_height(), dst_h))
}

/// A preprocessor that resizes the image to its target dimensions.
pub struct BasicPreprocessor {
    /// The target width and height, in character cells; both must be
    /// positive, as must the dimensions of the image handed to `process`.
    pub dimensions: (u32, u32),
}

impl BasicPreprocessor {
    /// Normalizes the image to the target dimensions by nearest-neighbor
    /// sampling; dimensions that already match yield an unmodified copy.
    pub fn process(&self, image: &Image) -> (res: Image)
        requires
            image.wf(),
            image.spec_width() > 0,
            image.spec_height() > 0,
            self.dimensions.0 > 0,
            self.dimensions.1 > 0,
        ensures
            res.wf(),
            res.spec_width() == self.dimensions.0,
            res.spec_height() == self.dimensions.1,
            forall|x: int, y: int|
                in_bounds(x, y, self.dimensions.0 as int, self.dimensions.1 as int)
                    ==> #[trigger] res.pix(x, y) == resampled(
                    *image,
                    self.dimensions.0 as int,
                    self.dimensions.1 as int,
                    x,
                    y,
                ),
            self.dimensions.0 == image.spec_width() && self.dimensions.1 == image.spec_height()
                ==> res.spec_eq(image),
    {
        let dw = self.dimensions.0;
        let dh = self.dimensions.1;
        let sw = image.width();
        let sh = image.height();
        if dw == sw && dh == sh {
            let res = image.clone();
            proof {
                lemma_spec_eq_same_grid(&res, image);
                assert forall|x: int, y: int| in_bounds(x, y, dw as int, dh as int) implies res.pix(
                    x,
                    y,
                ) == resampled(*image, dw as int, dh as int, x, y) by {
                    lemma_nearest_src_bounds(x, sw as int, dw as int);
                    lemma_nearest_src_bounds(y, sh as int, dh as int);
                }
            }
            res
        } else {
            let mut pixels: Vec<Rgb> = Vec::new();
            let mut y: u32 = 0;
            while y < dh
                invariant
                    image.wf(),
                    sw == image.spec_width(),
                    sh == image.spec_height(),
                    0 < sw && 0 < sh && 0 < dw && 0 < dh,
                    0 <= y <= dh,
                    pixels@.len() == y * dw,
                    forall|yy: int, xx: int|
                        0 <= yy < y && 0 <= xx < dw ==> #[trigger] pixels@[yy * dw + xx]
                            == resampled(*image, dw as int, dh as int, xx, yy),
                decreases dh - y,
            {
                proof {
                    lemma_mul_upper_bound(y as int, u32::MAX as int, sh as int, u32::MAX as int);
                    lemma_nearest_src_bounds(y as int, sh as int, dh as int);
                }
                let sy: u32 = ((y as u64 * sh as u64) / dh as u64) as u32;
                let mut x: u32 = 0;
                while x < dw
                    invariant
                        image.wf(),
                        sw == image.spec_width(),
                        sh == image.spec_height(),
                        0 < sw && 0 < sh && 0 < dw && 0 < dh,
                        y < dh,
                        sy == nearest_src(y as int, sh as int, dh as int),
                        sy < sh,
                        0 <= x <= dw,
                        pixels@.len() == y * dw + x,
                        forall|yy: int, xx: int|
                            0 <= yy < y && 0 <= xx < dw ==> #[trigger] pixels@[yy * dw + xx]
                                == resampled(*image, dw as int, dh as int, xx, yy),
                        forall|xx: int|
                            0 <= xx < x ==> #[trigger] pixels@[y * dw + xx] == resampled(
                                *image,
                                dw as int,
                                dh as int,
                                xx,
                                y as int,
                            ),
                    decreases dw - x,
                {
                    proof {
                        lemma_mul_upper_bound(
                            x as int,
                            u32::MAX as int,
                            sw as int,
                            u32::MAX as int,
                        );
                        lemma_nearest_src_bounds(x as int, sw as int, dw as int);
                    }
                    let sx: u32 = ((x as u64 * sw as u64) / dw as u64) as u32;
                    pixels.push(image.get_pixel(sx, sy));
                    proof {
                        assert forall|yy: int, xx: int| 0 <= yy < y && 0 <= xx < dw implies (
                        #[trigger] pixels@[yy * dw + xx]) == resampled(
                            *image,
                            dw as int,
                            dh as int,
                            xx,
                            yy,
                        ) by {
                            assert(0 <= yy * dw + xx < y * dw) by (nonlinear_arith)
                                requires
                                    0 <= yy < y,
                                    0 <= xx < dw,
                            ;
                        }
                    }
                    x += 1;
                }
                proof {
                    assert((y as int + 1) * dw == y as int * dw + dw) by (nonlinear_arith);
                }
                y += 1;
            }
            proof {
                assert(pixels@.len() == dw * dh) by (nonlinear_arith)
                    requires
                        pixels@.len() == dh * dw,
                ;
            }
            match Image::new(dw, dh, pixels) {
                Some(res) => {
                    proof {
                        assert forall|x: int, y: int| in_bounds(x, y, dw as int, dh as int) implies
                            #[trigger] res.pix(x, y) == resampled(
                            *image,
                            dw as int,
                            dh as int,
                            x,
                            y,
                        ) by {}
                    }
                    res
                },
                None => vstd::pervasive::unreached(),
            }
        }
    }
}

/// A preprocessor that applies no processing at all: the image passes
/// through pixel for pixel, whatever dimensions were asked for.
pub struct NullPreprocessor;

impl NullPreprocessor {
    /// Hands back an unmodified copy of the image.
    pub fn process(&self, image: &Image) -> (res: Image)
        ensures
            res.spec_eq(image),
            res.spec_width() == image.spec_width(),
            res.spec_height() == image.spec_height(),
            res.wf() <==> image.wf(),
            res.same_grid(image),
    {
        let res = image.clone();
        proof {
            lemma_spec_eq_same_grid(&res, image);
        }
        res
    }
}

} // verus!
