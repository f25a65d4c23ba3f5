//! Text-grid generators.
//!
//! A generator walks a normalized image in row-major order, left to right and
//! top to bottom, consulting a [`Charset`] and a [`Colorizer`] per pixel, and
//! assembles one output `String` per text row. Two algorithms exist: the
//! charset generators emit one glyph per pixel, one line per image row; the
//! half-block generator pairs two image rows per line, using the upper half
//! block glyph with the top pixel as foreground and the bottom pixel as
//! background.
//!
//! Each generator's contract gives the exact characters of every line as a
//! function of the image, so generation is deterministic by construction;
//! the determinism lemmas at the end state that explicitly.

use vstd::prelude::*;
use vstd::arithmetic::div_mod::{lemma_div_multiples_vanish, lemma_div_multiples_vanish_fancy};
use vstd::string::StringExecFns;
use crate::ansi::{push_char, reset_seq};
use crate::charset::Charset;
use crate::colorizer::{Ansi256Colorizer, AnsiRgbColorizer, Colorizer};
use crate::error::AsciiError;
use crate::raster::{GrayImage, Image, Rgb};

verus! {

/// The luminance numerator of an RGB pixel: the sum of its channels.
///
/// Together with the denominator [`LUM_DEN`] this is the unweighted average
/// of the three channels, each normalized to the unit interval — the exact
/// rational `(r + g + b) / (3 * 255)`.
pub open spec fn lum_num(p: Rgb) -> int {
    p.r + p.g + p.b
}

/// The luminance denominator of an RGB pixel: `3 * 255`.
pub const LUM_DEN: u32 = 765;

/// The characters one pixel contributes to a charset-generator line: the
/// colorizer's foreground code, then the character for the pixel's luminance.
pub open spec fn charset_cell<C: Charset, K: Colorizer>(charset: C, colorizer: K, p: Rgb) -> Seq<
    char,
> {
    colorizer.fg_spec(p) + seq![charset.char_at(lum_num(p), LUM_DEN as int)]
}

/// The first `x` cells of charset-generator output row `y`.
pub open spec fn charset_line_prefix<C: Charset, K: Colorizer>(
    img: Image,
    charset: C,
    colorizer: K,
    y: int,
    x: int,
) -> Seq<char>
    decreases x,
{
    if x <= 0 {
        Seq::empty()
    } else {
        charset_line_prefix(img, charset, colorizer, y, x - 1) + charset_cell(
            charset,
            colorizer,
            img.pix(x - 1, y),
        )
    }
}

/// Charset-generator output row `y`, whole.
pub open spec fn charset_line<C: Charset, K: Colorizer>(
    img: Image,
    charset: C,
    colorizer: K,
    y: int,
) -> Seq<char> {
    charset_line_prefix(img, charset, colorizer, y, img.spec_width())
}

/// The charset-based generator: per pixel, the colorizer's foreground code
/// and one glyph chosen by luminance; one output line per image row.
pub struct CharsetGenerator;

impl CharsetGenerator {
    /// Walks the image row-major and renders one line per row.
    ///
    /// A zero-height image yields no lines and a zero-width image empty
    /// lines; the call never fails.
    pub fn generate<C: Charset, K: Colorizer>(
        &self,
        image: &Image,
        charset: &C,
        colorizer: &K,
    ) -> (res: Result<Vec<String>, AsciiError>)
        requires
            image.wf(),
            charset.wf(),
        ensures
            res matches Ok(lines) && lines@.len() == image.spec_height() && (forall|y: int|
                0 <= y < image.spec_height() ==> (#[trigger] lines@[y])@ == charset_line(
                    *image,
                    *charset,
                    *colorizer,
                    y,
                )),
    {
        let w = image.width();
        let h = image.height();
        let mut lines: Vec<String> = Vec::new();
        let mut y: u32 = 0;
        while y < h
            invariant
                image.wf(),
                charset.wf(),
                w == image.spec_width(),
                h == image.spec_height(),
                0 <= y <= h,
                lines@.len() == y,
                forall|i: int|
                    0 <= i < y ==> (#[trigger] lines@[i])@ == charset_line(
                        *image,
                        *charset,
                        *colorizer,
                        i,
                    ),
            decreases h - y,
        {
            let mut line = String::new();
            let mut x: u32 = 0;
            while x < w
                invariant
                    image.wf(),
                    charset.wf(),
                    w == image.spec_width(),
                    h == image.spec_height(),
                    y < h,
                    0 <= x <= w,
                    line@ == charset_line_prefix(*image, *charset, *colorizer, y as int, x as int),
                decreases w - x,
            {
                let p = image.get_pixel(x, y);
                let fg = colorizer.fg(&p);
                line.append(fg.as_str());
                let sum: u32 = p.r as u32 + p.g as u32 + p.b as u32;
                let c = charset.map(sum, LUM_DEN);
                push_char(&mut line, c);
                assert(line@ =~= charset_line_prefix(
                    *image,
                    *charset,
                    *colorizer,
                    y as int,
                    x as int + 1,
                ));
                x += 1;
            }
            lines.push(line);
            y += 1;
        }
        Ok(lines)
    }
}

/// The first `x` characters of grayscale-generator output row `y`: one glyph
/// per sample, no color codes.
pub open spec fn gray_line_prefix<C: Charset>(
    img: GrayImage,
    charset: C,
    y: int,
    x: int,
) -> Seq<char>
    decreases x,
{
    if x <= 0 {
        Seq::empty()
    } else {
        gray_line_prefix(img, charset, y, x - 1) + seq![
            charset.char_at(img.pix(x - 1, y) as int, 255),
        ]
    }
}

/// Grayscale-generator output row `y`, whole.
pub open spec fn gray_line<C: Charset>(img: GrayImage, charset: C, y: int) -> Seq<char> {
    gray_line_prefix(img, charset, y, img.spec_width())
}

/// The generator for grayscale images: one glyph per sample, chosen by the
/// sample's luminance `value / 255`, without color codes.
pub struct LuminanceGenerator;

impl LuminanceGenerator {
    /// Walks the image row-major and renders one line per row.
    ///
    /// A zero-height image yields no lines and a zero-width image empty
    /// lines; the call never fails.
    pub fn generate<C: Charset>(&self, image: &GrayImage, charset: &C) -> (res: Result<
        Vec<String>,
        AsciiError,
    >)
        requires
            image.wf(),
            charset.wf(),
        ensures
            res matches Ok(lines) && lines@.len() == image.spec_height() && (forall|y: int|
                0 <= y < image.spec_height() ==> (#[trigger] lines@[y])@ == gray_line(
                    *image,
                    *charset,
                    y,
                )),
    {
        let w = image.width();
        let h = image.height();
        let mut lines: Vec<String> = Vec::new();
        let mut y: u32 = 0;
        while y < h
            invariant
                image.wf(),
                charset.wf(),
                w == image.spec_width(),
                h == image.spec_height(),
                0 <= y <= h,
                lines@.len() == y,
                forall|i: int|
                    0 <= i < y ==> (#[trigger] lines@[i])@ == gray_line(*image, *charset, i),
            decreases h - y,
        {
            let mut line = String::new();
            let mut x: u32 = 0;
            while x < w
                invariant
                    image.wf(),
                    charset.wf(),
                    w == image.spec_width(),
                    h == image.spec_height(),
                    y < h,
                    0 <= x <= w,
                    line@ == gray_line_prefix(*image, *charset, y as int, x as int),
                decreases w - x,
            {
                let p = image.get_pixel(x, y);
                let c = charset.map(p as u32, 255);
                push_char(&mut line, c);
                assert(line@ =~= gray_line_prefix(*image, *charset, y as int, x as int + 1));
                x += 1;
            }
            lines.push(line);
            y += 1;
        }
        Ok(lines)
    }
}

/// A charset generator that colors every glyph with a 24-bit foreground code.
pub struct AnsiRgbGenerator;

impl AnsiRgbGenerator {
    /// [`CharsetGenerator::generate`] with the truecolor colorizer built in.
    pub fn generate<C: Charset>(&self, image: &Image, charset: &C) -> (res: Result<
        Vec<String>,
        AsciiError,
    >)
        requires
            image.wf(),
            charset.wf(),
        ensures
            res matches Ok(lines) && lines@.len() == image.spec_height() && (forall|y: int|
                0 <= y < image.spec_height() ==> (#[trigger] lines@[y])@ == charset_line(
                    *image,
                    *charset,
                    (AnsiRgbColorizer {  }),
                    y,
                )),
    {
        CharsetGenerator.generate(image, charset, &AnsiRgbColorizer)
    }
}

/// A charset generator that colors every glyph with a 256-color foreground
/// code.
pub struct Ansi256Generator;

impl Ansi256Generator {
    /// [`CharsetGenerator::generate`] with the 256-color colorizer built in.
    pub fn generate<C: Charset>(&self, image: &Image, charset: &C) -> (res: Result<
        Vec<String>,
        AsciiError,
    >)
        requires
            image.wf(),
            charset.wf(),
        ensures
            res matches Ok(lines) && lines@.len() == image.spec_height() && (forall|y: int|
                0 <= y < image.spec_height() ==> (#[trigger] lines@[y])@ == charset_line(
                    *image,
                    *charset,
                    (Ansi256Colorizer {  }),
                    y,
                )),
    {
        CharsetGenerator.generate(image, charset, &Ansi256Colorizer)
    }
}

/// The source row giving the background (bottom) sample of output row `y`:
/// the partner of row `2 * y`, or row `2 * y` itself again when the image
/// height is odd and the last row has no partner.
pub open spec fn bottom_row(y: int, height: int) -> int {
    if 2 * y + 1 < height {
        2 * y + 1
    } else {
        2 * y
    }
}

/// The characters one column contributes to a half-block line: foreground
/// code for the top pixel, background code for the bottom pixel, and the
/// upper half block glyph.
pub open spec fn half_cell<K: Colorizer>(colorizer: K, top: Rgb, bottom: Rgb) -> Seq<char> {
    colorizer.fg_spec(top) + colorizer.bg_spec(bottom) + seq!['\u{2580}']
}

/// The first `x` cells of half-block output row `y`.
pub open spec fn half_line_prefix<K: Colorizer>(
    img: Image,
    colorizer: K,
    y: int,
    x: int,
) -> Seq<char>
    decreases x,
{
    if x <= 0 {
        Seq::empty()
    } else {
        half_line_prefix(img, colorizer, y, x - 1) + half_cell(
            colorizer,
            img.pix(x - 1, 2 * y),
            img.pix(x - 1, bottom_row(y, img.spec_height())),
        )
    }
}

/// Half-block output row `y`, whole: the cells, then a reset-all code so
/// color state does not leak past the line.
pub open spec fn half_line<K: Colorizer>(img: Image, colorizer: K, y: int) -> Seq<char> {
    half_line_prefix(img, colorizer, y, img.spec_width()) + reset_seq()
}

/// Rounding up to half: `h / 2 + h % 2` is the ceiling of `h / 2`.
proof fn lemma_ceil_half(h: int)
    requires
        0 <= h,
    ensures
        h / 2 + h % 2 == (h + 1) / 2,
        2 * ((h + 1) / 2) <= h + 1,
{
    if h % 2 == 0 {
        lemma_div_multiples_vanish_fancy(h / 2, 1, 2);
        assert(2 * (h / 2) + 1 == h + 1);
    } else {
        lemma_div_multiples_vanish(h / 2 + 1, 2);
        assert(2 * (h / 2 + 1) == h + 1);
    }
}

/// The half-block generator: pairs consecutive image rows into one output
/// line, the top pixel colored as foreground and the bottom as background of
/// the upper half block glyph.
pub struct HalfBlockGenerator;

impl HalfBlockGenerator {
    /// Renders one line per pair of image rows, `ceil(height / 2)` in all;
    /// an odd image height duplicates the last row as its own partner.
    ///
    /// The charset is accepted for interface uniformity with the other
    /// generators and deliberately unused: the glyph is fixed. A zero-height
    /// image yields no lines and a zero-width image lines holding only the
    /// reset code; the call never fails.
    pub fn generate<C: Charset, K: Colorizer>(
        &self,
        image: &Image,
        _charset: &C,
        colorizer: &K,
    ) -> (res: Result<Vec<String>, AsciiError>)
        requires
            image.wf(),
        ensures
            res matches Ok(lines) && lines@.len() == (image.spec_height() + 1) / 2 && (forall|
                y: int,
            |
                0 <= y < (image.spec_height() + 1) / 2 ==> (#[trigger] lines@[y])@ == half_line(
                    *image,
                    *colorizer,
                    y,
                )),
    {
        let w = image.width();
        let h = image.height();
        proof {
            lemma_ceil_half(h as int);
        }
        let nlines: u32 = h / 2 + h % 2;
        let mut lines: Vec<String> = Vec::new();
        let mut yo: u32 = 0;
        while yo < nlines
            invariant
                image.wf(),
                w == image.spec_width(),
                h == image.spec_height(),
                nlines == (h as int + 1) / 2,
                2 * (nlines as int) <= h as int + 1,
                0 <= yo <= nlines,
                lines@.len() == yo,
                forall|i: int|
                    0 <= i < yo ==> (#[trigger] lines@[i])@ == half_line(*image, *colorizer, i),
            decreases nlines - yo,
        {
            let top: u32 = 2 * yo;
            let bot: u32 = if top < h - 1 {
                top + 1
            } else {
                top
            };
            assert(bot as int == bottom_row(yo as int, h as int));
            let mut line = String::new();
            let mut x: u32 = 0;
            while x < w
                invariant
                    image.wf(),
                    w == image.spec_width(),
                    h == image.spec_height(),
                    top == 2 * yo,
                    top < h,
                    bot as int == bottom_row(yo as int, h as int),
                    bot < h,
                    0 <= x <= w,
                    line@ == half_line_prefix(*image, *colorizer, yo as int, x as int),
                decreases w - x,
            {
                let p_top = image.get_pixel(x, top);
                let p_bot = image.get_pixel(x, bot);
                let fg = colorizer.fg(&p_top);
                line.append(fg.as_str());
                let bg = colorizer.bg(&p_bot);
                line.append(bg.as_str());
                push_char(&mut line, '\u{2580}');
                assert(line@ =~= half_line_prefix(*image, *colorizer, yo as int, x as int + 1));
                x += 1;
            }
            line.append("\x1b[0m");
            assert(line@ =~= half_line(*image, *colorizer, yo as int));
            lines.push(line);
            yo += 1;
        }
        Ok(lines)
    }
}

/// Generation is deterministic: any two charset-generator grids over the same
/// image, charset and colorizer hold the same characters, line for line.
pub proof fn lemma_charset_generate_deterministic<C: Charset, K: Colorizer>(
    img: Image,
    charset: C,
    colorizer: K,
    a: Seq<Seq<char>>,
    b: Seq<Seq<char>>,
)
    requires
        a.len() == img.spec_height(),
        b.len() == img.spec_height(),
        forall|y: int|
            0 <= y < img.spec_height() ==> a[y] == charset_line(img, charset, colorizer, y),
        forall|y: int|
            0 <= y < img.spec_height() ==> b[y] == charset_line(img, charset, colorizer, y),
    ensures
        a == b,
{
    assert(a =~= b);
}

/// Generation is deterministic for the half-block generator as well.
pub proof fn lemma_half_block_generate_deterministic<K: Colorizer>(
    img: Image,
    colorizer: K,
    a: Seq<Seq<char>>,
    b: Seq<Seq<char>>,
)
    requires
        a.len() == (img.spec_height() + 1) / 2,
        b.len() == (img.spec_height() + 1) / 2,
        forall|y: int|
            0 <= y < (img.spec_height() + 1) / 2 ==> a[y] == half_line(img, colorizer, y),
        forall|y: int|
            0 <= y < (img.spec_height() + 1) / 2 ==> b[y] == half_line(img, colorizer, y),
    ensures
        a == b,
{
    assert(a =~= b);
}

} // verus!
