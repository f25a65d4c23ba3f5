//! Pixel-to-color-code strategies.
//!
//! A colorizer turns an RGB pixel into the escape sequences that set the
//! foreground or background color of the characters that follow, or into
//! nothing at all for monochrome output. All three variants are stateless;
//! the exact characters each one emits are fixed by its `fg_spec` and
//! `bg_spec` functions.

use vstd::prelude::*;
use crate::ansi;
use crate::raster::Rgb;

verus! {

/// Converts a pixel to a string that controls the color of terminal output.
pub trait Colorizer: Sized {
    /// The characters `fg` emits for a pixel.
    spec fn fg_spec(&self, pixel: Rgb) -> Seq<char>;

    /// The characters `bg` emits for a pixel.
    spec fn bg_spec(&self, pixel: Rgb) -> Seq<char>;

    /// Converts a pixel to a string that controls the color of the character
    /// being printed.
    fn fg(&self, pixel: &Rgb) -> (s: String)
        ensures
            s@ == self.fg_spec(*pixel),
    ;

    /// Converts a pixel to a string that controls the color of the
    /// character's background.
    fn bg(&self, pixel: &Rgb) -> (s: String)
        ensures
            s@ == self.bg_spec(*pixel),
    ;
}

/// Emits no color codes at all: monochrome output.
pub struct NullColorizer;

impl Colorizer for NullColorizer {
    open spec fn fg_spec(&self, pixel: Rgb) -> Seq<char> {
        Seq::empty()
    }

    open spec fn bg_spec(&self, pixel: Rgb) -> Seq<char> {
        Seq::empty()
    }

    fn fg(&self, pixel: &Rgb) -> (s: String) {
        String::new()
    }

    fn bg(&self, pixel: &Rgb) -> (s: String) {
        String::new()
    }
}

/// Emits 24-bit (truecolor) codes carrying the channel values verbatim.
pub struct AnsiRgbColorizer;

impl Colorizer for AnsiRgbColorizer {
    open spec fn fg_spec(&self, pixel: Rgb) -> Seq<char> {
        ansi::fg_rgb_seq(pixel.r, pixel.g, pixel.b)
    }

    open spec fn bg_spec(&self, pixel: Rgb) -> Seq<char> {
        ansi::bg_rgb_seq(pixel.r, pixel.g, pixel.b)
    }

    fn fg(&self, pixel: &Rgb) -> (s: String) {
        ansi::fg_rgb(pixel.r, pixel.g, pixel.b)
    }

    fn bg(&self, pixel: &Rgb) -> (s: String) {
        ansi::bg_rgb(pixel.r, pixel.g, pixel.b)
    }
}

/// Emits 256-color codes: each pixel quantized to its palette index.
pub struct Ansi256Colorizer;

impl Colorizer for Ansi256Colorizer {
    open spec fn fg_spec(&self, pixel: Rgb) -> Seq<char> {
        ansi::fg_256_seq(pixel.r, pixel.g, pixel.b)
    }

    open spec fn bg_spec(&self, pixel: Rgb) -> Seq<char> {
        ansi::bg_256_seq(pixel.r, pixel.g, pixel.b)
    }

    fn fg(&self, pixel: &Rgb) -> (s: String) {
        ansi::fg_256(pixel.r, pixel.g, pixel.b)
    }

    fn bg(&self, pixel: &Rgb) -> (s: String) {
        ansi::bg_256(pixel.r, pixel.g, pixel.b)
    }
}

} // verus!
