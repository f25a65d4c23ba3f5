//! Preprocessing and line generation, end to end.

use ascii_img2::charset::LinearCharset;
use ascii_img2::colorizer::{Ansi256Colorizer, AnsiRgbColorizer, NullColorizer};
use ascii_img2::generator::{
    Ansi256Generator, AnsiRgbGenerator, CharsetGenerator, HalfBlockGenerator, LuminanceGenerator,
};
use ascii_img2::preprocess::{BasicPreprocessor, NullPreprocessor};
use ascii_img2::raster::{GrayImage, Image, Rgb};

fn gray(v: u8) -> Rgb {
    Rgb { r: v, g: v, b: v }
}

fn image_from(width: u32, height: u32, pixels: Vec<Rgb>) -> Image {
    Image::new(width, height, pixels).expect("pixel count matches dimensions")
}

fn default_charset() -> LinearCharset {
    LinearCharset::new(vec![' ', ';', '#'])
}

#[test]
fn image_new_rejects_wrong_pixel_count() {
    assert!(Image::new(2, 2, vec![gray(0); 3]).is_none());
    assert!(Image::new(2, 2, vec![gray(0); 4]).is_some());
    assert!(GrayImage::new(3, 1, vec![0, 1]).is_none());
    assert!(GrayImage::new(3, 1, vec![0, 1, 2]).is_some());
}

#[test]
fn row_walks_left_to_right() {
    let img = image_from(2, 2, vec![gray(1), gray(2), gray(3), gray(4)]);
    assert_eq!(img.row(0), vec![gray(1), gray(2)]);
    assert_eq!(img.row(1), vec![gray(3), gray(4)]);
}

#[test]
fn preprocess_exact_match_is_identity() {
    let img = image_from(2, 2, vec![gray(0), gray(80), gray(160), gray(240)]);
    let p = BasicPreprocessor { dimensions: (2, 2) };
    assert!(p.process(&img) == img);
}

#[test]
fn preprocess_null_is_identity() {
    let img = image_from(2, 1, vec![gray(1), gray(2)]);
    assert!(NullPreprocessor.process(&img) == img);
}

#[test]
fn preprocess_downscale_nearest() {
    // a 4x4 grid whose pixel at (x, y) carries x in r and y in g
    let mut pixels = Vec::new();
    for y in 0..4u8 {
        for x in 0..4u8 {
            pixels.push(Rgb { r: x, g: y, b: 0 });
        }
    }
    let img = image_from(4, 4, pixels);
    let small = BasicPreprocessor { dimensions: (2, 2) }.process(&img);
    assert_eq!(small.width(), 2);
    assert_eq!(small.height(), 2);
    // destination index d reads source index floor(d * 4 / 2)
    assert_eq!(small.get_pixel(0, 0), Rgb { r: 0, g: 0, b: 0 });
    assert_eq!(small.get_pixel(1, 0), Rgb { r: 2, g: 0, b: 0 });
    assert_eq!(small.get_pixel(0, 1), Rgb { r: 0, g: 2, b: 0 });
    assert_eq!(small.get_pixel(1, 1), Rgb { r: 2, g: 2, b: 0 });
}

#[test]
fn preprocess_upscale_nearest() {
    let img = image_from(1, 2, vec![gray(10), gray(20)]);
    let big = BasicPreprocessor { dimensions: (2, 2) }.process(&img);
    assert_eq!(big.get_pixel(0, 0), gray(10));
    assert_eq!(big.get_pixel(1, 0), gray(10));
    assert_eq!(big.get_pixel(0, 1), gray(20));
    assert_eq!(big.get_pixel(1, 1), gray(20));
}

#[test]
fn preprocess_uneven_downscale() {
    let img = image_from(3, 1, vec![gray(1), gray(2), gray(3)]);
    let out = BasicPreprocessor { dimensions: (2, 1) }.process(&img);
    // floor(0 * 3 / 2) = 0 and floor(1 * 3 / 2) = 1
    assert_eq!(out.get_pixel(0, 0), gray(1));
    assert_eq!(out.get_pixel(1, 0), gray(2));
}

#[test]
fn white_pixel_renders_brightest_glyph() {
    let img = image_from(1, 1, vec![gray(255)]);
    let lines = CharsetGenerator
        .generate(&img, &default_charset(), &NullColorizer)
        .unwrap();
    assert_eq!(lines, vec!["#".to_string()]);
}

#[test]
fn black_pixel_renders_darkest_glyph() {
    let img = image_from(1, 1, vec![gray(0)]);
    let lines = CharsetGenerator
        .generate(&img, &default_charset(), &NullColorizer)
        .unwrap();
    assert_eq!(lines, vec![" ".to_string()]);
}

#[test]
fn half_block_two_rows_one_line() {
    let img = image_from(2, 2, vec![gray(255), gray(255), gray(0), gray(0)]);
    let lines = HalfBlockGenerator
        .generate(&img, &default_charset(), &AnsiRgbColorizer)
        .unwrap();
    let cell = "\x1b[38;2;255;255;255m\x1b[48;2;0;0;0m\u{2580}";
    assert_eq!(lines, vec![format!("{cell}{cell}\x1b[0m")]);
}

#[test]
fn half_block_odd_height_duplicates_last_row() {
    let img = image_from(1, 3, vec![gray(10), gray(20), gray(30)]);
    let lines = HalfBlockGenerator
        .generate(&img, &default_charset(), &AnsiRgbColorizer)
        .unwrap();
    assert_eq!(lines.len(), 2);
    assert_eq!(
        lines[0],
        "\x1b[38;2;10;10;10m\x1b[48;2;20;20;20m\u{2580}\x1b[0m"
    );
    // the unpaired last row doubles as its own background
    assert_eq!(
        lines[1],
        "\x1b[38;2;30;30;30m\x1b[48;2;30;30;30m\u{2580}\x1b[0m"
    );
}

#[test]
fn line_counts_match_dimensions() {
    let img = image_from(3, 5, vec![gray(100); 15]);
    let cs = default_charset();
    let charset_lines = CharsetGenerator.generate(&img, &cs, &NullColorizer).unwrap();
    assert_eq!(charset_lines.len(), 5);
    let half_lines = HalfBlockGenerator.generate(&img, &cs, &NullColorizer).unwrap();
    assert_eq!(half_lines.len(), 3);
    let even = image_from(3, 4, vec![gray(100); 12]);
    assert_eq!(
        HalfBlockGenerator.generate(&even, &cs, &NullColorizer).unwrap().len(),
        2
    );
}

#[test]
fn zero_height_yields_no_lines() {
    let img = image_from(3, 0, vec![]);
    let cs = default_charset();
    assert!(CharsetGenerator.generate(&img, &cs, &NullColorizer).unwrap().is_empty());
    assert!(HalfBlockGenerator.generate(&img, &cs, &NullColorizer).unwrap().is_empty());
}

#[test]
fn zero_width_yields_empty_lines() {
    let img = image_from(0, 2, vec![]);
    let cs = default_charset();
    let lines = CharsetGenerator.generate(&img, &cs, &NullColorizer).unwrap();
    assert_eq!(lines, vec![String::new(), String::new()]);
    let half = HalfBlockGenerator.generate(&img, &cs, &NullColorizer).unwrap();
    assert_eq!(half, vec!["\x1b[0m".to_string()]);
}

#[test]
fn generation_is_deterministic() {
    let mut pixels = Vec::new();
    for i in 0..12u8 {
        pixels.push(Rgb { r: i * 7, g: 200 - i * 9, b: i });
    }
    let img = image_from(4, 3, pixels);
    let cs = default_charset();
    let a = Ansi256Generator.generate(&img, &cs).unwrap();
    let b = Ansi256Generator.generate(&img, &cs).unwrap();
    assert_eq!(a, b);
    let c = HalfBlockGenerator.generate(&img, &cs, &Ansi256Colorizer).unwrap();
    let d = HalfBlockGenerator.generate(&img, &cs, &Ansi256Colorizer).unwrap();
    assert_eq!(c, d);
}

#[test]
fn rgb_generator_prepends_truecolor_code() {
    let img = image_from(1, 1, vec![Rgb { r: 10, g: 20, b: 30 }]);
    let lines = AnsiRgbGenerator.generate(&img, &default_charset()).unwrap();
    // luminance 60/765 lands in the darkest bucket
    assert_eq!(lines, vec!["\x1b[38;2;10;20;30m ".to_string()]);
}

#[test]
fn indexed_generator_prepends_palette_code() {
    let img = image_from(1, 1, vec![Rgb { r: 255, g: 0, b: 0 }]);
    let lines = Ansi256Generator.generate(&img, &default_charset()).unwrap();
    // luminance 255/765 lands in the middle bucket
    assert_eq!(lines, vec!["\x1b[38;5;196m;".to_string()]);
}

#[test]
fn luminance_generator_renders_gray_samples() {
    let img = GrayImage::new(3, 1, vec![0, 128, 255]).unwrap();
    let lines = LuminanceGenerator.generate(&img, &default_charset()).unwrap();
    assert_eq!(lines, vec![" ;#".to_string()]);
}

#[test]
fn pipeline_resize_then_generate() {
    // white above black, squeezed to one column and rendered monochrome
    let img = image_from(2, 2, vec![gray(255), gray(255), gray(0), gray(0)]);
    let small = BasicPreprocessor { dimensions: (1, 2) }.process(&img);
    let lines = CharsetGenerator
        .generate(&small, &default_charset(), &NullColorizer)
        .unwrap();
    assert_eq!(lines, vec!["#".to_string(), " ".to_string()]);
}
