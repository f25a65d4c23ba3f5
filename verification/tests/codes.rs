//! Character mapping and ANSI escape encoding.

use ascii_img2::ansi::{bg_256, bg_rgb, fg_256, fg_rgb, rgb_to_256};
use ascii_img2::charset::{Charset, LinearCharset};
use ascii_img2::colorizer::{Ansi256Colorizer, AnsiRgbColorizer, Colorizer, NullColorizer};
use ascii_img2::raster::Rgb;

#[test]
fn map_boundaries() {
    let cs = LinearCharset::new(vec![' ', ';', '#']);
    assert_eq!(cs.map(0, 765), ' ');
    assert_eq!(cs.map(765, 765), '#');
    // the documented doctest values: 0.0, 0.5, 1.0 over a three-step ramp
    let cs2 = LinearCharset::new(vec![' ', ';', '&']);
    assert_eq!(cs2.map(0, 2), ' ');
    assert_eq!(cs2.map(1, 2), ';');
    assert_eq!(cs2.map(2, 2), '&');
}

#[test]
fn map_clamps_above_one() {
    let cs = LinearCharset::new(vec![' ', ';', '#']);
    assert_eq!(cs.map(1000, 765), '#');
    assert_eq!(cs.map(u32::MAX, 1), '#');
}

#[test]
fn map_rounds_half_away_from_zero() {
    // luminance 1/4 scaled over two buckets is exactly 0.5: rounds up
    let cs = LinearCharset::new(vec![' ', ';', '#']);
    assert_eq!(cs.map(1, 4), ';');
    // luminance 3/4 scaled is 1.5: rounds up to the last character
    assert_eq!(cs.map(3, 4), '#');
}

#[test]
fn map_single_character_ramp() {
    let cs = LinearCharset::new(vec!['x']);
    assert_eq!(cs.map(0, 765), 'x');
    assert_eq!(cs.map(765, 765), 'x');
}

#[test]
fn fg_rgb_code() {
    assert_eq!(fg_rgb(1, 2, 3), "\x1b[38;2;1;2;3m");
    assert_eq!(fg_rgb(255, 0, 128), "\x1b[38;2;255;0;128m");
    assert_eq!(fg_rgb(0, 0, 0), "\x1b[38;2;0;0;0m");
}

#[test]
fn bg_rgb_code() {
    assert_eq!(bg_rgb(1, 2, 3), "\x1b[48;2;1;2;3m");
    assert_eq!(bg_rgb(12, 34, 56), "\x1b[48;2;12;34;56m");
}

#[test]
fn quantize_grayscale_ramp() {
    assert_eq!(rgb_to_256(0, 0, 0), 232);
    assert_eq!(rgb_to_256(128, 128, 128), 244);
    assert_eq!(rgb_to_256(253, 253, 253), 255);
    assert_eq!(rgb_to_256(254, 254, 254), 255);
    assert_eq!(rgb_to_256(255, 255, 255), 255);
}

#[test]
fn quantize_grayscale_monotonic() {
    let mut prev = rgb_to_256(0, 0, 0);
    for v in 1..=255u8 {
        let idx = rgb_to_256(v, v, v);
        assert!(idx >= prev);
        assert!((232..=255).contains(&idx));
        prev = idx;
    }
}

#[test]
fn quantize_color_cube() {
    assert_eq!(rgb_to_256(255, 0, 0), 196);
    assert_eq!(rgb_to_256(0, 0, 255), 21);
    assert_eq!(rgb_to_256(10, 20, 30), 16);
    assert_eq!(rgb_to_256(100, 150, 200), 67);
    assert_eq!(rgb_to_256(255, 255, 254), 230);
}

#[test]
fn quantize_color_cube_in_range() {
    for r in [0u8, 3, 77, 128, 200, 255] {
        for g in [0u8, 51, 102, 204, 255] {
            for b in [1u8, 64, 130, 255] {
                if !(r == g && g == b) {
                    let idx = rgb_to_256(r, g, b);
                    assert!((16..=231).contains(&idx));
                }
            }
        }
    }
}

#[test]
fn fg_256_code() {
    assert_eq!(fg_256(255, 0, 0), "\x1b[38;5;196m");
    assert_eq!(fg_256(0, 0, 0), "\x1b[38;5;232m");
}

#[test]
fn bg_256_code() {
    assert_eq!(bg_256(0, 0, 255), "\x1b[48;5;21m");
    assert_eq!(bg_256(255, 255, 255), "\x1b[48;5;255m");
}

#[test]
fn null_colorizer_emits_nothing() {
    let p = Rgb { r: 255, g: 0, b: 255 };
    assert_eq!(NullColorizer.fg(&p), "");
    assert_eq!(NullColorizer.bg(&p), "");
}

#[test]
fn rgb_colorizer_codes() {
    let p = Rgb { r: 9, g: 8, b: 7 };
    assert_eq!(AnsiRgbColorizer.fg(&p), "\x1b[38;2;9;8;7m");
    assert_eq!(AnsiRgbColorizer.bg(&p), "\x1b[48;2;9;8;7m");
}

#[test]
fn indexed_colorizer_codes() {
    let p = Rgb { r: 255, g: 0, b: 0 };
    assert_eq!(Ansi256Colorizer.fg(&p), "\x1b[38;5;196m");
    assert_eq!(Ansi256Colorizer.bg(&p), "\x1b[48;5;196m");
}
