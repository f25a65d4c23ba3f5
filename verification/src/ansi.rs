//! ANSI escape sequences for terminal colors.
//!
//! Sequences are built character by character, so their content is stated
//! exactly: a foreground or background code is the escape introducer, the
//! decimal channel values, and the terminating `m`. The 256-color encoder
//! quantizes an RGB triple into the indexed palette: grays land in the
//! 24-step grayscale ramp starting at 232 (near-white, above 253, maps to
//! the pure-white entry 255), everything else in the 6x6x6 color cube
//! starting at 16.

use vstd::prelude::*;
use vstd::arithmetic::div_mod::{lemma_div_denominator, lemma_div_is_ordered, lemma_div_pos_is_pos};
use vstd::string::StringExecFns;

verus! {

/// The decimal digit character for a value in `0..10`.
pub open spec fn digit_char(d: int) -> char {
    if d == 0 {
        '0'
    } else if d == 1 {
        '1'
    } else if d == 2 {
        '2'
    } else if d == 3 {
        '3'
    } else if d == 4 {
        '4'
    } else if d == 5 {
        '5'
    } else if d == 6 {
        '6'
    } else if d == 7 {
        '7'
    } else if d == 8 {
        '8'
    } else {
        '9'
    }
}

/// The decimal representation of a non-negative integer, most significant
/// digit first, without leading zeros.
pub open spec fn dec_digits(n: int) -> Seq<char>
    decreases n,
{
    if n < 10 {
        seq![digit_char(n)]
    } else {
        dec_digits(n / 10).push(digit_char(n % 10))
    }
}

/// The digits of a value below 1000, written out: at most three characters.
proof fn lemma_dec_digits_small(n: int)
    requires
        0 <= n < 1000,
    ensures
        n < 10 ==> dec_digits(n) == seq![digit_char(n)],
        10 <= n < 100 ==> dec_digits(n) == seq![digit_char(n / 10), digit_char(n % 10)],
        100 <= n ==> dec_digits(n) == seq![
            digit_char(n / 100),
            digit_char((n / 10) % 10),
            digit_char(n % 10),
        ],
{
    if 10 <= n < 100 {
        reveal_with_fuel(dec_digits, 2);
        assert(dec_digits(n) =~= seq![digit_char(n / 10), digit_char(n % 10)]);
    } else if 100 <= n {
        reveal_with_fuel(dec_digits, 3);
        lemma_div_denominator(n, 10, 10);
        assert(n / 10 / 10 == n / 100);
        assert(dec_digits(n) =~= seq![
            digit_char(n / 100),
            digit_char((n / 10) % 10),
            digit_char(n % 10),
        ]);
    }
}

/// Relies on `String::push`: appends exactly the given character.
#[verifier::external_body]
pub(crate) fn push_char(s: &mut String, c: char)
    ensures
        final(s)@ == old(s)@.push(c),
{
    s.push(c);
}

fn digit_of(d: u8) -> (c: char)
    requires
        d < 10,
    ensures
        c == digit_char(d as int),
{
    match d {
        0 => '0',
        1 => '1',
        2 => '2',
        3 => '3',
        4 => '4',
        5 => '5',
        6 => '6',
        7 => '7',
        8 => '8',
        _ => '9',
    }
}

/// Appends the decimal digits of `n` to `s`.
fn push_dec_u8(s: &mut String, n: u8)
    ensures
        final(s)@ == old(s)@ + dec_digits(n as int),
{
    proof {
        lemma_dec_digits_small(n as int);
    }
    if n >= 100 {
        push_char(s, digit_of(n / 100));
        push_char(s, digit_of((n / 10) % 10));
        push_char(s, digit_of(n % 10));
        assert(s@ =~= old(s)@ + dec_digits(n as int));
    } else if n >= 10 {
        push_char(s, digit_of(n / 10));
        push_char(s, digit_of(n % 10));
        assert(s@ =~= old(s)@ + dec_digits(n as int));
    } else {
        push_char(s, digit_of(n));
        assert(s@ =~= old(s)@ + dec_digits(n as int));
    }
}

/// The characters of the 24-bit foreground color code for an RGB triple.
pub open spec fn fg_rgb_seq(r: u8, g: u8, b: u8) -> Seq<char> {
    "\x1b[38;2;"@ + dec_digits(r as int) + ";"@ + dec_digits(g as int) + ";"@ + dec_digits(
        b as int,
    ) + "m"@
}

/// The characters of the 24-bit background color code for an RGB triple.
pub open spec fn bg_rgb_seq(r: u8, g: u8, b: u8) -> Seq<char> {
    "\x1b[48;2;"@ + dec_digits(r as int) + ";"@ + dec_digits(g as int) + ";"@ + dec_digits(
        b as int,
    ) + "m"@
}

/// The characters of the reset-all code that ends a half-block line.
pub open spec fn reset_seq() -> Seq<char> {
    "\x1b[0m"@
}

/// Sets the foreground to a direct 24-bit color: `ESC[38;2;<r>;<g>;<b>m`.
pub fn fg_rgb(r: u8, g: u8, b: u8) -> (s: String)
    ensures
        s@ == fg_rgb_seq(r, g, b),
{
    let mut s = String::new();
    s.append("\x1b[38;2;");
    push_dec_u8(&mut s, r);
    s.append(";");
    push_dec_u8(&mut s, g);
    s.append(";");
    push_dec_u8(&mut s, b);
    s.append("m");
    assert(s@ =~= fg_rgb_seq(r, g, b));
    s
}

/// Sets the background to a direct 24-bit color: `ESC[48;2;<r>;<g>;<b>m`.
pub fn bg_rgb(r: u8, g: u8, b: u8) -> (s: String)
    ensures
        s@ == bg_rgb_seq(r, g, b),
{
    let mut s = String::new();
    s.append("\x1b[48;2;");
    push_dec_u8(&mut s, r);
    s.append(";");
    push_dec_u8(&mut s, g);
    s.append(";");
    push_dec_u8(&mut s, b);
    s.append("m");
    assert(s@ =~= bg_rgb_seq(r, g, b));
    s
}

/// The palette index an RGB triple quantizes to in the 256-color scheme.
///
/// A pure gray above 253 maps to the pure-white entry 255; other grays scale
/// linearly into the 24-entry grayscale ramp at 232..=255. Everything else
/// scales each channel to `0..=5` and lands in the 6x6x6 cube at 16..=231.
pub open spec fn ansi256_index(r: u8, g: u8, b: u8) -> int {
    if r == g && g == b {
        if r > 253 {
            255
        } else {
            232 + (r as int) * 24 / 255
        }
    } else {
        16 + 36 * ((r as int) * 5 / 255) + 6 * ((g as int) * 5 / 255) + (b as int) * 5 / 255
    }
}

/// Quantizes an RGB triple to its 256-color palette index.
pub fn rgb_to_256(r: u8, g: u8, b: u8) -> (idx: u8)
    ensures
        idx as int == ansi256_index(r, g, b),
{
    if r == g && g == b {
        if r > 253 {
            return 255;
        }
        // scale the shared channel into the 24-step grayscale ramp
        let gray: u16 = r as u16 * 24 / 255;
        assert(gray <= 23);
        232 + gray as u8
    } else {
        // scale each channel to 6 levels
        let rq: u16 = r as u16 * 5 / 255;
        let gq: u16 = g as u16 * 5 / 255;
        let bq: u16 = b as u16 * 5 / 255;
        assert(rq <= 5 && gq <= 5 && bq <= 5);
        16 + 36 * (rq as u8) + 6 * (gq as u8) + bq as u8
    }
}

/// Gray stays in the grayscale block, and brighter gray never ranks lower:
/// for every pure gray the 256-color index lies within 232..=255, and the
/// index is monotonic in the shared channel value.
pub proof fn lemma_ansi256_gray_monotonic(v1: u8, v2: u8)
    requires
        v1 <= v2,
    ensures
        232 <= ansi256_index(v1, v1, v1) <= 255,
        ansi256_index(v1, v1, v1) <= ansi256_index(v2, v2, v2),
{
    lemma_div_is_ordered(v1 as int * 24, v2 as int * 24, 255);
    if v1 <= 253 {
        lemma_div_is_ordered(v1 as int * 24, 6072, 255);
        lemma_div_pos_is_pos(v1 as int * 24, 255);
    }
}

/// Every non-gray triple stays in the color cube: each channel quantizes to
/// at most five, and the combined index lies within 16..=231.
pub proof fn lemma_ansi256_cube(r: u8, g: u8, b: u8)
    requires
        !(r == g && g == b),
    ensures
        0 <= (r as int) * 5 / 255 <= 5,
        0 <= (g as int) * 5 / 255 <= 5,
        0 <= (b as int) * 5 / 255 <= 5,
        16 <= ansi256_index(r, g, b) <= 231,
{
    lemma_div_is_ordered(r as int * 5, 1275, 255);
    lemma_div_is_ordered(g as int * 5, 1275, 255);
    lemma_div_is_ordered(b as int * 5, 1275, 255);
    lemma_div_pos_is_pos(r as int * 5, 255);
    lemma_div_pos_is_pos(g as int * 5, 255);
    lemma_div_pos_is_pos(b as int * 5, 255);
}

/// The characters of the 256-color foreground code for an RGB triple.
pub open spec fn fg_256_seq(r: u8, g: u8, b: u8) -> Seq<char> {
    "\x1b[38;5;"@ + dec_digits(ansi256_index(r, g, b)) + "m"@
}

/// The characters of the 256-color background code for an RGB triple.
pub open spec fn bg_256_seq(r: u8, g: u8, b: u8) -> Seq<char> {
    "\x1b[48;5;"@ + dec_digits(ansi256_index(r, g, b)) + "m"@
}

/// Sets the foreground to a 256-color palette entry: `ESC[38;5;<idx>m`.
pub fn fg_256(r: u8, g: u8, b: u8) -> (s: String)
    ensures
        s@ == fg_256_seq(r, g, b),
{
    let idx = rgb_to_256(r, g, b);
    let mut s = String::new();
    s.append("\x1b[38;5;");
    push_dec_u8(&mut s, idx);
    s.append("m");
    assert(s@ =~= fg_256_seq(r, g, b));
    s
}

/// Sets the background to a 256-color palette entry: `ESC[48;5;<idx>m`.
pub fn bg_256(r: u8, g: u8, b: u8) -> (s: String)
    ensures
        s@ == bg_256_seq(r, g, b),
{
    let idx = rgb_to_256(r, g, b);
    let mut s = String::new();
    s.append("\x1b[48;5;");
    push_dec_u8(&mut s, idx);
    s.append("m");
    assert(s@ =~= bg_256_seq(r, g, b));
    s
}

} // verus!
