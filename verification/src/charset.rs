//! Brightness-to-character mapping.
//!
//! A charset is an ordered, non-empty ramp of characters spanning luminance
//! zero (darkest) to one (brightest). Luminance is handled as an exact
//! rational `num / den`, so the bucket arithmetic is integer arithmetic and
//! the tie-break is pinned down: the ramp index is
//! `round(clamp(num / den, 0, 1) * (len - 1))` with halves rounded away from
//! zero.

use vstd::prelude::*;
use vstd::arithmetic::div_mod::{
    lemma_basic_div, lemma_div_is_ordered, lemma_div_multiples_vanish_fancy, lemma_div_pos_is_pos,
};
use vstd::arithmetic::mul::{lemma_mul_inequality, lemma_mul_nonnegative, lemma_mul_upper_bound};

verus! {

/// The ramp index luminance `num / den` selects among `n` characters:
/// `round(clamp(num / den, 0, 1) * (n - 1))`, halves rounded away from zero.
///
/// The luminance is clamped to at most one, scaled over the `n` equal-width
/// brightness buckets, and rounded: `(2 * c * (n - 1) + den) / (2 * den)` is
/// exactly `c * (n - 1) / den` rounded half-up, which for non-negative values
/// is round-half-away-from-zero.
pub open spec fn char_index(num: int, den: int, n: int) -> int {
    let c = if num > den {
        den
    } else {
        num
    };
    (2 * c * (n - 1) + den) / (2 * den)
}

/// A linear map never leaves the ramp: for every luminance and every ramp
/// size, the index is within `0 .. n`; luminance zero selects the first
/// character and luminance one (or anything above it) the last.
pub proof fn lemma_char_index_range(num: int, den: int, n: int)
    requires
        0 <= num,
        0 < den,
        1 <= n,
    ensures
        0 <= char_index(num, den, n) < n,
        num == 0 ==> char_index(num, den, n) == 0,
        num >= den ==> char_index(num, den, n) == n - 1,
{
    let c = if num > den {
        den
    } else {
        num
    };
    lemma_mul_nonnegative(2 * c, n - 1);
    lemma_div_pos_is_pos(2 * c * (n - 1) + den, 2 * den);
    lemma_mul_inequality(2 * c, 2 * den, n - 1);
    lemma_div_is_ordered(2 * c * (n - 1) + den, 2 * den * (n - 1) + den, 2 * den);
    lemma_div_multiples_vanish_fancy(n - 1, den, 2 * den);
    assert(2 * den * (n - 1) + den == (2 * den) * (n - 1) + den);
    if num == 0 {
        lemma_basic_div(den, 2 * den);
    }
}

/// A brightness-to-character strategy.
///
/// Luminance is the exact rational `num / den`; what character a strategy
/// yields for it is its `char_at` function, and `map` computes exactly that.
pub trait Charset: Sized {
    /// The strategy is fit to use: for a ramp, at least one character.
    spec fn wf(&self) -> bool;

    /// The character this charset yields for luminance `num / den`.
    spec fn char_at(&self, num: int, den: int) -> char;

    /// Maps luminance `num / den` to a character. A numerator above the
    /// denominator means a luminance above one and is clamped before mapping.
    fn map(&self, num: u32, den: u32) -> (c: char)
        requires
            self.wf(),
            den > 0,
        ensures
            c == self.char_at(num as int, den as int),
    ;
}

/// A character set where all characters are uniformly distributed across the
/// luminance range.
pub struct LinearCharset {
    chars: Vec<char>,
}

impl LinearCharset {
    /// The ordered ramp, darkest character first.
    pub closed spec fn ramp(&self) -> Seq<char> {
        self.chars@
    }

    pub fn new(chars: Vec<char>) -> (cs: LinearCharset)
        ensures
            cs.ramp() == chars@,
    {
        LinearCharset { chars }
    }
}

impl Charset for LinearCharset {
    /// A ramp must be non-empty, or there is nothing to map to.
    open spec fn wf(&self) -> bool {
        self.ramp().len() >= 1
    }

    open spec fn char_at(&self, num: int, den: int) -> char {
        self.ramp()[char_index(num, den, self.ramp().len() as int)]
    }

    fn map(&self, num: u32, den: u32) -> (c: char) {
        let n: usize = self.chars.len();
        let cl: u128 = if num > den {
            den as u128
        } else {
            num as u128
        };
        proof {
            lemma_char_index_range(num as int, den as int, n as int);
            lemma_mul_upper_bound(
                2 * (cl as int),
                2 * (u32::MAX as int),
                n - 1,
                usize::MAX as int,
            );
        }
        let idx: u128 = (2 * cl * ((n - 1) as u128) + den as u128) / (2 * (den as u128));
        assert(idx == char_index(num as int, den as int, n as int));
        self.chars[idx as usize]
    }
}

} // verus!
