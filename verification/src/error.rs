//! Failures the rendering pipeline can surface.

use vstd::prelude::*;

verus! {

/// An error produced while turning an image into text.
#[derive(Clone, Copy, Debug, PartialEq, Eq, Structural)]
pub enum AsciiError {
    /// A zero width or height where a positive dimension is required.
    InvalidDimensions,
    /// An image whose sample layout the pipeline cannot consume.
    UnsupportedFormat,
}

pub type AsciiResult<T> = Result<T, AsciiError>;

} // verus!
