//! Render raster images as text for a terminal.
//!
//! The pipeline has four stages, composed by the caller:
//! a preprocessor normalizes the image to a character-grid resolution
//! ([`preprocess`]), a charset maps brightness to a glyph ([`charset`]), a
//! colorizer maps a pixel to ANSI color escape sequences ([`colorizer`]), and
//! a generator walks the image row by row and assembles the output lines
//! ([`generator`]). Every stage is a pure function of its inputs, and each
//! contract pins the produced characters down exactly.
//!
//! Image decoding, command-line handling and printing are the caller's
//! business; the library works on plain pixel grids ([`raster`]).

pub mod ansi;
pub mod charset;
pub mod colorizer;
pub mod error;
pub mod generator;
pub mod preprocess;
pub mod raster;
