//! Frame-accurate perceptual quality comparison between two video streams.
//!
//! The crate holds the decision core of the comparison engine: colorimetry
//! inference and parsing, the shared frame-pair cursor with its skip and
//! window arithmetic, ordered aggregation of out-of-order score records, and
//! the CSV form of the ordered score series.  Decoding, the perceptual metric
//! itself, statistics over floating-point scores and all rendering are left
//! to the surrounding application.

pub mod aggregate;
pub mod color;
pub mod csv;
pub mod cursor;
pub mod decoder;
pub mod engine;
pub mod error;
pub mod parse;
pub mod text;
