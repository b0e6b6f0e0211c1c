//! Irodori (彩り): a theme and color system built around the Nord palette.
//!
//! The library covers the integer side of color handling: 8-bit sRGB colors,
//! hex parsing and formatting, the Nord palette and the semantic role mapping.

pub mod palette;
pub mod semantic;

pub use palette::{Color, HexParseError, NordPalette};
pub use semantic::SemanticColors;
