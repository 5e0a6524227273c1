//! The tokens of a parsed program image.

pub mod label;
pub mod line;
pub mod token;
pub mod word;
