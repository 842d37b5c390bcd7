//! Parsing of input lines.
pub mod line;
