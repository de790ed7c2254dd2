//! Core of a small library of animated loading indicators: validation of
//! caller-supplied `#`-prefixed hex color codes, and the error value that a
//! failed validation carries.
//!
//! The shape renderers that consume a validated color are thin declarative
//! markup around this core and live outside the verified library.

pub mod errors;
pub mod types;
