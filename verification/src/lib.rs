//! A small numeric and geometric utility toolkit: grid-coordinate
//! enumeration, modular arithmetic, interval-intersection classification,
//! and line parsing helpers.

pub mod collections;
pub mod math;
pub mod ops;
pub mod parser;
