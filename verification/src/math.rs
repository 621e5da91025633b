//! Number-theoretic helpers.

pub mod modular_arithmetic;
