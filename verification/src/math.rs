//! Arithmetic that the hash functions are built from.

pub mod field;
pub mod matrix;
