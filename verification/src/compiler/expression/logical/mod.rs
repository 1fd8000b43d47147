//! The logical operators.

pub mod and;
