//! Constraint synthesis for operator expressions, and the package files that
//! surround a compilation.

pub mod compiler;
pub mod package;
