//! The files at the root of a package.

pub mod readme;
