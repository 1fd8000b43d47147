//! The source files of a package.

pub mod directory;
