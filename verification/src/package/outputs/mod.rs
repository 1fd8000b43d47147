//! The build outputs of a package.

pub mod checksum;
