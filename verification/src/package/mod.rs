//! The files of a package: where they lie and what they hold.

pub mod errors;
pub mod outputs;
pub mod paths;
pub mod root;
pub mod source;
