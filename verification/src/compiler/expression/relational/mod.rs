//! The relational operators.

pub mod gt;
