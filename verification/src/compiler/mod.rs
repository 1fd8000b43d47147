//! The expression-evaluation core: values, namespaces, gadget dispatch and
//! the operator evaluators.

pub mod text;
pub mod value;
pub mod span;
pub mod namespace;
pub mod errors;
pub mod operator;
pub mod backend;
pub mod circuit;
pub mod expression;
