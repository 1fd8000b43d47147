//! The operators and the kinds of operands that each accepts.

use vstd::prelude::*;
use crate::compiler::value::Kind;

verus! {

/// An operator of the source language that this crate can evaluate.
#[derive(Clone, Copy, Debug, PartialEq, Eq, Structural)]
pub enum Operator {
    /// The relational `>`.
    Gt,
    /// The logical `&&`.
    And,
}

impl Operator {
    /// The operator as written in source text.
    pub open spec fn symbol_text(self) -> Seq<char> {
        match self {
            Operator::Gt => ">"@,
            Operator::And => "&&"@,
        }
    }

    /// Whether the operator has a gadget for operands of these kinds.
    /// `>` compares two integers; `&&` joins two booleans.
    pub open spec fn supports(self, left: Kind, right: Kind) -> bool {
        match self {
            Operator::Gt => left == Kind::Integer && right == Kind::Integer,
            Operator::And => left == Kind::Boolean && right == Kind::Boolean,
        }
    }

    /// The kind of the value that the operator yields.
    pub open spec fn output_kind(self) -> Kind {
        match self {
            Operator::Gt => Kind::Boolean,
            Operator::And => Kind::Boolean,
        }
    }

    /// The operator as written in source text.
    pub fn symbol(&self) -> (text: &'static str)
        ensures
            text@ == self.symbol_text(),
    {
        match self {
            Operator::Gt => ">",
            Operator::And => "&&",
        }
    }

    /// Tests whether the operator has a gadget for operands of these kinds.
    pub fn is_supported(&self, left: Kind, right: Kind) -> (b: bool)
        ensures
            b == self.supports(left, right),
    {
        match self {
            Operator::Gt => left == Kind::Integer && right == Kind::Integer,
            Operator::And => left == Kind::Boolean && right == Kind::Boolean,
        }
    }

    /// The kind of the value that the operator yields.
    pub fn get_output_kind(&self) -> (kind: Kind)
        ensures
            kind == self.output_kind(),
    {
        match self {
            Operator::Gt => Kind::Boolean,
            Operator::And => Kind::Boolean,
        }
    }
}

} // verus!
