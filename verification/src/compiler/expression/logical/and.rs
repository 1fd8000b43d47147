//! Enforces a logical `&&` operator.

use vstd::prelude::*;
use crate::compiler::circuit::Circuit;
use crate::compiler::errors::CompilerError;
use crate::compiler::expression::allocate_scope;
use crate::compiler::expression::conclude;
use crate::compiler::expression::evaluation;
use crate::compiler::expression::lemma_scope_name_plain;
use crate::compiler::expression::reject;
use crate::compiler::expression::scope_name;
use crate::compiler::operator::Operator;
use crate::compiler::span::Span;
use crate::compiler::value::Value;

verus! {

/// Evaluates `left && right`. The scope of the application is opened
/// whatever the operands are. Two booleans are joined by the conjunction
/// gadget, and the outcome is their conjunction. Operands of any other kinds
/// give the incompatible-types error. A satisfied system stays satisfied.
pub fn evaluate_and(cs: &mut Circuit, left: &Value, right: &Value, span: &Span) -> (outcome: Result<
    Value,
    CompilerError,
>)
    requires
        old(cs).well_formed(),
        left.well_formed(),
        right.well_formed(),
        !old(cs).namespaces().contains(scope_name(Operator::And, *left, *right, *span)),
    ensures
        final(cs).well_formed(),
        final(cs).namespaces() == old(cs).namespaces().push(
            scope_name(Operator::And, *left, *right, *span),
        ),
        old(cs).satisfied() ==> final(cs).satisfied(),
        evaluation(Operator::And, *left, *right, *span, outcome),
{
    let unique_namespace = allocate_scope(Operator::And, left, right, span);
    proof {
        lemma_scope_name_plain(Operator::And, *left, *right, *span);
    }
    match (left, right) {
        (Value::Boolean(bit_1), Value::Boolean(bit_2)) => {
            let wire = cs.and(unique_namespace.as_str(), *bit_1, *bit_2);
            conclude(Operator::And, wire, span)
        },
        _ => {
            cs.open(unique_namespace.as_str());
            Err(reject(Operator::And, left, right, span))
        },
    }
}

} // verus!
