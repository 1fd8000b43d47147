//! Enforces a relational `>` operator.

use vstd::prelude::*;
use crate::compiler::circuit::Circuit;
use crate::compiler::errors::CompilerError;
use crate::compiler::expression::allocate_scope;
use crate::compiler::expression::conclude;
use crate::compiler::expression::evaluation;
use crate::compiler::expression::lemma_scope_name_plain;
use crate::compiler::expression::reject;
use crate::compiler::expression::scope_name;
use crate::compiler::operator::Operator;
use crate::compiler::span::Span;
use crate::compiler::value::Value;

verus! {

/// Evaluates `left > right`. The scope of the application is opened
/// whatever the operands are. Two integers of one width and signedness are
/// compared by the gadget of their type, and the outcome is the boolean that
/// says whether the left number is the greater. Two integers that differ in
/// type have no gadget: the outcome is the cannot-evaluate error. Operands
/// of any other kinds give the incompatible-types error. A satisfied system
/// stays satisfied.
pub fn evaluate_gt(cs: &mut Circuit, left: &Value, right: &Value, span: &Span) -> (outcome: Result<
    Value,
    CompilerError,
>)
    requires
        old(cs).well_formed(),
        left.well_formed(),
        right.well_formed(),
        !old(cs).namespaces().contains(scope_name(Operator::Gt, *left, *right, *span)),
    ensures
        final(cs).well_formed(),
        final(cs).namespaces() == old(cs).namespaces().push(
            scope_name(Operator::Gt, *left, *right, *span),
        ),
        old(cs).satisfied() ==> final(cs).satisfied(),
        evaluation(Operator::Gt, *left, *right, *span, outcome),
{
    let unique_namespace = allocate_scope(Operator::Gt, left, right, span);
    proof {
        lemma_scope_name_plain(Operator::Gt, *left, *right, *span);
    }
    match (left, right) {
        (Value::Integer(num_1), Value::Integer(num_2)) => {
            let wire = cs.greater_than(unique_namespace.as_str(), num_1, num_2);
            conclude(Operator::Gt, wire, span)
        },
        _ => {
            cs.open(unique_namespace.as_str());
            Err(reject(Operator::Gt, left, right, span))
        },
    }
}

} // verus!
