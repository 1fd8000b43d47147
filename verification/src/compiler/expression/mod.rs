//! The operator evaluators, and what all of them have in common.

pub mod logical;
pub mod relational;

use vstd::prelude::*;
use crate::compiler::circuit::Circuit;
use crate::compiler::circuit::GadgetFailure;
use crate::compiler::errors::CompilerError;
use crate::compiler::errors::CompilerErrorView;
use crate::compiler::expression::logical::and::evaluate_and;
use crate::compiler::expression::relational::gt::evaluate_gt;
use crate::compiler::namespace::allocate_namespace;
use crate::compiler::namespace::lemma_namespace_distinct;
use crate::compiler::namespace::lemma_namespace_plain;
use crate::compiler::namespace::namespace_text;
use crate::compiler::operator::Operator;
use crate::compiler::span::Span;
use crate::compiler::text::lemma_decimal_digits;
use crate::compiler::value::items_rendering;
use crate::compiler::value::members_rendering;
use crate::compiler::value::plain_text;
use crate::compiler::value::Member;
use crate::compiler::value::Value;

verus! {

/// The operands around the operator's symbol: `{left} {operator} {right}`.
pub open spec fn operation_text(operator: Operator, left: Value, right: Value) -> Seq<char> {
    left.rendering() + seq![' '] + operator.symbol_text() + seq![' '] + right.rendering()
}

/// The name of the scope in which an application of the operator to these
/// operands at this span is synthesized.
pub open spec fn scope_name(operator: Operator, left: Value, right: Value, span: Span) -> Seq<char> {
    namespace_text(
        operator.symbol_text(),
        left.rendering(),
        right.rendering(),
        span.line_start as nat,
        span.col_start as nat,
    )
}

/// The value that the operator's gadget yields where it succeeds; `None`
/// where it has no gadget for the operands or the gadget cannot succeed:
/// `>` on integers that differ in width or signedness.
pub open spec fn gadget_value(operator: Operator, left: Value, right: Value) -> Option<Value> {
    match (operator, left, right) {
        (Operator::Gt, Value::Integer(a), Value::Integer(b)) => {
            if a.integer_type() == b.integer_type() {
                Some(Value::Boolean(a.number() > b.number()))
            } else {
                None
            }
        },
        (Operator::And, Value::Boolean(a), Value::Boolean(b)) => Some(Value::Boolean(a && b)),
        _ => None,
    }
}

/// The outcome of evaluating an operator. Operands of kinds that the
/// operator does not accept give the incompatible-types error, with both
/// operands in its text. Accepted operands give the value of the gadget, or,
/// where the gadget has none for them, the cannot-evaluate error, which
/// names the operator alone.
pub open spec fn evaluation(
    operator: Operator,
    left: Value,
    right: Value,
    span: Span,
    outcome: Result<Value, CompilerError>,
) -> bool {
    if !operator.supports(left.kind(), right.kind()) {
        outcome matches Err(error) && error@ == (CompilerErrorView::IncompatibleTypes {
            operation: operation_text(operator, left, right),
            span,
        })
    } else {
        match gadget_value(operator, left, right) {
            Some(value) => outcome == Ok::<Value, CompilerError>(value),
            None => outcome matches Err(error) && error@ == (
            CompilerErrorView::CannotEvaluateExpression {
                operation: operator.symbol_text(),
                span,
            }),
        }
    }
}

/// An operator applied to operands of kinds that it does not accept always
/// fails, with the incompatible-types error.
pub proof fn lemma_dispatch_total(
    operator: Operator,
    left: Value,
    right: Value,
    span: Span,
    outcome: Result<Value, CompilerError>,
)
    requires
        evaluation(operator, left, right, span, outcome),
        !operator.supports(left.kind(), right.kind()),
    ensures
        outcome is Err,
        outcome->Err_0@ is IncompatibleTypes,
        outcome->Err_0@.operation() == operation_text(operator, left, right),
        outcome->Err_0@.span() == span,
{
}

/// An operator applied to operands of kinds that it accepts yields a value
/// of its output kind, or fails with the cannot-evaluate error, which names
/// the operator and not the operands.
pub proof fn lemma_dispatch_sound(
    operator: Operator,
    left: Value,
    right: Value,
    span: Span,
    outcome: Result<Value, CompilerError>,
)
    requires
        evaluation(operator, left, right, span, outcome),
        operator.supports(left.kind(), right.kind()),
    ensures
        outcome matches Ok(value) ==> value.kind() == operator.output_kind(),
        outcome matches Err(error) ==> error@ is CannotEvaluateExpression && error@.operation()
            == operator.symbol_text() && error@.span() == span,
{
}

/// Two evaluations of one operator on the same operands at the same span
/// end alike: both yield the same value, with the same text, or both fail
/// with the same error.
pub proof fn lemma_evaluation_deterministic(
    operator: Operator,
    left: Value,
    right: Value,
    span: Span,
    first: Result<Value, CompilerError>,
    second: Result<Value, CompilerError>,
)
    requires
        evaluation(operator, left, right, span, first),
        evaluation(operator, left, right, span, second),
    ensures
        first is Ok <==> second is Ok,
        first is Ok ==> first->Ok_0 == second->Ok_0 && first->Ok_0.rendering()
            == second->Ok_0.rendering(),
        first is Err ==> first->Err_0@ == second->Err_0@,
{
}

/// Two integers of one width and signedness are always compared: the
/// outcome of `>` is the boolean that says whether the left number is the
/// greater.
pub proof fn lemma_comparison_succeeds(
    left: Value,
    right: Value,
    span: Span,
    outcome: Result<Value, CompilerError>,
)
    requires
        evaluation(Operator::Gt, left, right, span, outcome),
        left is Integer,
        right is Integer,
        left->Integer_0.integer_type() == right->Integer_0.integer_type(),
    ensures
        outcome == Ok::<Value, CompilerError>(
            Value::Boolean(left->Integer_0.number() > right->Integer_0.number()),
        ),
{
}

/// Two booleans are always joined: the outcome of `&&` is their
/// conjunction.
pub proof fn lemma_conjunction_succeeds(
    left: Value,
    right: Value,
    span: Span,
    outcome: Result<Value, CompilerError>,
)
    requires
        evaluation(Operator::And, left, right, span, outcome),
        left is Boolean,
        right is Boolean,
    ensures
        outcome == Ok::<Value, CompilerError>(
            Value::Boolean(left->Boolean_0 && right->Boolean_0),
        ),
{
}

/// Two applications whose spans start at different positions are
/// synthesized in scopes of different names, whatever their operators and
/// operands are.
pub proof fn lemma_scope_names_distinct(
    operator1: Operator,
    left1: Value,
    right1: Value,
    span1: Span,
    operator2: Operator,
    left2: Value,
    right2: Value,
    span2: Span,
)
    requires
        span1.line_start != span2.line_start || span1.col_start != span2.col_start,
    ensures
        scope_name(operator1, left1, right1, span1) != scope_name(operator2, left2, right2, span2),
{
    lemma_namespace_distinct(
        operator1.symbol_text(),
        left1.rendering(),
        right1.rendering(),
        span1.line_start as nat,
        span1.col_start as nat,
        operator2.symbol_text(),
        left2.rendering(),
        right2.rendering(),
        span2.line_start as nat,
        span2.col_start as nat,
    );
}

/// The first `n` items of well-formed items have a plain text.
proof fn lemma_items_plain(items: Seq<Value>, n: nat)
    requires
        forall|i: int| 0 <= i < items.len() ==> (#[trigger] items[i]).well_formed(),
    ensures
        plain_text(items_rendering(items, n)),
    decreases items, n,
{
    reveal_strlit(", ");
    if n == 0 || n > items.len() {
    } else if n == 1 {
        lemma_rendering_plain(items[0]);
    } else {
        lemma_items_plain(items, (n - 1) as nat);
        lemma_rendering_plain(items[n - 1]);
    }
}

/// The first `n` members of well-formed members have a plain text.
proof fn lemma_members_plain(members: Seq<Member>, n: nat)
    requires
        forall|i: int|
            0 <= i < members.len() ==> plain_text((#[trigger] members[i]).name@)
                && members[i].value.well_formed(),
    ensures
        plain_text(members_rendering(members, n)),
    decreases members, n,
{
    reveal_strlit(", ");
    reveal_strlit(": ");
    if n == 0 || n > members.len() {
    } else if n == 1 {
        lemma_rendering_plain(members[0].value);
    } else {
        lemma_members_plain(members, (n - 1) as nat);
        lemma_rendering_plain(members[n - 1].value);
    }
}

/// The text of a well-formed value holds no scope separator.
pub proof fn lemma_rendering_plain(value: Value)
    requires
        value.well_formed(),
    ensures
        plain_text(value.rendering()),
    decreases value, 0nat,
{
    match value {
        Value::Boolean(_) => {
            reveal_strlit("true");
            reveal_strlit("false");
        },
        Value::Integer(i) => {
            if i.number() < 0 {
                lemma_decimal_digits((-i.number()) as nat);
            } else {
                lemma_decimal_digits(i.number() as nat);
            }
        },
        Value::Field(_) => {},
        Value::Group(_) => {},
        Value::Address(_) => {},
        Value::Array(items) => {
            reveal_strlit("[");
            reveal_strlit("]");
            lemma_items_plain(items@, items@.len());
        },
        Value::Tuple(items) => {
            reveal_strlit("(");
            reveal_strlit(")");
            lemma_items_plain(items@, items@.len());
        },
        Value::Record(members) => {
            reveal_strlit("{");
            reveal_strlit("}");
            lemma_members_plain(members@, members@.len());
        },
    }
}

/// The name of the scope of an application to well-formed operands is plain.
pub proof fn lemma_scope_name_plain(operator: Operator, left: Value, right: Value, span: Span)
    requires
        left.well_formed(),
        right.well_formed(),
    ensures
        plain_text(scope_name(operator, left, right, span)),
{
    reveal_strlit(">");
    reveal_strlit("&&");
    lemma_rendering_plain(left);
    lemma_rendering_plain(right);
    lemma_namespace_plain(
        operator.symbol_text(),
        left.rendering(),
        right.rendering(),
        span.line_start as nat,
        span.col_start as nat,
    );
}

/// Tests whether an application can be evaluated in the constraint system:
/// both operands are well formed and the name of its scope is not taken.
pub fn can_evaluate(cs: &Circuit, operator: Operator, left: &Value, right: &Value, span: &Span) -> (b:
    bool)
    ensures
        b == (left.well_formed() && right.well_formed() && !cs.namespaces().contains(
            scope_name(operator, *left, *right, *span),
        )),
{
    if !left.is_well_formed() || !right.is_well_formed() {
        return false;
    }
    let name = allocate_scope(operator, left, right, span);
    !cs.contains(name.as_str())
}

/// Builds the name of the scope for an application of the operator.
pub fn allocate_scope(operator: Operator, left: &Value, right: &Value, span: &Span) -> (name: String)
    ensures
        name@ == scope_name(operator, *left, *right, *span),
{
    let left_text = left.render();
    let right_text = right.render();
    allocate_namespace(operator.symbol(), left_text.as_str(), right_text.as_str(), span)
}

/// The error for operands of kinds that the operator does not accept.
pub fn reject(operator: Operator, left: &Value, right: &Value, span: &Span) -> (error: CompilerError)
    ensures
        error@ == (CompilerErrorView::IncompatibleTypes {
            operation: operation_text(operator, *left, *right),
            span: *span,
        }),
{
    let mut operation = left.render();
    operation.append(" ");
    operation.append(operator.symbol());
    operation.append(" ");
    let right_text = right.render();
    operation.append(right_text.as_str());
    proof {
        reveal_strlit(" ");
        assert(" "@ =~= seq![' ']);
        assert(operation@ =~= operation_text(operator, *left, *right));
    }
    CompilerError::incompatible_types(operation, span)
}

/// Turns what a gadget yielded into the outcome of the evaluation: a wire
/// with an assignment becomes a boolean value; a wire without one, and every
/// failure, becomes the cannot-evaluate error, which names the operator and
/// the span and drops the reason.
pub fn conclude(operator: Operator, wire: Result<Option<bool>, GadgetFailure>, span: &Span) -> (outcome:
    Result<Value, CompilerError>)
    ensures
        match wire {
            Ok(Some(bit)) => outcome == Ok::<Value, CompilerError>(Value::Boolean(bit)),
            _ => outcome matches Err(error) && error@ == (
            CompilerErrorView::CannotEvaluateExpression {
                operation: operator.symbol_text(),
                span: *span,
            }),
        },
{
    match wire {
        Ok(Some(bit)) => Ok(Value::Boolean(bit)),
        _ => Err(
            CompilerError::cannot_evaluate_expression(String::from_str(operator.symbol()), span),
        ),
    }
}

/// Evaluates a binary operator: opens the scope of the application in the
/// constraint system, and synthesizes in it the gadget that the operator has
/// for operands of these kinds. A satisfied system stays satisfied.
pub fn evaluate(cs: &mut Circuit, operator: Operator, left: &Value, right: &Value, span: &Span) -> (outcome:
    Result<Value, CompilerError>)
    requires
        old(cs).well_formed(),
        left.well_formed(),
        right.well_formed(),
        !old(cs).namespaces().contains(scope_name(operator, *left, *right, *span)),
    ensures
        final(cs).well_formed(),
        final(cs).namespaces() == old(cs).namespaces().push(
            scope_name(operator, *left, *right, *span),
        ),
        old(cs).satisfied() ==> final(cs).satisfied(),
        evaluation(operator, *left, *right, *span, outcome),
{
    match operator {
        Operator::Gt => evaluate_gt(cs, left, right, span),
        Operator::And => evaluate_and(cs, left, right, span),
    }
}

} // verus!
