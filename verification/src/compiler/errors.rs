//! The two ways in which evaluating an operator can fail.

use vstd::prelude::*;
use crate::compiler::namespace::location_text;
use crate::compiler::span::Span;
use crate::compiler::text::render_unsigned;

verus! {

/// A failed evaluation. Both kinds carry the span of the expression.
#[derive(Debug, PartialEq, Eq)]
pub enum CompilerError {
    /// The operator has no gadget for operands of these kinds. `operation`
    /// shows the operands around the operator's symbol.
    IncompatibleTypes { operation: String, span: Span },
    /// The operands were of supported kinds, but the backend could not
    /// synthesize the constraint. `operation` is the operator's symbol alone.
    CannotEvaluateExpression { operation: String, span: Span },
}

/// A compiler error with its texts as sequences of characters.
pub enum CompilerErrorView {
    IncompatibleTypes { operation: Seq<char>, span: Span },
    CannotEvaluateExpression { operation: Seq<char>, span: Span },
}

impl View for CompilerError {
    type V = CompilerErrorView;

    open spec fn view(&self) -> CompilerErrorView {
        match self {
            CompilerError::IncompatibleTypes { operation, span } => {
                CompilerErrorView::IncompatibleTypes { operation: operation@, span: *span }
            },
            CompilerError::CannotEvaluateExpression { operation, span } => {
                CompilerErrorView::CannotEvaluateExpression { operation: operation@, span: *span }
            },
        }
    }
}

impl CompilerErrorView {
    /// The operation that the error names.
    pub open spec fn operation(self) -> Seq<char> {
        match self {
            CompilerErrorView::IncompatibleTypes { operation, .. } => operation,
            CompilerErrorView::CannotEvaluateExpression { operation, .. } => operation,
        }
    }

    /// The span that the error is anchored at.
    pub open spec fn span(self) -> Span {
        match self {
            CompilerErrorView::IncompatibleTypes { span, .. } => span,
            CompilerErrorView::CannotEvaluateExpression { span, .. } => span,
        }
    }

    /// The words that name the kind of the error.
    pub open spec fn label(self) -> Seq<char> {
        match self {
            CompilerErrorView::IncompatibleTypes { .. } => "incompatible types"@,
            CompilerErrorView::CannotEvaluateExpression { .. } => "cannot evaluate expression"@,
        }
    }

    /// The diagnostic: `{label}: {operation} --> {line}:{col}`.
    pub open spec fn message(self) -> Seq<char> {
        self.label() + ": "@ + self.operation() + " --> "@ + location_text(
            self.span().line_start as nat,
            self.span().col_start as nat,
        )
    }
}

impl CompilerError {
    /// The error for operands whose kinds the operator does not accept.
    pub fn incompatible_types(operation: String, span: &Span) -> (error: CompilerError)
        ensures
            error@ == (CompilerErrorView::IncompatibleTypes { operation: operation@, span: *span }),
    {
        CompilerError::IncompatibleTypes { operation, span: *span }
    }

    /// The error for a gadget that the backend could not synthesize.
    pub fn cannot_evaluate_expression(operation: String, span: &Span) -> (error: CompilerError)
        ensures
            error@ == (CompilerErrorView::CannotEvaluateExpression {
                operation: operation@,
                span: *span,
            }),
    {
        CompilerError::CannotEvaluateExpression { operation, span: *span }
    }

    /// Whether the error reports operands of unsupported kinds.
    pub fn is_incompatible_types(&self) -> (b: bool)
        ensures
            b == (self@ is IncompatibleTypes),
    {
        match self {
            CompilerError::IncompatibleTypes { .. } => true,
            CompilerError::CannotEvaluateExpression { .. } => false,
        }
    }

    /// The span that the error is anchored at.
    pub fn span(&self) -> (span: Span)
        ensures
            span == self@.span(),
    {
        match self {
            CompilerError::IncompatibleTypes { span, .. } => *span,
            CompilerError::CannotEvaluateExpression { span, .. } => *span,
        }
    }

    /// Writes the diagnostic.
    pub fn message(&self) -> (text: String)
        ensures
            text@ == self@.message(),
    {
        let span = self.span();
        let line = render_unsigned(span.line_start as u128);
        let col = render_unsigned(span.col_start as u128);
        let mut text = match self {
            CompilerError::IncompatibleTypes { operation, .. } => {
                let mut text = String::from_str("incompatible types");
                text.append(": ");
                text.append(operation.as_str());
                text
            },
            CompilerError::CannotEvaluateExpression { operation, .. } => {
                let mut text = String::from_str("cannot evaluate expression");
                text.append(": ");
                text.append(operation.as_str());
                text
            },
        };
        text.append(" --> ");
        text.append(line.as_str());
        text.append(":");
        text.append(col.as_str());
        proof {
            reveal_strlit(":");
            assert(":"@ =~= seq![':']);
            assert(text@ =~= self@.message());
        }
        text
    }
}

} // verus!
