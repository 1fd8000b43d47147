//! Names for the scopes that operator applications open in a constraint
//! system.

use vstd::prelude::*;
use crate::compiler::span::Span;
use crate::compiler::text::decimal;
use crate::compiler::text::is_digit;
use crate::compiler::text::lemma_decimal_digits;
use crate::compiler::text::lemma_decimal_injective;
use crate::compiler::text::render_unsigned;
use crate::compiler::value::plain_text;

verus! {

/// Line and column as `line:col`.
pub open spec fn location_text(line: nat, col: nat) -> Seq<char> {
    decimal(line) + seq![':'] + decimal(col)
}

/// The name of the scope of one operator application:
/// `evaluate {left} {operator} {right} {line}:{col}`.
pub open spec fn namespace_text(
    operator: Seq<char>,
    left: Seq<char>,
    right: Seq<char>,
    line: nat,
    col: nat,
) -> Seq<char> {
    "evaluate "@ + left + seq![' '] + operator + seq![' '] + right + seq![' '] + location_text(
        line,
        col,
    )
}

/// A location text is made of digits and one colon.
pub proof fn lemma_location_characters(line: nat, col: nat)
    ensures
        forall|i: int|
            0 <= i < location_text(line, col).len() ==> {
                let c = #[trigger] location_text(line, col)[i];
                is_digit(c) || c == ':'
            },
        location_text(line, col).len() == decimal(line).len() + 1 + decimal(col).len(),
{
    lemma_decimal_digits(line);
    lemma_decimal_digits(col);
}

/// Two locations with the same text are the same location.
pub proof fn lemma_location_injective(line1: nat, col1: nat, line2: nat, col2: nat)
    requires
        location_text(line1, col1) == location_text(line2, col2),
    ensures
        line1 == line2,
        col1 == col2,
{
    let a = decimal(line1);
    let b = decimal(col1);
    let c = decimal(line2);
    let d = decimal(col2);
    let s = location_text(line1, col1);
    let t = location_text(line2, col2);
    lemma_decimal_digits(line1);
    lemma_decimal_digits(col1);
    lemma_decimal_digits(line2);
    lemma_decimal_digits(col2);
    assert(s[a.len() as int] == ':');
    assert(t[c.len() as int] == ':');
    if a.len() < c.len() {
        assert(t[a.len() as int] == c[a.len() as int]);
        assert(is_digit(c[a.len() as int]));
        assert(false);
    }
    if c.len() < a.len() {
        assert(s[c.len() as int] == a[c.len() as int]);
        assert(is_digit(a[c.len() as int]));
        assert(false);
    }
    assert(a.len() == c.len());
    assert(s.len() == a.len() + 1 + b.len());
    assert(t.len() == c.len() + 1 + d.len());
    assert(b.len() == d.len());
    assert forall|i: int| 0 <= i < a.len() implies a[i] == c[i] by {
        assert(s[i] == a[i]);
        assert(t[i] == c[i]);
    }
    assert(a =~= c);
    assert forall|i: int| 0 <= i < b.len() implies b[i] == d[i] by {
        let k = a.len() + 1 + i;
        assert(s[k] == b[k - a.len() - 1]);
        assert(t[k] == d[k - c.len() - 1]);
    }
    assert(b =~= d);
    lemma_decimal_injective(line1, line2);
    lemma_decimal_injective(col1, col2);
}

/// Applications that start at different positions get different names,
/// whatever their operators and operands are.
pub proof fn lemma_namespace_distinct(
    operator1: Seq<char>,
    left1: Seq<char>,
    right1: Seq<char>,
    line1: nat,
    col1: nat,
    operator2: Seq<char>,
    left2: Seq<char>,
    right2: Seq<char>,
    line2: nat,
    col2: nat,
)
    requires
        line1 != line2 || col1 != col2,
    ensures
        namespace_text(operator1, left1, right1, line1, col1) != namespace_text(
            operator2,
            left2,
            right2,
            line2,
            col2,
        ),
{
    let s = namespace_text(operator1, left1, right1, line1, col1);
    let t = namespace_text(operator2, left2, right2, line2, col2);
    let p = "evaluate "@ + left1 + seq![' '] + operator1 + seq![' '] + right1;
    let q = "evaluate "@ + left2 + seq![' '] + operator2 + seq![' '] + right2;
    let x = location_text(line1, col1);
    let y = location_text(line2, col2);
    lemma_location_characters(line1, col1);
    lemma_location_characters(line2, col2);
    assert(s =~= p + seq![' '] + x);
    assert(t =~= q + seq![' '] + y);
    if s == t {
        assert(s.len() == p.len() + 1 + x.len());
        assert(t.len() == q.len() + 1 + y.len());
        assert(s[p.len() as int] == ' ');
        assert(t[q.len() as int] == ' ');
        if x.len() < y.len() {
            let k = p.len() as int;
            assert(t[k] == y[k - q.len() - 1]);
            assert(is_digit(y[k - q.len() - 1]) || y[k - q.len() - 1] == ':');
            assert(false);
        }
        if y.len() < x.len() {
            let k = q.len() as int;
            assert(s[k] == x[k - p.len() - 1]);
            assert(is_digit(x[k - p.len() - 1]) || x[k - p.len() - 1] == ':');
            assert(false);
        }
        assert(x =~= y) by {
            assert forall|i: int| 0 <= i < x.len() implies x[i] == y[i] by {
                assert(s[p.len() + 1 + i] == x[i]);
                assert(t[q.len() + 1 + i] == y[i]);
            }
        }
        lemma_location_injective(line1, col1, line2, col2);
    }
}

/// A name built from plain texts is plain: it can stand as one scope.
pub proof fn lemma_namespace_plain(
    operator: Seq<char>,
    left: Seq<char>,
    right: Seq<char>,
    line: nat,
    col: nat,
)
    requires
        plain_text(operator),
        plain_text(left),
        plain_text(right),
    ensures
        plain_text(namespace_text(operator, left, right, line, col)),
{
    reveal_strlit("evaluate ");
    lemma_location_characters(line, col);
    let head = "evaluate "@;
    assert(plain_text(head));
    let x = location_text(line, col);
    assert(plain_text(x));
    let s = namespace_text(operator, left, right, line, col);
    assert(s =~= head + left + seq![' '] + operator + seq![' '] + right + seq![' '] + x);
}

/// Builds the name of the scope of one operator application from the
/// operator's symbol, the texts of its operands and the start of its span.
pub fn allocate_namespace(operator: &str, left: &str, right: &str, span: &Span) -> (name: String)
    ensures
        name@ == namespace_text(
            operator@,
            left@,
            right@,
            span.line_start as nat,
            span.col_start as nat,
        ),
{
    let line = render_unsigned(span.line_start as u128);
    let col = render_unsigned(span.col_start as u128);
    let mut name = String::from_str("evaluate ");
    name.append(left);
    name.append(" ");
    name.append(operator);
    name.append(" ");
    name.append(right);
    name.append(" ");
    name.append(line.as_str());
    name.append(":");
    name.append(col.as_str());
    proof {
        reveal_strlit(" ");
        reveal_strlit(":");
        assert(" "@ =~= seq![' ']);
        assert(":"@ =~= seq![':']);
        assert(name@ =~= namespace_text(
            operator@,
            left@,
            right@,
            span.line_start as nat,
            span.col_start as nat,
        ));
    }
    name
}

} // verus!
