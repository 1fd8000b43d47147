//! The runtime values that flow through evaluation.

use vstd::prelude::*;
use crate::compiler::text::signed_decimal;
use crate::compiler::text::render_signed;
use crate::compiler::text::render_unsigned;

verus! {

/// Width and signedness of an integer.
#[derive(Clone, Copy, Debug, PartialEq, Eq, Structural)]
pub enum IntegerType {
    U8,
    U16,
    U32,
    U64,
    U128,
    I8,
    I16,
    I32,
    I64,
    I128,
}

/// A fixed-width integer together with the number assigned to it.
#[derive(Clone, Copy, Debug, PartialEq, Eq, Structural)]
pub enum Integer {
    U8(u8),
    U16(u16),
    U32(u32),
    U64(u64),
    U128(u128),
    I8(i8),
    I16(i16),
    I32(i32),
    I64(i64),
    I128(i128),
}

impl Integer {
    /// The number that the integer stands for.
    pub open spec fn number(self) -> int {
        match self {
            Integer::U8(n) => n as int,
            Integer::U16(n) => n as int,
            Integer::U32(n) => n as int,
            Integer::U64(n) => n as int,
            Integer::U128(n) => n as int,
            Integer::I8(n) => n as int,
            Integer::I16(n) => n as int,
            Integer::I32(n) => n as int,
            Integer::I64(n) => n as int,
            Integer::I128(n) => n as int,
        }
    }

    /// Width and signedness, as a spec function.
    pub open spec fn integer_type(self) -> IntegerType {
        match self {
            Integer::U8(_) => IntegerType::U8,
            Integer::U16(_) => IntegerType::U16,
            Integer::U32(_) => IntegerType::U32,
            Integer::U64(_) => IntegerType::U64,
            Integer::U128(_) => IntegerType::U128,
            Integer::I8(_) => IntegerType::I8,
            Integer::I16(_) => IntegerType::I16,
            Integer::I32(_) => IntegerType::I32,
            Integer::I64(_) => IntegerType::I64,
            Integer::I128(_) => IntegerType::I128,
        }
    }

    /// The text of the integer: its number in decimal.
    pub open spec fn rendering(self) -> Seq<char> {
        signed_decimal(self.number())
    }

    /// Width and signedness.
    pub fn get_type(&self) -> (t: IntegerType)
        ensures
            t == self.integer_type(),
    {
        match self {
            Integer::U8(_) => IntegerType::U8,
            Integer::U16(_) => IntegerType::U16,
            Integer::U32(_) => IntegerType::U32,
            Integer::U64(_) => IntegerType::U64,
            Integer::U128(_) => IntegerType::U128,
            Integer::I8(_) => IntegerType::I8,
            Integer::I16(_) => IntegerType::I16,
            Integer::I32(_) => IntegerType::I32,
            Integer::I64(_) => IntegerType::I64,
            Integer::I128(_) => IntegerType::I128,
        }
    }

    /// Writes the integer as text.
    pub fn render(&self) -> (text: String)
        ensures
            text@ == self.rendering(),
    {
        match self {
            Integer::U8(n) => render_unsigned(*n as u128),
            Integer::U16(n) => render_unsigned(*n as u128),
            Integer::U32(n) => render_unsigned(*n as u128),
            Integer::U64(n) => render_unsigned(*n as u128),
            Integer::U128(n) => render_unsigned(*n),
            Integer::I8(n) => render_signed(*n as i128),
            Integer::I16(n) => render_signed(*n as i128),
            Integer::I32(n) => render_signed(*n as i128),
            Integer::I64(n) => render_signed(*n as i128),
            Integer::I128(n) => render_signed(*n),
        }
    }
}

/// The tag of a value: what dispatch looks at.
#[derive(Clone, Copy, Debug, PartialEq, Eq, Structural)]
pub enum Kind {
    Boolean,
    Integer,
    Field,
    Group,
    Address,
    Array,
    Tuple,
    Record,
}

/// One named member of a record.
#[derive(Debug, PartialEq, Eq)]
pub struct Member {
    pub name: String,
    pub value: Value,
}

/// A runtime value.
#[derive(Debug, PartialEq, Eq)]
pub enum Value {
    Boolean(bool),
    Integer(Integer),
    Field(String),
    Group(String),
    Address(String),
    Array(Vec<Value>),
    Tuple(Vec<Value>),
    Record(Vec<Member>),
}

/// The separator of scopes inside a constraint system; no text of a value
/// may hold it.
pub open spec fn is_separator(c: char) -> bool {
    c == '/'
}

/// Whether a text is free of the scope separator.
pub open spec fn plain_text(t: Seq<char>) -> bool {
    forall|i: int| 0 <= i < t.len() ==> !is_separator(#[trigger] t[i])
}

/// The texts of the first `n` items, separated by `", "`.
pub open spec fn items_rendering(items: Seq<Value>, n: nat) -> Seq<char>
    decreases items, n,
{
    if n == 0 || n > items.len() {
        Seq::empty()
    } else if n == 1 {
        items[0].rendering()
    } else {
        items_rendering(items, (n - 1) as nat) + ", "@ + items[n - 1].rendering()
    }
}

/// The texts of the first `n` members, each as `name: value`, separated by `", "`.
pub open spec fn members_rendering(members: Seq<Member>, n: nat) -> Seq<char>
    decreases members, n,
{
    if n == 0 || n > members.len() {
        Seq::empty()
    } else if n == 1 {
        members[0].name@ + ": "@ + members[0].value.rendering()
    } else {
        members_rendering(members, (n - 1) as nat) + ", "@ + members[n - 1].name@ + ": "@
            + members[n - 1].value.rendering()
    }
}

impl Value {
    /// The tag of the value.
    pub open spec fn kind(self) -> Kind {
        match self {
            Value::Boolean(_) => Kind::Boolean,
            Value::Integer(_) => Kind::Integer,
            Value::Field(_) => Kind::Field,
            Value::Group(_) => Kind::Group,
            Value::Address(_) => Kind::Address,
            Value::Array(_) => Kind::Array,
            Value::Tuple(_) => Kind::Tuple,
            Value::Record(_) => Kind::Record,
        }
    }

    /// The text of the value, as namespaces and diagnostics show it.
    pub open spec fn rendering(self) -> Seq<char>
        decreases self, 0nat,
    {
        match self {
            Value::Boolean(b) => if b {
                "true"@
            } else {
                "false"@
            },
            Value::Integer(i) => i.rendering(),
            Value::Field(t) => t@,
            Value::Group(t) => t@,
            Value::Address(t) => t@,
            Value::Array(items) => "["@ + items_rendering(items@, items@.len()) + "]"@,
            Value::Tuple(items) => "("@ + items_rendering(items@, items@.len()) + ")"@,
            Value::Record(members) => "{"@ + members_rendering(members@, members@.len()) + "}"@,
        }
    }

    /// Whether no text inside the value holds the scope separator, and the
    /// members of every record have distinct names.
    pub open spec fn well_formed(self) -> bool
        decreases self,
    {
        match self {
            Value::Boolean(_) => true,
            Value::Integer(_) => true,
            Value::Field(t) => plain_text(t@),
            Value::Group(t) => plain_text(t@),
            Value::Address(t) => plain_text(t@),
            Value::Array(items) => forall|i: int|
                0 <= i < items@.len() ==> (#[trigger] items@[i]).well_formed(),
            Value::Tuple(items) => forall|i: int|
                0 <= i < items@.len() ==> (#[trigger] items@[i]).well_formed(),
            Value::Record(members) => {
                &&& forall|i: int|
                    0 <= i < members@.len() ==> plain_text((#[trigger] members@[i]).name@)
                        && members@[i].value.well_formed()
                &&& forall|i: int, j: int|
                    0 <= i < j < members@.len() ==> (#[trigger] members@[i]).name@
                        != (#[trigger] members@[j]).name@
            },
        }
    }

    /// The tag of the value.
    pub fn get_kind(&self) -> (k: Kind)
        ensures
            k == self.kind(),
    {
        match self {
            Value::Boolean(_) => Kind::Boolean,
            Value::Integer(_) => Kind::Integer,
            Value::Field(_) => Kind::Field,
            Value::Group(_) => Kind::Group,
            Value::Address(_) => Kind::Address,
            Value::Array(_) => Kind::Array,
            Value::Tuple(_) => Kind::Tuple,
            Value::Record(_) => Kind::Record,
        }
    }

    /// Writes the value as text.
    pub fn render(&self) -> (text: String)
        ensures
            text@ == self.rendering(),
        decreases self, 0nat,
    {
        match self {
            Value::Boolean(b) => {
                if *b {
                    String::from_str("true")
                } else {
                    String::from_str("false")
                }
            },
            Value::Integer(i) => i.render(),
            Value::Field(t) => t.clone(),
            Value::Group(t) => t.clone(),
            Value::Address(t) => t.clone(),
            Value::Array(items) => {
                let inner = render_items(items);
                String::from_str("[").concat(inner.as_str()).concat("]")
            },
            Value::Tuple(items) => {
                let inner = render_items(items);
                String::from_str("(").concat(inner.as_str()).concat(")")
            },
            Value::Record(members) => {
                let inner = render_members(members);
                String::from_str("{").concat(inner.as_str()).concat("}")
            },
        }
    }
}

/// Writes the items of an array or tuple, separated by `", "`.
fn render_items(items: &Vec<Value>) -> (text: String)
    ensures
        text@ == items_rendering(items@, items@.len()),
    decreases items, 1nat,
{
    let mut text = String::new();
    let mut i: usize = 0;
    while i < items.len()
        invariant
            i <= items.len(),
            text@ == items_rendering(items@, i as nat),
        decreases items.len() - i,
    {
        if i > 0 {
            text.append(", ");
        }
        let item = items[i].render();
        text.append(item.as_str());
        i = i + 1;
    }
    text
}

/// Writes the members of a record, each as `name: value`, separated by `", "`.
fn render_members(members: &Vec<Member>) -> (text: String)
    ensures
        text@ == members_rendering(members@, members@.len()),
    decreases members, 1nat,
{
    let mut text = String::new();
    let mut i: usize = 0;
    while i < members.len()
        invariant
            i <= members.len(),
            text@ == members_rendering(members@, i as nat),
        decreases members.len() - i,
    {
        if i > 0 {
            text.append(", ");
        }
        text.append(members[i].name.as_str());
        text.append(": ");
        let item = members[i].value.render();
        text.append(item.as_str());
        i = i + 1;
    }
    text
}

/// Tests whether a text is free of the scope separator.
pub fn is_plain_text(t: &str) -> (b: bool)
    ensures
        b == plain_text(t@),
{
    let n = t.unicode_len();
    let mut i: usize = 0;
    while i < n
        invariant
            n == t@.len(),
            i <= n,
            forall|j: int| 0 <= j < i ==> !is_separator(#[trigger] t@[j]),
        decreases n - i,
    {
        if t.get_char(i) == '/' {
            return false;
        }
        i = i + 1;
    }
    true
}

/// Tests whether every item is well formed.
fn items_well_formed(items: &Vec<Value>) -> (b: bool)
    ensures
        b == (forall|i: int| 0 <= i < items@.len() ==> (#[trigger] items@[i]).well_formed()),
    decreases items, 1nat,
{
    let mut i: usize = 0;
    while i < items.len()
        invariant
            i <= items.len(),
            forall|j: int| 0 <= j < i ==> (#[trigger] items@[j]).well_formed(),
        decreases items.len() - i,
    {
        if !items[i].is_well_formed() {
            return false;
        }
        i = i + 1;
    }
    true
}

/// Tests whether every member has a plain name and a well-formed value.
fn members_well_formed(members: &Vec<Member>) -> (b: bool)
    ensures
        b == (forall|i: int|
            0 <= i < members@.len() ==> plain_text((#[trigger] members@[i]).name@)
                && members@[i].value.well_formed()),
    decreases members, 1nat,
{
    let mut i: usize = 0;
    while i < members.len()
        invariant
            i <= members.len(),
            forall|j: int|
                0 <= j < i ==> plain_text((#[trigger] members@[j]).name@)
                    && members@[j].value.well_formed(),
        decreases members.len() - i,
    {
        if !is_plain_text(members[i].name.as_str()) {
            return false;
        }
        if !members[i].value.is_well_formed() {
            return false;
        }
        i = i + 1;
    }
    true
}

/// Tests whether no two members share a name.
fn names_distinct(members: &Vec<Member>) -> (b: bool)
    ensures
        b == (forall|i: int, j: int|
            0 <= i < j < members@.len() ==> (#[trigger] members@[i]).name@
                != (#[trigger] members@[j]).name@),
{
    let mut j: usize = 0;
    while j < members.len()
        invariant
            j <= members.len(),
            forall|a: int, b: int|
                0 <= a < b < j ==> (#[trigger] members@[a]).name@ != (#[trigger] members@[b]).name@,
        decreases members.len() - j,
    {
        let mut i: usize = 0;
        while i < j
            invariant
                i <= j < members.len(),
                forall|a: int| 0 <= a < i ==> (#[trigger] members@[a]).name@ != members@[j as int].name@,
            decreases j - i,
        {
            if members[i].name == members[j].name {
                return false;
            }
            i = i + 1;
        }
        j = j + 1;
    }
    true
}

impl Value {
    /// Tests whether the value is well formed.
    pub fn is_well_formed(&self) -> (b: bool)
        ensures
            b == self.well_formed(),
        decreases self, 0nat,
    {
        match self {
            Value::Boolean(_) => true,
            Value::Integer(_) => true,
            Value::Field(t) => is_plain_text(t.as_str()),
            Value::Group(t) => is_plain_text(t.as_str()),
            Value::Address(t) => is_plain_text(t.as_str()),
            Value::Array(items) => items_well_formed(items),
            Value::Tuple(items) => items_well_formed(items),
            Value::Record(members) => members_well_formed(members) && names_distinct(members),
        }
    }
}

} // verus!
