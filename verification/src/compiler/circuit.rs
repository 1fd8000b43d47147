//! The constraint system as the evaluators see it: the backend, and a record
//! of every scope that was opened in it.

use vstd::prelude::*;
use crate::compiler::backend::backend_is_satisfied;
use crate::compiler::backend::backend_satisfied;
use crate::compiler::backend::backend_scopes;
use crate::compiler::backend::boolean_and;
use crate::compiler::backend::greater_than_i128;
use crate::compiler::backend::greater_than_i16;
use crate::compiler::backend::greater_than_i32;
use crate::compiler::backend::greater_than_i64;
use crate::compiler::backend::greater_than_i8;
use crate::compiler::backend::greater_than_u128;
use crate::compiler::backend::greater_than_u16;
use crate::compiler::backend::greater_than_u32;
use crate::compiler::backend::greater_than_u64;
use crate::compiler::backend::greater_than_u8;
use crate::compiler::backend::new_backend;
use crate::compiler::backend::open_scope;
use crate::compiler::backend::Backend;
use crate::compiler::value::plain_text;
use crate::compiler::value::Integer;
use snarkvm_r1cs::SynthesisError;

verus! {

/// Why a gadget yielded no wire.
#[derive(Clone, Copy, Debug, PartialEq, Eq, Structural)]
pub enum GadgetFailure {
    /// The two integers differ in width or signedness.
    OperandMismatch,
    /// The backend could not synthesize the constraint.
    Synthesis,
}

/// A constraint system that grows by one scope for each operator
/// application, and that never holds two scopes of one name.
pub struct Circuit {
    backend: Backend,
    names: Vec<String>,
}

/// Hides the reason of a backend failure.
fn without_reason(wire: Result<Option<bool>, SynthesisError>) -> (r: Result<
    Option<bool>,
    GadgetFailure,
>)
    ensures
        r == match wire {
            Ok(bit) => Ok::<Option<bool>, GadgetFailure>(bit),
            Err(_) => Err::<Option<bool>, GadgetFailure>(GadgetFailure::Synthesis),
        },
{
    match wire {
        Ok(bit) => Ok(bit),
        Err(_) => Err(GadgetFailure::Synthesis),
    }
}

/// What the comparison gadget yields for two integers: no wire where they
/// differ in width or signedness; else a wire whose assignment says whether
/// the left number is the greater.
pub open spec fn greater_than_wire(
    left: Integer,
    right: Integer,
    wire: Result<Option<bool>, GadgetFailure>,
) -> bool {
    if left.integer_type() != right.integer_type() {
        wire == Err::<Option<bool>, GadgetFailure>(GadgetFailure::OperandMismatch)
    } else {
        wire == Ok::<Option<bool>, GadgetFailure>(Some(left.number() > right.number()))
    }
}

/// What the conjunction gadget yields for two bits: a wire whose assignment
/// is their conjunction.
pub open spec fn and_wire(left: bool, right: bool, wire: Result<Option<bool>, GadgetFailure>) -> bool {
    wire == Ok::<Option<bool>, GadgetFailure>(Some(left && right))
}

impl Circuit {
    /// The names of all scopes, in the order in which they were opened. The
    /// first is `ONE`, the name that the backend gives to its constant.
    pub closed spec fn namespaces(&self) -> Seq<Seq<char>> {
        Seq::new(self.names@.len(), |i: int| self.names@[i]@)
    }

    /// Whether no name occurs twice, and the record covers what the backend
    /// holds.
    pub closed spec fn well_formed(&self) -> bool {
        &&& self.names_unique()
        &&& forall|name: Seq<char>|
            backend_scopes(self.backend).contains(name) ==> self.namespaces().contains(name)
    }

    /// In a well-formed circuit every scope has a name of its own.
    pub proof fn lemma_namespaces_unique(&self)
        requires
            self.well_formed(),
        ensures
            forall|i: int, j: int|
                0 <= i < j < self.namespaces().len() ==> self.namespaces()[i]
                    != self.namespaces()[j],
    {
    }

    /// An empty constraint system.
    pub fn new() -> (circuit: Circuit)
        ensures
            circuit.well_formed(),
            circuit.namespaces() == seq!["ONE"@],
            circuit.satisfied(),
    {
        let backend = new_backend();
        let mut names: Vec<String> = Vec::new();
        names.push(String::from_str("ONE"));
        let circuit = Circuit { backend, names };
        proof {
            assert(circuit.namespaces() =~= seq!["ONE"@]);
            assert forall|name: Seq<char>|
                backend_scopes(circuit.backend).contains(name)
                implies circuit.namespaces().contains(name) by {
                assert(circuit.namespaces()[0] == name);
            }
        }
        circuit
    }

    /// The number of scopes, the backend's `ONE` included.
    pub fn len(&self) -> (n: usize)
        ensures
            n == self.namespaces().len(),
    {
        self.names.len()
    }

    /// Whether the assignment that the backend holds meets every constraint
    /// that it holds.
    pub closed spec fn satisfied(&self) -> bool {
        backend_satisfied(self.backend)
    }

    /// Tests whether the assignment that the backend holds meets every
    /// constraint that it holds.
    pub fn is_satisfied(&self) -> (b: bool)
        ensures
            b == self.satisfied(),
    {
        backend_is_satisfied(&self.backend)
    }

    /// Tests whether a scope of this name exists.
    pub fn contains(&self, name: &str) -> (b: bool)
        ensures
            b == self.namespaces().contains(name@),
    {
        let wanted = String::from_str(name);
        let mut i: usize = 0;
        while i < self.names.len()
            invariant
                i <= self.names@.len(),
                wanted@ == name@,
                forall|j: int| 0 <= j < i ==> self.namespaces()[j] != name@,
            decreases self.names@.len() - i,
        {
            if self.names[i] == wanted {
                assert(self.namespaces()[i as int] == name@);
                return true;
            }
            i = i + 1;
        }
        false
    }

    /// Whether the record holds no name twice.
    spec fn names_unique(&self) -> bool {
        forall|i: int, j: int|
            0 <= i < j < self.names@.len() ==> self.names@[i]@ != self.names@[j]@
    }

    /// Whether the record covers the backend's scopes and one more name.
    spec fn covers_with(&self, scope: Seq<char>) -> bool {
        forall|name: Seq<char>|
            backend_scopes(self.backend).insert(scope).contains(name)
                ==> self.namespaces().contains(name)
    }

    /// Records a scope and says that the backend can open it.
    fn reserve(&mut self, scope: &str)
        requires
            old(self).well_formed(),
            plain_text(scope@),
            !old(self).namespaces().contains(scope@),
        ensures
            final(self).namespaces() == old(self).namespaces().push(scope@),
            final(self).backend == old(self).backend,
            !backend_scopes(final(self).backend).contains(scope@),
            final(self).names_unique(),
            final(self).covers_with(scope@),
    {
        let ghost before = self.namespaces();
        self.names.push(String::from_str(scope));
        proof {
            assert(self.namespaces() =~= before.push(scope@));
            assert forall|i: int, j: int| 0 <= i < j < self.names@.len() implies self.names@[i]@
                != self.names@[j]@ by {
                if j == self.names@.len() - 1 {
                    assert(before[i] == self.names@[i]@);
                }
            }
            assert forall|name: Seq<char>|
                backend_scopes(self.backend).insert(scope@).contains(name)
                implies self.namespaces().contains(name) by {
                if name == scope@ {
                    assert(self.namespaces()[before.len() as int] == name);
                } else {
                    assert(before.contains(name));
                    let k = choose|k: int| 0 <= k < before.len() && before[k] == name;
                    assert(self.namespaces()[k] == name);
                }
            }
        }
    }

    /// Opens a scope that stays empty.
    pub fn open(&mut self, scope: &str)
        requires
            old(self).well_formed(),
            plain_text(scope@),
            !old(self).namespaces().contains(scope@),
        ensures
            final(self).well_formed(),
            final(self).namespaces() == old(self).namespaces().push(scope@),
            old(self).satisfied() ==> final(self).satisfied(),
    {
        self.reserve(scope);
        open_scope(&mut self.backend, scope);
    }

    /// Opens a scope and synthesizes in it the comparison `left > right`.
    pub fn greater_than(&mut self, scope: &str, left: &Integer, right: &Integer) -> (wire: Result<
        Option<bool>,
        GadgetFailure,
    >)
        requires
            old(self).well_formed(),
            plain_text(scope@),
            !old(self).namespaces().contains(scope@),
        ensures
            final(self).well_formed(),
            final(self).namespaces() == old(self).namespaces().push(scope@),
            old(self).satisfied() ==> final(self).satisfied(),
            greater_than_wire(*left, *right, wire),
    {
        self.reserve(scope);
        match (left, right) {
            (Integer::U8(a), Integer::U8(b)) => without_reason(
                greater_than_u8(&mut self.backend, scope, *a, *b),
            ),
            (Integer::U16(a), Integer::U16(b)) => without_reason(
                greater_than_u16(&mut self.backend, scope, *a, *b),
            ),
            (Integer::U32(a), Integer::U32(b)) => without_reason(
                greater_than_u32(&mut self.backend, scope, *a, *b),
            ),
            (Integer::U64(a), Integer::U64(b)) => without_reason(
                greater_than_u64(&mut self.backend, scope, *a, *b),
            ),
            (Integer::U128(a), Integer::U128(b)) => without_reason(
                greater_than_u128(&mut self.backend, scope, *a, *b),
            ),
            (Integer::I8(a), Integer::I8(b)) => without_reason(
                greater_than_i8(&mut self.backend, scope, *a, *b),
            ),
            (Integer::I16(a), Integer::I16(b)) => without_reason(
                greater_than_i16(&mut self.backend, scope, *a, *b),
            ),
            (Integer::I32(a), Integer::I32(b)) => without_reason(
                greater_than_i32(&mut self.backend, scope, *a, *b),
            ),
            (Integer::I64(a), Integer::I64(b)) => without_reason(
                greater_than_i64(&mut self.backend, scope, *a, *b),
            ),
            (Integer::I128(a), Integer::I128(b)) => without_reason(
                greater_than_i128(&mut self.backend, scope, *a, *b),
            ),
            _ => {
                open_scope(&mut self.backend, scope);
                Err(GadgetFailure::OperandMismatch)
            },
        }
    }

    /// Opens a scope and synthesizes in it the conjunction `left && right`.
    pub fn and(&mut self, scope: &str, left: bool, right: bool) -> (wire: Result<
        Option<bool>,
        GadgetFailure,
    >)
        requires
            old(self).well_formed(),
            plain_text(scope@),
            !old(self).namespaces().contains(scope@),
        ensures
            final(self).well_formed(),
            final(self).namespaces() == old(self).namespaces().push(scope@),
            old(self).satisfied() ==> final(self).satisfied(),
            and_wire(left, right, wire),
    {
        self.reserve(scope);
        without_reason(boolean_and(&mut self.backend, scope, left, right))
    }
}

} // verus!
