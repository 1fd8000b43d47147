//! The constraint system of the backend and its gadgets. What this file
//! states of them is taken from their source and is not proved here.

use vstd::prelude::*;
use snarkvm_gadgets::bits::Boolean;
use snarkvm_gadgets::integers::int::Int128;
use snarkvm_gadgets::integers::int::Int16;
use snarkvm_gadgets::integers::int::Int32;
use snarkvm_gadgets::integers::int::Int64;
use snarkvm_gadgets::integers::int::Int8;
use snarkvm_gadgets::integers::uint::UInt128;
use snarkvm_gadgets::integers::uint::UInt16;
use snarkvm_gadgets::integers::uint::UInt32;
use snarkvm_gadgets::integers::uint::UInt64;
use snarkvm_gadgets::integers::uint::UInt8;
use snarkvm_gadgets::traits::alloc::AllocGadget;
use snarkvm_gadgets::traits::bits::ComparatorGadget;
use snarkvm_r1cs::ConstraintSystem;
use snarkvm_r1cs::Fr;
use snarkvm_r1cs::SynthesisError;
use snarkvm_r1cs::TestConstraintSystem;
use crate::compiler::value::plain_text;

verus! {

/// The failure of a gadget, `snarkvm_r1cs::SynthesisError`. Nothing is read
/// from it.
#[verifier::external_type_specification]
#[verifier::external_body]
pub struct ExSynthesisError(SynthesisError);

/// A `snarkvm_r1cs::TestConstraintSystem` over the scalar field of
/// BLS12-377: the constraint system that keeps the names of its scopes and
/// refuses a name that is already taken.
#[verifier::external_body]
pub struct Backend {
    system: TestConstraintSystem<Fr>,
}

/// The names that are taken at the root of the constraint system.
pub uninterp spec fn backend_scopes(backend: Backend) -> Set<Seq<char>>;

/// Whether a scope of this name can be opened at the root: the name is not
/// taken and holds no separator.
pub open spec fn can_open(backend: Backend, scope: Seq<char>) -> bool {
    plain_text(scope) && !backend_scopes(backend).contains(scope)
}

/// Whether the root scopes after a gadget are those from before, with at
/// most the gadget's own scope added.
pub open spec fn opened_at_most(before: Backend, after: Backend, scope: Seq<char>) -> bool {
    backend_scopes(after).subset_of(backend_scopes(before).insert(scope))
}

/// Whether a system that was satisfied before a gadget is satisfied after
/// it.
pub open spec fn stays_satisfied(before: Backend, after: Backend) -> bool {
    backend_satisfied(before) ==> backend_satisfied(after)
}

/// `TestConstraintSystem::new`. A new system names its constant one `ONE`
/// and nothing else; it holds no constraint, so it is satisfied.
#[verifier::external_body]
pub(crate) fn new_backend() -> (backend: Backend)
    ensures
        backend_scopes(backend) == Set::<Seq<char>>::empty().insert("ONE"@),
        backend_satisfied(backend),
{
    Backend { system: TestConstraintSystem::new() }
}

/// `ConstraintSystem::ns`, opened at the root and left at once. The system
/// panics on a taken name or a separator in a name, so both are required
/// away; no scope but the named one is added, and no constraint.
#[verifier::external_body]
pub(crate) fn open_scope(backend: &mut Backend, scope: &str)
    requires
        can_open(*old(backend), scope@),
    ensures
        opened_at_most(*old(backend), *final(backend), scope@),
        stays_satisfied(*old(backend), *final(backend)),
{
    backend.system.ns(|| scope);
}

/// What `TestConstraintSystem::is_satisfied` says of a constraint system:
/// whether the assignment that it holds meets every constraint that it
/// holds. The answer is computed from the system alone.
pub uninterp spec fn backend_satisfied(backend: Backend) -> bool;

/// `TestConstraintSystem::is_satisfied`.
#[verifier::external_body]
pub(crate) fn backend_is_satisfied(backend: &Backend) -> (satisfied: bool)
    ensures
        satisfied == backend_satisfied(*backend),
{
    backend.system.is_satisfied()
}

/// `Boolean::and` on two bits allocated inside the scope. Both bits are
/// allocated with their assignment, and the gadget fails only where an
/// assignment is missing: it yields a wire, whose assignment is the
/// conjunction. The constraints that it adds hold of the assignments that it
/// makes.
#[verifier::external_body]
pub(crate) fn boolean_and(backend: &mut Backend, scope: &str, left: bool, right: bool) -> (wire:
    Result<Option<bool>, SynthesisError>)
    requires
        can_open(*old(backend), scope@),
    ensures
        opened_at_most(*old(backend), *final(backend), scope@),
        stays_satisfied(*old(backend), *final(backend)),
        wire is Ok,
        wire->Ok_0 == Some(left && right),
{
    let mut cs = backend.system.ns(|| scope);
    let a = Boolean::alloc(cs.ns(|| "left"), || Ok(left))?;
    let b = Boolean::alloc(cs.ns(|| "right"), || Ok(right))?;
    Boolean::and(cs.ns(|| "and"), &a, &b).map(|bit| bit.get_value())
}

/// `ComparatorGadget::greater_than` of `UInt8`, on two integers allocated
/// inside the scope. Both are allocated with their assignment, and the
/// gadget fails only where an assignment is missing: it yields a wire, whose
/// assignment says whether the left number is the greater. The constraints
/// that it adds hold of the assignments that it makes.
#[verifier::external_body]
pub(crate) fn greater_than_u8(backend: &mut Backend, scope: &str, left: u8, right: u8) -> (wire:
    Result<Option<bool>, SynthesisError>)
    requires
        can_open(*old(backend), scope@),
    ensures
        opened_at_most(*old(backend), *final(backend), scope@),
        stays_satisfied(*old(backend), *final(backend)),
        wire is Ok,
        wire->Ok_0 == Some(left > right),
{
    let mut cs = backend.system.ns(|| scope);
    let a = UInt8::alloc(cs.ns(|| "left"), || Ok(left))?;
    let b = UInt8::alloc(cs.ns(|| "right"), || Ok(right))?;
    a.greater_than(cs.ns(|| "compare"), &b).map(|bit| bit.get_value())
}

/// `ComparatorGadget::greater_than` of `UInt16`, on two integers allocated
/// inside the scope. Both are allocated with their assignment, and the
/// gadget fails only where an assignment is missing: it yields a wire, whose
/// assignment says whether the left number is the greater. The constraints
/// that it adds hold of the assignments that it makes.
#[verifier::external_body]
pub(crate) fn greater_than_u16(backend: &mut Backend, scope: &str, left: u16, right: u16) -> (wire:
    Result<Option<bool>, SynthesisError>)
    requires
        can_open(*old(backend), scope@),
    ensures
        opened_at_most(*old(backend), *final(backend), scope@),
        stays_satisfied(*old(backend), *final(backend)),
        wire is Ok,
        wire->Ok_0 == Some(left > right),
{
    let mut cs = backend.system.ns(|| scope);
    let a = UInt16::alloc(cs.ns(|| "left"), || Ok(left))?;
    let b = UInt16::alloc(cs.ns(|| "right"), || Ok(right))?;
    a.greater_than(cs.ns(|| "compare"), &b).map(|bit| bit.get_value())
}

/// `ComparatorGadget::greater_than` of `UInt32`, on two integers allocated
/// inside the scope. Both are allocated with their assignment, and the
/// gadget fails only where an assignment is missing: it yields a wire, whose
/// assignment says whether the left number is the greater. The constraints
/// that it adds hold of the assignments that it makes.
#[verifier::external_body]
pub(crate) fn greater_than_u32(backend: &mut Backend, scope: &str, left: u32, right: u32) -> (wire:
    Result<Option<bool>, SynthesisError>)
    requires
        can_open(*old(backend), scope@),
    ensures
        opened_at_most(*old(backend), *final(backend), scope@),
        stays_satisfied(*old(backend), *final(backend)),
        wire is Ok,
        wire->Ok_0 == Some(left > right),
{
    let mut cs = backend.system.ns(|| scope);
    let a = UInt32::alloc(cs.ns(|| "left"), || Ok(left))?;
    let b = UInt32::alloc(cs.ns(|| "right"), || Ok(right))?;
    a.greater_than(cs.ns(|| "compare"), &b).map(|bit| bit.get_value())
}

/// `ComparatorGadget::greater_than` of `UInt64`, on two integers allocated
/// inside the scope. Both are allocated with their assignment, and the
/// gadget fails only where an assignment is missing: it yields a wire, whose
/// assignment says whether the left number is the greater. The constraints
/// that it adds hold of the assignments that it makes.
#[verifier::external_body]
pub(crate) fn greater_than_u64(backend: &mut Backend, scope: &str, left: u64, right: u64) -> (wire:
    Result<Option<bool>, SynthesisError>)
    requires
        can_open(*old(backend), scope@),
    ensures
        opened_at_most(*old(backend), *final(backend), scope@),
        stays_satisfied(*old(backend), *final(backend)),
        wire is Ok,
        wire->Ok_0 == Some(left > right),
{
    let mut cs = backend.system.ns(|| scope);
    let a = UInt64::alloc(cs.ns(|| "left"), || Ok(left))?;
    let b = UInt64::alloc(cs.ns(|| "right"), || Ok(right))?;
    a.greater_than(cs.ns(|| "compare"), &b).map(|bit| bit.get_value())
}

/// `ComparatorGadget::greater_than` of `UInt128`, on two integers allocated
/// inside the scope. Both are allocated with their assignment, and the
/// gadget fails only where an assignment is missing: it yields a wire, whose
/// assignment says whether the left number is the greater. The constraints
/// that it adds hold of the assignments that it makes.
#[verifier::external_body]
pub(crate) fn greater_than_u128(backend: &mut Backend, scope: &str, left: u128, right: u128) -> (wire:
    Result<Option<bool>, SynthesisError>)
    requires
        can_open(*old(backend), scope@),
    ensures
        opened_at_most(*old(backend), *final(backend), scope@),
        stays_satisfied(*old(backend), *final(backend)),
        wire is Ok,
        wire->Ok_0 == Some(left > right),
{
    let mut cs = backend.system.ns(|| scope);
    let a = UInt128::alloc(cs.ns(|| "left"), || Ok(left))?;
    let b = UInt128::alloc(cs.ns(|| "right"), || Ok(right))?;
    a.greater_than(cs.ns(|| "compare"), &b).map(|bit| bit.get_value())
}

/// `ComparatorGadget::greater_than` of `Int8`, on two integers allocated
/// inside the scope. Both are allocated with their assignment, and the
/// gadget fails only where an assignment is missing: it yields a wire, whose
/// assignment says whether the left number is the greater. The constraints
/// that it adds hold of the assignments that it makes.
#[verifier::external_body]
pub(crate) fn greater_than_i8(backend: &mut Backend, scope: &str, left: i8, right: i8) -> (wire:
    Result<Option<bool>, SynthesisError>)
    requires
        can_open(*old(backend), scope@),
    ensures
        opened_at_most(*old(backend), *final(backend), scope@),
        stays_satisfied(*old(backend), *final(backend)),
        wire is Ok,
        wire->Ok_0 == Some(left > right),
{
    let mut cs = backend.system.ns(|| scope);
    let a = Int8::alloc(cs.ns(|| "left"), || Ok(left))?;
    let b = Int8::alloc(cs.ns(|| "right"), || Ok(right))?;
    a.greater_than(cs.ns(|| "compare"), &b).map(|bit| bit.get_value())
}

/// `ComparatorGadget::greater_than` of `Int16`, on two integers allocated
/// inside the scope. Both are allocated with their assignment, and the
/// gadget fails only where an assignment is missing: it yields a wire, whose
/// assignment says whether the left number is the greater. The constraints
/// that it adds hold of the assignments that it makes.
#[verifier::external_body]
pub(crate) fn greater_than_i16(backend: &mut Backend, scope: &str, left: i16, right: i16) -> (wire:
    Result<Option<bool>, SynthesisError>)
    requires
        can_open(*old(backend), scope@),
    ensures
        opened_at_most(*old(backend), *final(backend), scope@),
        stays_satisfied(*old(backend), *final(backend)),
        wire is Ok,
        wire->Ok_0 == Some(left > right),
{
    let mut cs = backend.system.ns(|| scope);
    let a = Int16::alloc(cs.ns(|| "left"), || Ok(left))?;
    let b = Int16::alloc(cs.ns(|| "right"), || Ok(right))?;
    a.greater_than(cs.ns(|| "compare"), &b).map(|bit| bit.get_value())
}

/// `ComparatorGadget::greater_than` of `Int32`, on two integers allocated
/// inside the scope. Both are allocated with their assignment, and the
/// gadget fails only where an assignment is missing: it yields a wire, whose
/// assignment says whether the left number is the greater. The constraints
/// that it adds hold of the assignments that it makes.
#[verifier::external_body]
pub(crate) fn greater_than_i32(backend: &mut Backend, scope: &str, left: i32, right: i32) -> (wire:
    Result<Option<bool>, SynthesisError>)
    requires
        can_open(*old(backend), scope@),
    ensures
        opened_at_most(*old(backend), *final(backend), scope@),
        stays_satisfied(*old(backend), *final(backend)),
        wire is Ok,
        wire->Ok_0 == Some(left > right),
{
    let mut cs = backend.system.ns(|| scope);
    let a = Int32::alloc(cs.ns(|| "left"), || Ok(left))?;
    let b = Int32::alloc(cs.ns(|| "right"), || Ok(right))?;
    a.greater_than(cs.ns(|| "compare"), &b).map(|bit| bit.get_value())
}

/// `ComparatorGadget::greater_than` of `Int64`, on two integers allocated
/// inside the scope. Both are allocated with their assignment, and the
/// gadget fails only where an assignment is missing: it yields a wire, whose
/// assignment says whether the left number is the greater. The constraints
/// that it adds hold of the assignments that it makes.
#[verifier::external_body]
pub(crate) fn greater_than_i64(backend: &mut Backend, scope: &str, left: i64, right: i64) -> (wire:
    Result<Option<bool>, SynthesisError>)
    requires
        can_open(*old(backend), scope@),
    ensures
        opened_at_most(*old(backend), *final(backend), scope@),
        stays_satisfied(*old(backend), *final(backend)),
        wire is Ok,
        wire->Ok_0 == Some(left > right),
{
    let mut cs = backend.system.ns(|| scope);
    let a = Int64::alloc(cs.ns(|| "left"), || Ok(left))?;
    let b = Int64::alloc(cs.ns(|| "right"), || Ok(right))?;
    a.greater_than(cs.ns(|| "compare"), &b).map(|bit| bit.get_value())
}

/// `ComparatorGadget::greater_than` of `Int128`, on two integers allocated
/// inside the scope. Both are allocated with their assignment, and the
/// gadget fails only where an assignment is missing: it yields a wire, whose
/// assignment says whether the left number is the greater. The constraints
/// that it adds hold of the assignments that it makes.
#[verifier::external_body]
pub(crate) fn greater_than_i128(backend: &mut Backend, scope: &str, left: i128, right: i128) -> (wire:
    Result<Option<bool>, SynthesisError>)
    requires
        can_open(*old(backend), scope@),
    ensures
        opened_at_most(*old(backend), *final(backend), scope@),
        stays_satisfied(*old(backend), *final(backend)),
        wire is Ok,
        wire->Ok_0 == Some(left > right),
{
    let mut cs = backend.system.ns(|| scope);
    let a = Int128::alloc(cs.ns(|| "left"), || Ok(left))?;
    let b = Int128::alloc(cs.ns(|| "right"), || Ok(right))?;
    a.greater_than(cs.ns(|| "compare"), &b).map(|bit| bit.get_value())
}

} // verus!
