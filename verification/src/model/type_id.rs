use vstd::prelude::*;
use core::any::TypeId;

verus! {

/// `core::any::TypeId`, carried through as an opaque value.
#[verifier::external_type_specification]
#[verifier::external_body]
pub struct ExTypeId(TypeId);

/// `TypeId` is `Copy`; its `clone` returns an identical value.
pub assume_specification[ <TypeId as Clone>::clone ](a: &TypeId) -> (r: TypeId)
    ensures
        r == *a,
;

/// Compares two type IDs with `TypeId`'s `==`.
///
/// std documents that two `TypeId`s are equal exactly when they identify the
/// same type; the contract claims that the comparison agrees with equality
/// of the two values.
#[verifier::external_body]
pub(crate) fn same_type(a: &TypeId, b: &TypeId) -> (r: bool)
    ensures
        r == (*a == *b),
{
    a == b
}

/// Calls `TypeId::of::<T>()`.
///
/// Nothing is stated of the returned identifier: it is not expressible as a
/// plain value, and the function is generic over `T`.
#[verifier::external_body]
pub(crate) fn type_id_of<T: ?Sized + 'static>() -> TypeId {
    TypeId::of::<T>()
}

} // verus!
