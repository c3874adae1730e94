use vstd::prelude::*;

verus! {

/// `core::ops::Bound`, whose variants are public, made known to the verifier.
#[verifier::external_type_specification]
#[verifier::reject_recursive_types(T)]
pub struct ExBound<T>(core::ops::Bound<T>);

} // verus!
