use vstd::prelude::*;

verus! {

/// A non-blocking send failure.
#[derive(Clone, Copy, Debug, Eq, PartialEq, Structural)]
pub struct TrySendError;

} // verus!
