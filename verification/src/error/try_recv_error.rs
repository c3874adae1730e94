use vstd::prelude::*;

verus! {

/// A non-blocking receive failure.
#[derive(Clone, Copy, Debug, Eq, PartialEq, Structural)]
pub struct TryRecvError;

} // verus!
