use vstd::prelude::*;
use core::any::TypeId;
use crate::io::Cardinality;
use super::port_id::{InputPortId, OutputPortId, PortId};

verus! {

/// An invalid system definition detected by validation.
#[derive(Clone, Copy, Debug, Eq, PartialEq)]
pub enum SystemValidationError {
    /// Constraints on a port or its incoming stream have no common message count.
    IncompatibleCardinality {
        /// The constrained port.
        port: PortId,
        /// The existing or aggregate producer constraint.
        first: Cardinality,
        /// The additional or consumer constraint.
        second: Cardinality,
    },
    /// Aggregate producer bounds cannot be represented as `usize` message counts.
    CardinalityOverflow(InputPortId),
    /// An input ID is nonnegative or an output ID is nonpositive.
    InvalidPortId(PortId),
    /// An export or connection references a port that has not been declared.
    UnregisteredPort(PortId),
    /// A port is listed more than once within or across block definitions.
    DuplicatePort(PortId),
    /// An output is connected to more than one input.
    AlreadyConnectedOutput(OutputPortId),
    /// Block metadata, exports, or connections disagree about a port's type.
    TypeMismatch {
        /// The port with conflicting type declarations.
        port: PortId,
        /// The first type declared for the port during validation.
        expected: TypeId,
        /// The conflicting type encountered later during validation.
        actual: TypeId,
    },
}

} // verus!
