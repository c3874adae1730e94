use vstd::prelude::*;
use core::any::TypeId;
use crate::io::Cardinality;
use crate::model::PortId;

verus! {

/// A typed port could not be bound to a process or an external caller.
#[derive(Clone, Debug, Eq, PartialEq)]
#[allow(inconsistent_fields)]
pub enum PortBindingError {
    /// No such port exists in the requested binding scope.
    UnknownPort(PortId),
    /// The port belongs to another block.
    ForeignPort(PortId),
    /// This endpoint has already been moved to its owner.
    AlreadyClaimed(PortId),
    /// The port is not an exported boundary port of the requested direction.
    NotExported(PortId),
    /// A connected block port was omitted by its process factory.
    UnclaimedPort(PortId),
    /// The requested payload type differs from the validated type.
    TypeMismatch {
        /// The requested port.
        port: PortId,
        /// The validated payload type.
        expected: TypeId,
        /// The requested payload type.
        requested: TypeId,
    },
    /// The descriptor contradicts the already installed limits.
    CardinalityMismatch {
        /// The requested port.
        port: PortId,
        /// Effective runtime bounds.
        effective: Cardinality,
        /// The descriptor's declared bounds.
        requested: Cardinality,
    },
    /// A factory rejected its configuration before process startup.
    InvalidConfiguration(String),
}

} // verus!
