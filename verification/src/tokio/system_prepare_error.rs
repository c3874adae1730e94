use vstd::prelude::*;
use core::any::TypeId;
use crate::model::{InputPortId, PortId, SystemValidationError};

verus! {

/// A failure to validate or prepare a system definition for the Tokio backend.
#[derive(Clone, Copy, Debug, Eq, PartialEq)]
pub enum SystemPrepareError {
    /// The system definition's ports, exports, connections, or types are invalid.
    InvalidDefinition(SystemValidationError),
    /// Multiple producers target this input; preparing a fan-in is unsupported.
    UnsupportedFanIn(InputPortId),
    /// Preparation cannot construct a channel for this message type.
    UnsupportedMessageType {
        /// The output requiring the unsupported channel type.
        port: PortId,
        /// The declared connection message type.
        type_id: TypeId,
    },
    /// The producers of a merged input have bounds that cannot be projected
    /// onto the input's total without overflowing or contradicting it.
    FanInCardinalityOverflow,
}

impl From<SystemValidationError> for SystemPrepareError {
    fn from(error: SystemValidationError) -> (r: Self) {
        SystemPrepareError::InvalidDefinition(error)
    }
}

impl vstd::std_specs::convert::FromSpecImpl<SystemValidationError> for SystemPrepareError {
    open spec fn obeys_from_spec() -> bool {
        true
    }

    open spec fn from_spec(error: SystemValidationError) -> Self {
        SystemPrepareError::InvalidDefinition(error)
    }
}

} // verus!
