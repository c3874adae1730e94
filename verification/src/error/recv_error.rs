use vstd::prelude::*;
use crate::io::PortState;
use crate::model::OutputPortId;

verus! {

/// A receive failure, including premature termination of a required stream.
#[derive(Clone, Copy, Debug, Eq, PartialEq, Structural)]
pub enum RecvError {
    /// A backend could not receive a message.
    Unavailable,
    /// The stream ended before its minimum number of messages was received.
    CardinalityUnderflow {
        /// The required minimum for the whole stream.
        minimum: usize,
        /// Messages already received through this endpoint.
        received: usize,
    },
    /// One producer of a merged input ended before its own minimum.
    ProducerCardinalityUnderflow {
        /// The producing output.
        output: OutputPortId,
        /// The producer's required minimum.
        minimum: usize,
        /// Messages received from that producer.
        received: usize,
    },
}

impl From<PortState> for RecvError {
    fn from(_input: PortState) -> (r: Self) {
        Self::Unavailable
    }
}

impl vstd::std_specs::convert::FromSpecImpl<PortState> for RecvError {
    open spec fn obeys_from_spec() -> bool {
        true
    }

    open spec fn from_spec(v: PortState) -> RecvError {
        RecvError::Unavailable
    }
}

} // verus!
