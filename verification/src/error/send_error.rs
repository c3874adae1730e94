use vstd::prelude::*;
use crate::io::PortState;

verus! {

/// A send failure.
#[derive(Clone, Copy, Debug, Eq, PartialEq, Structural)]
pub enum SendError {
    /// The port has no connection.
    Unconnected,
    /// The receiving side no longer accepts messages.
    Disconnected,
    /// The port was closed.
    Closed,
    /// The stream already carried its maximum number of messages.
    CardinalityExceeded {
        /// The inclusive maximum of the stream.
        maximum: usize,
    },
    /// The shared budget of a merged input has no spare message left.
    FanInBudgetExhausted {
        /// The inclusive maximum of the merged input.
        maximum: usize,
    },
}

impl SendError {
    /// The error that a send reports for a port in a state other than `Connected`.
    pub fn from_port_state(input: PortState) -> (r: Self)
        requires
            !(input is Connected),
        ensures
            input is Unconnected ==> r is Unconnected,
            input is Disconnected ==> r is Disconnected,
            input is Closed ==> r is Closed,
    {
        match input {
            PortState::Unconnected => Self::Unconnected,
            PortState::Disconnected => Self::Disconnected,
            _ => Self::Closed,
        }
    }
}

} // verus!
