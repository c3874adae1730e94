use vstd::prelude::*;

verus! {

/// The lifecycle state of a port endpoint.
#[derive(Clone, Copy, Debug, Eq, Hash, PartialEq, Structural)]
pub enum PortState {
    /// No connection has been attached.
    Unconnected,
    /// The endpoint is attached to a live connection.
    Connected,
    /// The peer or the connection went away.
    Disconnected,
    /// The endpoint was explicitly closed.
    Closed,
}

/// Whether a port receives (input) or sends (output) messages.
#[derive(Clone, Copy, Debug, Eq, Hash, PartialEq, Structural)]
pub enum PortDirection {
    /// A receiving port.
    Input,
    /// A sending port.
    Output,
}

} // verus!
