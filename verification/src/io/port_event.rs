use vstd::prelude::*;

verus! {

/// An event carried by a connection: a message or a connection-control event.
///
/// `T` is the message payload; connect and disconnect events carry control
/// information. Endpoint APIs determine how these events affect port state.
#[derive(Clone, Copy, Debug, Eq, Hash, Ord, PartialEq, PartialOrd)]
pub enum PortEvent<T> {
    /// Signals a connection event.
    Connect,
    /// Carries one message of type `T`.
    Message(T),
    /// Signals a disconnection event.
    Disconnect,
}

impl<T> PortEvent<T> {
    /// Returns the payload of a message event.
    pub fn message(&self) -> (r: Option<&T>)
        ensures
            r == match self {
                PortEvent::Message(m) => Some(m),
                _ => None::<&T>,
            },
    {
        match self {
            Self::Message(message) => Some(message),
            _ => None,
        }
    }

    /// Converts a message event into its payload.
    pub fn into_message(self) -> (r: Option<T>)
        ensures
            r == match self {
                PortEvent::Message(m) => Some(m),
                _ => None::<T>,
            },
    {
        match self {
            Self::Message(message) => Some(message),
            _ => None,
        }
    }

    /// Checks whether the event is a connect event.
    pub fn is_connect(&self) -> (r: bool)
        ensures
            r <==> *self is Connect,
    {
        matches!(self, Self::Connect)
    }

    /// Checks whether the event is a message event.
    pub fn is_message(&self) -> (r: bool)
        ensures
            r <==> *self is Message,
    {
        matches!(self, Self::Message(_))
    }

    /// Checks whether the event is a disconnect event.
    pub fn is_disconnect(&self) -> (r: bool)
        ensures
            r <==> *self is Disconnect,
    {
        matches!(self, Self::Disconnect)
    }

    /// Returns the lowercase name of the event kind.
    pub fn as_str(&self) -> (r: &str)
        ensures
            r@ == match self {
                PortEvent::Connect => "connect"@,
                PortEvent::Message(_) => "message"@,
                PortEvent::Disconnect => "disconnect"@,
            },
    {
        match self {
            Self::Connect => "connect",
            Self::Message(_) => "message",
            Self::Disconnect => "disconnect",
        }
    }
}

} // verus!
