//! A bounded connection between one output and one input.

use vstd::prelude::*;
use core::any::TypeId;
use crate::io::{Cardinality, Connection, PortEvent};
use crate::model::type_id_of;
use super::inputs::Inputs;
use super::outputs::Outputs;
use super::quota::Quota;
use super::sync::{max_channel_buffer, mpsc_channel, share};

verus! {

/// An unlimited message count, as a maximum for [`Cardinality::from_limits`];
/// buffers remain bounded.
pub const UNLIMITED: isize = -1;

/// An inclusive maximum of one message payload.
pub const ONESHOT: isize = 1;

/// A bounded Tokio transport connecting an output port to an input port.
///
/// `tx` and `rx` are the runtime port endpoints. The channel carries
/// [`PortEvent<T>`] values: message payloads of type `T` and connection-control
/// events. The quota is shared across all output clones; controls consume
/// buffer capacity, not message quota. A zero maximum creates an already-ended
/// stream.
#[verifier::reject_recursive_types(T)]
pub struct Channel<T> {
    /// The sending endpoint, sharing its quota with all cloned senders.
    pub tx: Outputs<T>,
    /// The receiving endpoint, enforcing the stream's minimum at EOF.
    pub rx: Inputs<T>,
}

impl<T> Channel<T> {
    /// Creates a connection with these message-count bounds and `buffer`
    /// event slots. Both endpoints count against one quota and start connected;
    /// a zero maximum ends the input at once.
    pub fn with_cardinality(buffer: usize, bounds: Cardinality) -> (r: Self)
        requires
            0 < buffer <= max_channel_buffer(),
        ensures
            r.tx.bounds() == bounds,
            r.rx.bounds() == bounds,
            r.tx.spec_quota() == r.rx.spec_quota(),
            !r.rx.spec_quota().spec_grouped(),
            r.rx.received() == 0,
            bounds@.1 == Some(0usize) ==> r.rx.stage() is Ended,
            bounds@.1 != Some(0usize) ==> r.rx.stage() is Connected,
            r.tx.storage() is Connected,
    {
        let (tx, rx) = mpsc_channel::<PortEvent<T>>(buffer);
        let quota = Quota::new(bounds);
        Self { tx: Outputs::with_fresh_sender(tx, share(&quota)), rx: Inputs::with_fresh_receiver(rx, quota) }
    }

    /// Creates a bounded connection without message-count constraints.
    ///
    /// Capacity counts queued events and reserved permits, including control events.
    pub fn bounded(buffer: usize) -> (r: Self)
        requires
            0 < buffer <= max_channel_buffer(),
        ensures
            r.tx.bounds()@ == (0usize, None::<usize>),
            r.rx.bounds()@ == (0usize, None::<usize>),
            r.rx.received() == 0,
            r.tx.spec_quota() == r.rx.spec_quota(),
            r.rx.stage() is Connected,
            r.tx.storage() is Connected,
    {
        Self::with_cardinality(buffer, Cardinality::unlimited())
    }

    /// Creates two independent capacity-one connections without constraints.
    pub fn pair() -> (r: (Self, Self))
        ensures
            r.0.tx.bounds()@ == (0usize, None::<usize>),
            r.0.rx.bounds()@ == (0usize, None::<usize>),
            r.0.rx.received() == 0,
            r.0.tx.spec_quota() == r.0.rx.spec_quota(),
            r.0.rx.stage() is Connected,
            r.0.tx.storage() is Connected,
            r.1.tx.bounds()@ == (0usize, None::<usize>),
            r.1.rx.bounds()@ == (0usize, None::<usize>),
            r.1.rx.received() == 0,
            r.1.tx.spec_quota() == r.1.rx.spec_quota(),
            r.1.rx.stage() is Connected,
            r.1.tx.storage() is Connected,
    {
        (Self::bounded(1), Self::bounded(1))
    }

    /// Creates a capacity-one connection accepting at most one message payload.
    ///
    /// All sender clones share that single allowance. After receiving the
    /// message, the input reaches EOF even if senders remain alive.
    pub fn oneshot() -> (r: Self)
        ensures
            r.tx.bounds()@ == (0usize, Some(1usize)),
            r.rx.bounds()@ == (0usize, Some(1usize)),
            r.rx.received() == 0,
            r.tx.spec_quota() == r.rx.spec_quota(),
            r.rx.stage() is Connected,
            r.tx.storage() is Connected,
    {
        Self::with_cardinality(1, Cardinality::oneshot())
    }

    /// Separates the guarded endpoints without resetting their cardinality state.
    pub fn into_inner(self) -> (r: (Outputs<T>, Inputs<T>))
        ensures
            r.0 == self.tx,
            r.1 == self.rx,
    {
        (self.tx, self.rx)
    }
}

impl<T: 'static> Channel<T> {
    /// Returns the Rust type ID of message payloads.
    pub fn type_id(&self) -> TypeId {
        type_id_of::<T>()
    }
}

impl<T> Default for Channel<T> {
    /// Two unconnected endpoints without constraints.
    fn default() -> (r: Self)
        ensures
            r.tx.storage() is Unconnected,
            r.rx.stage() is Unconnected,
    {
        Self { tx: Outputs::default(), rx: Inputs::default() }
    }
}

impl<T> From<(Outputs<T>, Inputs<T>)> for Channel<T> {
    fn from(endpoints: (Outputs<T>, Inputs<T>)) -> (r: Self) {
        Self { tx: endpoints.0, rx: endpoints.1 }
    }
}

impl<T> vstd::std_specs::convert::FromSpecImpl<(Outputs<T>, Inputs<T>)> for Channel<T> {
    open spec fn obeys_from_spec() -> bool {
        true
    }

    open spec fn from_spec(endpoints: (Outputs<T>, Inputs<T>)) -> Self {
        Channel { tx: endpoints.0, rx: endpoints.1 }
    }
}

impl<T> From<(::tokio::sync::mpsc::Sender<PortEvent<T>>, ::tokio::sync::mpsc::Receiver<PortEvent<T>>)> for Channel<T> {
    /// Endpoints without constraints around raw Tokio halves.
    fn from(
        halves: (::tokio::sync::mpsc::Sender<PortEvent<T>>, ::tokio::sync::mpsc::Receiver<PortEvent<T>>),
    ) -> (r: Self) {
        Self { tx: Outputs::from(halves.0), rx: Inputs::from(halves.1) }
    }
}

impl<T: 'static> Connection<T> for Channel<T> {}

impl<T> vstd::std_specs::convert::FromSpecImpl<(::tokio::sync::mpsc::Sender<PortEvent<T>>, ::tokio::sync::mpsc::Receiver<PortEvent<T>>)> for Channel<T> {
    /// The conversion observes the channel's state, so it has no spec value.
    open spec fn obeys_from_spec() -> bool {
        false
    }

    open spec fn from_spec(v: (::tokio::sync::mpsc::Sender<PortEvent<T>>, ::tokio::sync::mpsc::Receiver<PortEvent<T>>)) -> Self {
        arbitrary()
    }
}

} // verus!
