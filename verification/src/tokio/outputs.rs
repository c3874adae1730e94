//! The sending runtime port.

use vstd::prelude::*;
use core::any::TypeId;
use std::sync::Arc;
use crate::error::SendError;
use crate::io::{Cardinality, PortDirection, PortEvent, PortState};
use crate::model::type_id_of;
use super::quota::Quota;
use super::sync::{clone_sender, sender_capacity, sender_is_closed, sender_max_capacity, share};

verus! {

/// Storage for a Tokio output handle.
///
/// [`Outputs::state`] additionally observes receiver closure on a retained sender.
#[verifier::reject_recursive_types(T)]
pub enum OutputPortState<T> {
    /// No sender has been attached.
    Unconnected,
    /// Retains a sender; its receiver may subsequently disconnect.
    Connected(::tokio::sync::mpsc::Sender<PortEvent<T>>),
    /// The connection was already disconnected when the port was constructed.
    Disconnected,
    /// This output handle was explicitly closed and its sender released.
    Closed,
}

impl<T> OutputPortState<T> {
    /// The port state this storage reports, observing receiver closure on a
    /// retained sender.
    pub fn port_state(&self) -> (r: PortState)
        ensures
            self is Unconnected ==> r is Unconnected,
            self is Connected ==> (r is Connected || r is Disconnected),
            self is Disconnected ==> r is Disconnected,
            self is Closed ==> r is Closed,
    {
        match self {
            OutputPortState::Unconnected => PortState::Unconnected,
            OutputPortState::Connected(tx) => if sender_is_closed(tx) {
                PortState::Disconnected
            } else {
                PortState::Connected
            },
            OutputPortState::Disconnected => PortState::Disconnected,
            OutputPortState::Closed => PortState::Closed,
        }
    }
}

/// A sending runtime port sharing a bounded connection with its cloned handles.
///
/// Cloning an output shares the sender and the quota; it does not copy
/// queued messages. [`close`](Self::close) and dropping an output release only
/// that handle.
#[verifier::reject_recursive_types(T)]
pub struct Outputs<T> {
    state: OutputPortState<T>,
    quota: Arc<Quota>,
}

impl<T> Outputs<T> {
    /// The effective bounds of the stream.
    pub closed spec fn bounds(self) -> Cardinality {
        self.quota.spec_bounds()
    }

    /// The quota this output counts against, shared with its receiver and clones.
    pub closed spec fn spec_quota(self) -> Arc<Quota> {
        self.quota
    }

    /// The storage of the handle.
    pub closed spec fn storage(self) -> OutputPortState<T> {
        self.state
    }

    /// Creates an output with no sender and these effective bounds.
    pub fn unconnected(bounds: Cardinality) -> (r: Self)
        ensures
            r.bounds() == bounds,
            r.storage() is Unconnected,
    {
        Self { state: OutputPortState::Unconnected, quota: Quota::new(bounds) }
    }

    /// Creates an output retaining `tx`, counting against `quota`; a sender
    /// whose receiver is gone starts disconnected.
    pub fn with_sender(tx: ::tokio::sync::mpsc::Sender<PortEvent<T>>, quota: Arc<Quota>) -> (r: Self)
        ensures
            r.bounds() == quota.spec_bounds(),
            r.spec_quota() == quota,
            r.storage() is Connected || r.storage() is Disconnected,
    {
        let state = if sender_is_closed(&tx) {
            OutputPortState::Disconnected
        } else {
            OutputPortState::Connected(tx)
        };
        Self { state, quota }
    }

    /// Creates an output retaining the sending half of a channel made just
    /// now, whose receiver is still held: it starts connected.
    pub(crate) fn with_fresh_sender(tx: ::tokio::sync::mpsc::Sender<PortEvent<T>>, quota: Arc<Quota>) -> (r: Self)
        ensures
            r.bounds() == quota.spec_bounds(),
            r.spec_quota() == quota,
            r.storage() is Connected,
    {
        Self { state: OutputPortState::Connected(tx), quota }
    }

    /// Returns effective lifetime message-count bounds, including negotiated limits.
    pub fn cardinality(&self) -> (r: Cardinality)
        ensures
            r == self.bounds(),
    {
        self.quota.bounds()
    }

    /// Returns the quota shared with the receiving input and cloned handles.
    pub fn quota(&self) -> (r: &Arc<Quota>)
        ensures
            r.spec_bounds() == self.bounds(),
            *r == self.spec_quota(),
    {
        &self.quota
    }

    /// Closes this output handle without affecting other sender handles.
    ///
    /// This is idempotent and does not enqueue a disconnect event.
    pub fn close(&mut self)
        ensures
            final(self).storage() is Closed,
            final(self).bounds() == old(self).bounds(),
    {
        self.state = OutputPortState::Closed;
    }

    /// Returns [`PortDirection::Output`].
    pub fn direction(&self) -> (r: PortDirection)
        ensures
            r is Output,
    {
        PortDirection::Output
    }

    /// Returns this handle's state, observing receiver closure as disconnection.
    ///
    /// Explicitly closed handles remain `Closed` regardless of their peers.
    pub fn state(&self) -> (r: PortState)
        ensures
            self.storage() is Unconnected ==> r is Unconnected,
            self.storage() is Connected ==> (r is Connected || r is Disconnected),
            self.storage() is Disconnected ==> r is Disconnected,
            self.storage() is Closed ==> r is Closed,
    {
        self.state.port_state()
    }

    /// Returns remaining event-buffer capacity while a sender is retained.
    pub fn capacity(&self) -> (r: Option<usize>)
        ensures
            r is Some <==> self.storage() is Connected,
    {
        match &self.state {
            OutputPortState::Connected(tx) => Some(sender_capacity(tx)),
            _ => None,
        }
    }

    /// Returns the total event-buffer capacity while a sender is retained.
    pub fn max_capacity(&self) -> (r: Option<usize>)
        ensures
            r is Some <==> self.storage() is Connected,
    {
        match &self.state {
            OutputPortState::Connected(tx) => Some(sender_max_capacity(tx)),
            _ => None,
        }
    }

    /// The retained sender, if any, for sending the next event.
    pub fn sender(&self) -> (r: Option<&::tokio::sync::mpsc::Sender<PortEvent<T>>>)
        ensures
            r is Some <==> self.storage() is Connected,
    {
        match &self.state {
            OutputPortState::Connected(tx) => Some(tx),
            _ => None,
        }
    }

    /// Why a send cannot start, or `None` while a sender is retained: an
    /// unconnected, disconnected, or closed handle refuses with that state.
    pub fn send_refusal(&self) -> (r: Option<SendError>)
        ensures
            self.storage() is Connected <==> r is None,
            self.storage() is Unconnected ==> r == Some(SendError::Unconnected),
            self.storage() is Disconnected ==> r == Some(SendError::Disconnected),
            self.storage() is Closed ==> r == Some(SendError::Closed),
    {
        match &self.state {
            OutputPortState::Connected(_) => None,
            OutputPortState::Unconnected => Some(SendError::Unconnected),
            OutputPortState::Disconnected => Some(SendError::Disconnected),
            OutputPortState::Closed => Some(SendError::Closed),
        }
    }

    /// Whether sending `event` counts against the quota: only messages do.
    pub fn counts(event: &PortEvent<T>) -> (r: bool)
        ensures
            r <==> event is Message,
    {
        match event {
            PortEvent::Message(_) => true,
            _ => false,
        }
    }
}

impl<T> Outputs<T> {
    /// The retained sender, for raw access.
    pub fn as_ref(&self) -> (r: Option<&::tokio::sync::mpsc::Sender<PortEvent<T>>>)
        ensures
            r is Some <==> self.storage() is Connected,
    {
        self.sender()
    }

    /// The retained sender, for raw mutable access.
    pub fn as_mut(&mut self) -> (r: Option<&mut ::tokio::sync::mpsc::Sender<PortEvent<T>>>)
        ensures
            r is Some <==> old(self).storage() is Connected,
            final(self).bounds() == old(self).bounds(),
    {
        match &mut self.state {
            OutputPortState::Connected(tx) => Some(tx),
            _ => None,
        }
    }
}

impl<T> From<::tokio::sync::mpsc::Sender<PortEvent<T>>> for Outputs<T> {
    /// An output without constraints retaining `tx`.
    fn from(tx: ::tokio::sync::mpsc::Sender<PortEvent<T>>) -> (r: Self) {
        Self::with_sender(tx, Quota::new(Cardinality::unlimited()))
    }
}

impl<T> From<&::tokio::sync::mpsc::Sender<PortEvent<T>>> for Outputs<T> {
    /// An output without constraints retaining a clone of `tx`.
    fn from(tx: &::tokio::sync::mpsc::Sender<PortEvent<T>>) -> (r: Self) {
        Self::with_sender(clone_sender(tx), Quota::new(Cardinality::unlimited()))
    }
}

impl<T: 'static> Outputs<T> {
    /// Returns the Rust type ID of message payloads sent by this output.
    pub fn type_id(&self) -> TypeId {
        type_id_of::<T>()
    }
}

impl<T> Default for Outputs<T> {
    fn default() -> (r: Self)
        ensures
            r.storage() is Unconnected,
            r.bounds()@ == (0usize, None::<usize>),
    {
        Self::unconnected(Cardinality::unlimited())
    }
}

impl<T> Clone for OutputPortState<T> {
    /// Another handle in the same state; a retained sender is cloned.
    fn clone(&self) -> (r: Self)
        ensures
            self is Unconnected ==> r is Unconnected,
            self is Connected ==> r is Connected,
            self is Disconnected ==> r is Disconnected,
            self is Closed ==> r is Closed,
    {
        match self {
            OutputPortState::Unconnected => OutputPortState::Unconnected,
            OutputPortState::Connected(tx) => OutputPortState::Connected(clone_sender(tx)),
            OutputPortState::Disconnected => OutputPortState::Disconnected,
            OutputPortState::Closed => OutputPortState::Closed,
        }
    }
}

impl<T> Clone for Outputs<T> {
    /// Another handle to the same connection, sharing its quota.
    fn clone(&self) -> (r: Self)
        ensures
            r.bounds() == self.bounds(),
            r.spec_quota() == self.spec_quota(),
            self.storage() is Unconnected ==> r.storage() is Unconnected,
            self.storage() is Connected ==> r.storage() is Connected,
            self.storage() is Disconnected ==> r.storage() is Disconnected,
            self.storage() is Closed ==> r.storage() is Closed,
    {
        Self { state: self.state.clone(), quota: share(&self.quota) }
    }
}

impl<T> vstd::std_specs::convert::FromSpecImpl<::tokio::sync::mpsc::Sender<PortEvent<T>>> for Outputs<T> {
    /// The conversion observes the channel's state, so it has no spec value.
    open spec fn obeys_from_spec() -> bool {
        false
    }

    open spec fn from_spec(v: ::tokio::sync::mpsc::Sender<PortEvent<T>>) -> Self {
        arbitrary()
    }
}

impl<T> vstd::std_specs::convert::FromSpecImpl<&::tokio::sync::mpsc::Sender<PortEvent<T>>> for Outputs<T> {
    /// The conversion observes the channel's state, so it has no spec value.
    open spec fn obeys_from_spec() -> bool {
        false
    }

    open spec fn from_spec(v: &::tokio::sync::mpsc::Sender<PortEvent<T>>) -> Self {
        arbitrary()
    }
}

} // verus!
