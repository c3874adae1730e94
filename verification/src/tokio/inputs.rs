//! The receiving runtime port.

use vstd::prelude::*;
use core::any::TypeId;
use std::sync::Arc;
use crate::error::RecvError;
use crate::io::{Cardinality, CardinalityBounds, PortDirection, PortEvent, PortState};
use crate::model::type_id_of;
use super::quota::Quota;
use super::sync::{
    receiver_capacity, receiver_close, receiver_is_closed, receiver_is_empty, receiver_max_capacity,
};

verus! {

/// Storage for a Tokio input endpoint.
///
/// [`Inputs::state`] also observes transport closure and quota exhaustion;
/// this enum records which resources the port owns.
#[verifier::reject_recursive_types(T)]
pub enum InputPortState<T> {
    /// No receiver has been attached.
    Unconnected,
    /// Retains a receiver; its senders may subsequently disconnect.
    Connected(::tokio::sync::mpsc::Receiver<PortEvent<T>>),
    /// Retains a closed receiver so accepted events can be drained.
    Disconnected(::tokio::sync::mpsc::Receiver<PortEvent<T>>),
    /// Reception has finished; no receiver is retained.
    ///
    /// This is reported as [`PortState::Disconnected`].
    Ended,
    /// The input was explicitly closed and its receiver released.
    Closed,
}

/// The variant of an [`InputPortState`], without the resources it holds.
#[derive(Clone, Copy, Debug, Eq, PartialEq, Structural)]
pub enum InputStage {
    /// No receiver.
    Unconnected,
    /// A receiver whose channel accepts sends.
    Connected,
    /// A receiver closed to new sends, still draining.
    Disconnected,
    /// Reception finished.
    Ended,
    /// Explicitly closed.
    Closed,
}

impl<T> InputPortState<T> {
    /// The variant of this state.
    pub open spec fn stage(&self) -> InputStage {
        match self {
            InputPortState::Unconnected => InputStage::Unconnected,
            InputPortState::Connected(_) => InputStage::Connected,
            InputPortState::Disconnected(_) => InputStage::Disconnected,
            InputPortState::Ended => InputStage::Ended,
            InputPortState::Closed => InputStage::Closed,
        }
    }
}

impl<T> InputPortState<T> {
    /// The port state this storage reports, observing sender closure on a
    /// retained receiver.
    pub fn port_state(&self) -> (r: PortState)
        ensures
            self is Unconnected ==> r is Unconnected,
            self is Connected ==> (r is Connected || r is Disconnected),
            (self is Disconnected || self is Ended) ==> r is Disconnected,
            self is Closed ==> r is Closed,
    {
        match self {
            InputPortState::Unconnected => PortState::Unconnected,
            InputPortState::Connected(rx) => if receiver_is_closed(rx) {
                PortState::Disconnected
            } else {
                PortState::Connected
            },
            InputPortState::Disconnected(_) | InputPortState::Ended => PortState::Disconnected,
            InputPortState::Closed => PortState::Closed,
        }
    }
}

/// Whether a port in this stage still receives from a channel.
pub open spec fn receives(stage: InputStage) -> bool {
    stage is Connected || stage is Disconnected
}

/// The message count after one more message: counted up to a finite maximum,
/// or, without one, only up to the minimum that still has to be checked.
pub open spec fn count_after_message(bounds: CardinalityBounds, received: usize) -> usize {
    match bounds.1 {
        Some(m) => if received < m {
            (received + 1) as usize
        } else {
            received
        },
        None => if received < bounds.0 {
            (received + 1) as usize
        } else {
            received
        },
    }
}

/// The outcome of ending a stream after `received` messages.
pub open spec fn shortfall(bounds: CardinalityBounds, received: usize) -> Result<(), RecvError> {
    if received < bounds.0 {
        Err(RecvError::CardinalityUnderflow { minimum: bounds.0, received })
    } else {
        Ok(())
    }
}

/// Whether receiving `event` ends the stream, `count` being the message
/// count after it: the maximum was reached, a disconnect marker arrived, or
/// the channel ended on a constrained stream.
pub open spec fn ends_stream<T>(bounds: CardinalityBounds, count: usize, event: Option<PortEvent<T>>) -> bool {
    match event {
        Some(PortEvent::Message(_)) => bounds.1 == Some(count),
        Some(PortEvent::Disconnect) => true,
        Some(PortEvent::Connect) => false,
        None => !(bounds.0 == 0 && bounds.1 is None),
    }
}

/// What a receive reports when it ends the stream with `event`.
pub open spec fn end_report<T>(bounds: CardinalityBounds, count: usize, event: Option<PortEvent<T>>) -> Result<
    Option<PortEvent<T>>,
    RecvError,
> {
    match shortfall(bounds, count) {
        Err(e) => Err(e),
        Ok(_) => Ok(event),
    }
}

/// The count after the received `event` (`None`: the channel ended) on a
/// stream with these bounds after `received` messages, and whether it ends
/// the stream, as [`count_after_message`] and [`ends_stream`] define them.
pub fn tally<T>(bounds: Cardinality, received: usize, event: &Option<PortEvent<T>>) -> (r: (usize, bool))
    ensures
        r.0 == (if *event matches Some(PortEvent::Message(_)) {
            count_after_message(bounds@, received)
        } else {
            received
        }),
        r.1 == ends_stream(bounds@, r.0, *event),
{
    match event {
        Some(PortEvent::Message(_)) => {
            let count = match bounds.max() {
                Some(m) => if received < m {
                    received + 1
                } else {
                    received
                },
                None => if received < bounds.min() {
                    received + 1
                } else {
                    received
                },
            };
            (count, bounds.max() == Some(count))
        },
        Some(PortEvent::Disconnect) => (received, true),
        Some(PortEvent::Connect) => (received, false),
        None => (received, !bounds.is_unconstrained()),
    }
}

/// What a message receive makes of a received event: `Some(Some(payload))`
/// for a message, `Some(None)` (EOF) for a disconnect marker or the end of
/// the stream, and `None` to skip an informational connect event.
pub fn message_of<T>(event: Option<PortEvent<T>>) -> (r: Option<Option<T>>)
    ensures
        r == match event {
            Some(PortEvent::Message(m)) => Some(Some(m)),
            Some(PortEvent::Connect) => None,
            _ => Some(None::<T>),
        },
{
    match event {
        Some(PortEvent::Message(m)) => Some(Some(m)),
        Some(PortEvent::Connect) => None,
        _ => Some(None),
    }
}

/// A receiving runtime port for messages of type `T`.
///
/// Counts are shared across receives; control events do not count. Reaching
/// the maximum returns the last message and ends the input. Premature EOF or a
/// disconnect marker reports [`RecvError::CardinalityUnderflow`] once; later
/// receives return `Ok(None)`. Explicit [`close`](Self::close) skips the check.
#[verifier::reject_recursive_types(T)]
pub struct Inputs<T> {
    state: InputPortState<T>,
    quota: Arc<Quota>,
    received: usize,
}

impl<T> Inputs<T> {
    /// The effective bounds of the stream.
    pub closed spec fn bounds(self) -> Cardinality {
        self.quota.spec_bounds()
    }

    /// The quota this input counts against, shared with its senders.
    pub closed spec fn spec_quota(self) -> Arc<Quota> {
        self.quota
    }

    /// The messages counted so far.
    pub closed spec fn received(self) -> usize {
        self.received
    }

    /// The variant of the port's storage.
    pub closed spec fn stage(self) -> InputStage {
        self.state.stage()
    }

    /// Creates an input with no receiver and these effective bounds.
    pub fn unconnected(bounds: Cardinality) -> (r: Self)
        ensures
            r.bounds() == bounds,
            r.received() == 0,
            r.stage() is Unconnected,
    {
        Self { state: InputPortState::Unconnected, quota: Quota::new(bounds), received: 0 }
    }

    /// Creates an input retaining `rx`, counting against `quota`.
    ///
    /// A zero maximum creates an already-ended stream; a receiver whose senders
    /// are gone starts disconnected.
    pub fn with_receiver(rx: ::tokio::sync::mpsc::Receiver<PortEvent<T>>, quota: Arc<Quota>) -> (r: Self)
        ensures
            r.bounds() == quota.spec_bounds(),
            r.spec_quota() == quota,
            r.received() == 0,
            quota.spec_bounds()@.1 == Some(0usize) ==> r.stage() is Ended,
            quota.spec_bounds()@.1 != Some(0usize) ==> (r.stage() is Connected || r.stage() is Disconnected),
    {
        let state = if quota.bounds().max() == Some(0) {
            InputPortState::Ended
        } else if receiver_is_closed(&rx) {
            InputPortState::Disconnected(rx)
        } else {
            InputPortState::Connected(rx)
        };
        Self { state, quota, received: 0 }
    }

    /// Creates an input retaining the receiving half of a channel made just
    /// now, whose sender is still held: it starts connected unless a zero
    /// maximum ends it at once.
    pub(crate) fn with_fresh_receiver(rx: ::tokio::sync::mpsc::Receiver<PortEvent<T>>, quota: Arc<Quota>) -> (r: Self)
        ensures
            r.bounds() == quota.spec_bounds(),
            r.spec_quota() == quota,
            r.received() == 0,
            quota.spec_bounds()@.1 == Some(0usize) ==> r.stage() is Ended,
            quota.spec_bounds()@.1 != Some(0usize) ==> r.stage() is Connected,
    {
        let state = if quota.bounds().max() == Some(0) {
            InputPortState::Ended
        } else {
            InputPortState::Connected(rx)
        };
        Self { state, quota, received: 0 }
    }

    /// Returns effective lifetime message-count bounds, including negotiated limits.
    pub fn cardinality(&self) -> (r: Cardinality)
        ensures
            r == self.bounds(),
    {
        self.quota.bounds()
    }

    /// Returns the number of messages counted so far.
    pub fn received_count(&self) -> (r: usize)
        ensures
            r == self.received(),
    {
        self.received
    }

    /// Returns the quota shared with this input's senders.
    pub fn quota(&self) -> (r: &Arc<Quota>)
        ensures
            r.spec_bounds() == self.bounds(),
            *r == self.spec_quota(),
    {
        &self.quota
    }

    /// Ends reception and checks the minimum.
    fn finish(&mut self) -> (r: Result<(), RecvError>)
        ensures
            final(self).stage() is Ended,
            final(self).bounds() == old(self).bounds(),
            final(self).received() == old(self).received(),
            r == shortfall(old(self).bounds()@, old(self).received()),
    {
        self.state = InputPortState::Ended;
        let minimum = self.quota.bounds().min();
        if self.received < minimum {
            Err(RecvError::CardinalityUnderflow { minimum, received: self.received })
        } else {
            Ok(())
        }
    }

    /// Closes this input and discards all buffered events immediately.
    ///
    /// All senders observe a disconnected receiver. Repeated calls are harmless;
    /// this port cannot be reopened by a control event.
    pub fn close(&mut self)
        ensures
            final(self).stage() is Closed,
            final(self).bounds() == old(self).bounds(),
            final(self).received() == old(self).received(),
    {
        let mut state = InputPortState::Closed;
        core::mem::swap(&mut state, &mut self.state);
        match state {
            InputPortState::Connected(mut rx) => {
                if !receiver_is_closed(&rx) {
                    receiver_close(&mut rx);
                }
            },
            _ => {},
        }
    }

    /// Stops new sends while retaining accepted events for draining.
    ///
    /// This is idempotent and leaves unconnected, ended, or closed inputs in
    /// their current states.
    pub fn disconnect(&mut self)
        ensures
            old(self).stage() is Connected ==> final(self).stage() is Disconnected,
            !(old(self).stage() is Connected) ==> final(self).stage() == old(self).stage(),
            final(self).bounds() == old(self).bounds(),
            final(self).received() == old(self).received(),
    {
        let mut state = InputPortState::Closed;
        core::mem::swap(&mut state, &mut self.state);
        self.state = match state {
            InputPortState::Connected(mut rx) => {
                if !receiver_is_closed(&rx) {
                    receiver_close(&mut rx);
                }
                InputPortState::Disconnected(rx)
            },
            other => other,
        };
    }

    /// Stops new sends once the quota allows no further message, so that the
    /// input drains what was sent and ends without waiting for its senders.
    pub fn disconnect_if_exhausted(&mut self)
        ensures
            old(self).stage() is Connected ==> (final(self).stage() is Connected
                || final(self).stage() is Disconnected),
            !(old(self).stage() is Connected) ==> final(self).stage() == old(self).stage(),
            final(self).bounds() == old(self).bounds(),
            final(self).received() == old(self).received(),
    {
        if self.quota.check().is_err() {
            self.disconnect();
        }
    }

    /// Returns [`PortDirection::Input`].
    pub fn direction(&self) -> (r: PortDirection)
        ensures
            r is Input,
    {
        PortDirection::Input
    }

    /// Returns the endpoint state, observing closure or exhausted quota as disconnection.
    ///
    /// `Disconnected` does not imply an empty buffer or that EOF is ready.
    pub fn state(&self) -> (r: PortState)
        ensures
            self.stage() is Unconnected ==> r is Unconnected,
            self.stage() is Connected ==> (r is Connected || r is Disconnected),
            (self.stage() is Disconnected || self.stage() is Ended) ==> r is Disconnected,
            self.stage() is Closed ==> r is Closed,
    {
        match &self.state {
            InputPortState::Connected(_) => if self.quota.check().is_err() {
                PortState::Disconnected
            } else {
                self.state.port_state()
            },
            _ => self.state.port_state(),
        }
    }

    /// Reports whether there are currently no buffered events, including controls.
    ///
    /// This snapshot does not indicate EOF: senders may still deliver events.
    pub fn is_empty(&self) -> (r: bool)
        ensures
            !receives(self.stage()) ==> r,
    {
        match &self.state {
            InputPortState::Connected(rx) | InputPortState::Disconnected(rx) => receiver_is_empty(rx),
            _ => true,
        }
    }

    /// Returns remaining event-buffer capacity while a receiver is retained.
    pub fn capacity(&self) -> (r: Option<usize>)
        ensures
            !receives(self.stage()) ==> r is None,
            receives(self.stage()) ==> r is Some,
    {
        match &self.state {
            InputPortState::Connected(rx) | InputPortState::Disconnected(rx) => Some(receiver_capacity(rx)),
            _ => None,
        }
    }

    /// Returns the total event-buffer capacity while a receiver is retained.
    pub fn max_capacity(&self) -> (r: Option<usize>)
        ensures
            !receives(self.stage()) ==> r is None,
            receives(self.stage()) ==> r is Some,
    {
        match &self.state {
            InputPortState::Connected(rx) | InputPortState::Disconnected(rx) => Some(
                receiver_max_capacity(rx),
            ),
            _ => None,
        }
    }

    /// Resolves a receive that needs no channel.
    ///
    /// Returns `None` while a receiver or merged producers are retained: the
    /// event must then be received and handed to [`complete_recv`](Self::complete_recv).
    /// Otherwise returns the receive's result: a required unconnected input
    /// ends and reports its shortfall once; every other input reports EOF.
    pub fn recv_without_channel(&mut self) -> (r: Option<Result<Option<PortEvent<T>>, RecvError>>)
        ensures
            final(self).bounds() == old(self).bounds(),
            final(self).received() == old(self).received(),
            receives(old(self).stage()) ==> r is None && final(self).stage() == old(self).stage(),
            old(self).stage() is Ended || old(self).stage() is Closed ==> final(self).stage() == old(
                self,
            ).stage() && r == Some(Ok::<Option<PortEvent<T>>, RecvError>(None)),
            old(self).stage() is Unconnected && old(self).bounds()@.0 > 0 ==> final(self).stage() is Ended
                && r == Some(end_report(old(self).bounds()@, old(self).received(), None::<PortEvent<T>>)),
            !receives(old(self).stage()) && !(old(self).stage() is Unconnected && old(self).bounds()@.0
                > 0) ==> final(self).stage() == old(self).stage() && r == Some(
                Ok::<Option<PortEvent<T>>, RecvError>(None),
            ),
    {
        match &self.state {
            InputPortState::Connected(_) | InputPortState::Disconnected(_) => None,
            InputPortState::Unconnected => {
                if self.quota.bounds().min() > 0 {
                    match self.finish() {
                        Err(e) => Some(Err(e)),
                        Ok(()) => Some(Ok(None)),
                    }
                } else {
                    Some(Ok(None))
                }
            },
            _ => Some(Ok(None)),
        }
    }

    /// Accounts for an event received from the channel (`None`: the channel ended).
    ///
    /// Messages count toward the bounds. The stream ends when its maximum is
    /// reached, on a disconnect marker, or when a constrained channel ends;
    /// ending below the minimum reports [`RecvError::CardinalityUnderflow`].
    pub fn complete_recv(&mut self, event: Option<PortEvent<T>>) -> (r: Result<Option<PortEvent<T>>, RecvError>)
        ensures
            ({
                let b = old(self).bounds()@;
                let n = if event matches Some(PortEvent::Message(_)) {
                    count_after_message(b, old(self).received())
                } else {
                    old(self).received()
                };
                &&& final(self).bounds() == old(self).bounds()
                &&& final(self).received() == n
                &&& ends_stream(b, n, event) ==> final(self).stage() is Ended && r == end_report(b, n, event)
                &&& !ends_stream(b, n, event) ==> final(self).stage() == old(self).stage() && r == Ok::<
                    Option<PortEvent<T>>,
                    RecvError,
                >(event)
            }),
    {
        let (count, ends) = tally(self.quota.bounds(), self.received, &event);
        self.received = count;
        if ends {
            match self.finish() {
                Err(e) => Err(e),
                Ok(()) => Ok(event),
            }
        } else {
            Ok(event)
        }
    }

    /// The retained receiver, if any, for receiving the next event.
    pub fn receiver_mut(&mut self) -> (r: Option<&mut ::tokio::sync::mpsc::Receiver<PortEvent<T>>>)
        ensures
            r is Some <==> (old(self).stage() is Connected || old(self).stage() is Disconnected),
            final(self).stage() == old(self).stage(),
            final(self).bounds() == old(self).bounds(),
            final(self).received() == old(self).received(),
    {
        match &mut self.state {
            InputPortState::Connected(rx) => Some(rx),
            InputPortState::Disconnected(rx) => Some(rx),
            _ => None,
        }
    }
}

impl<T> Inputs<T> {
    /// The retained receiver of an unconstrained input, for raw access.
    ///
    /// Constrained inputs give none, so raw receives cannot bypass their counts.
    pub fn as_ref(&self) -> (r: Option<&::tokio::sync::mpsc::Receiver<PortEvent<T>>>)
        ensures
            r is Some <==> receives(self.stage()) && self.bounds()@ == (0usize, None::<usize>),
    {
        if !self.quota.bounds().is_unconstrained() {
            return None;
        }
        match &self.state {
            InputPortState::Connected(rx) => Some(rx),
            InputPortState::Disconnected(rx) => Some(rx),
            _ => None,
        }
    }

    /// The retained receiver of an unconstrained input, for raw mutable access.
    ///
    /// Constrained inputs give none, so raw receives cannot bypass their counts.
    pub fn as_mut(&mut self) -> (r: Option<&mut ::tokio::sync::mpsc::Receiver<PortEvent<T>>>)
        ensures
            r is Some <==> receives(old(self).stage()) && old(self).bounds()@ == (0usize, None::<usize>),
            final(self).stage() == old(self).stage(),
            final(self).bounds() == old(self).bounds(),
            final(self).received() == old(self).received(),
    {
        if !self.quota.bounds().is_unconstrained() {
            return None;
        }
        self.receiver_mut()
    }
}

impl<T> From<::tokio::sync::mpsc::Receiver<PortEvent<T>>> for Inputs<T> {
    /// An input without constraints retaining `rx`.
    fn from(rx: ::tokio::sync::mpsc::Receiver<PortEvent<T>>) -> (r: Self) {
        Self::with_receiver(rx, Quota::new(Cardinality::unlimited()))
    }
}

impl<T: 'static> Inputs<T> {
    /// Returns the Rust type ID of message payloads accepted by this input.
    pub fn type_id(&self) -> TypeId {
        type_id_of::<T>()
    }
}

impl<T> Default for Inputs<T> {
    fn default() -> (r: Self)
        ensures
            r.stage() is Unconnected,
            r.bounds()@ == (0usize, None::<usize>),
            r.received() == 0,
    {
        Self::unconnected(Cardinality::unlimited())
    }
}

impl<T> vstd::std_specs::convert::FromSpecImpl<::tokio::sync::mpsc::Receiver<PortEvent<T>>> for Inputs<T> {
    /// The conversion observes the channel's state, so it has no spec value.
    open spec fn obeys_from_spec() -> bool {
        false
    }

    open spec fn from_spec(v: ::tokio::sync::mpsc::Receiver<PortEvent<T>>) -> Self {
        arbitrary()
    }
}

} // verus!
