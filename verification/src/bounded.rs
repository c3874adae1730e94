//! Plain bounded Tokio channels without port semantics.

use vstd::prelude::*;
use crate::tokio::{max_channel_buffer, mpsc_channel};

verus! {

/// The receiving half of a plain bounded channel.
#[verifier::reject_recursive_types(T)]
pub struct BoundedInputPort<T> {
    /// The Tokio receiver.
    pub receiver: ::tokio::sync::mpsc::Receiver<T>,
}

/// The sending half of a plain bounded channel.
#[verifier::reject_recursive_types(T)]
pub struct BoundedOutputPort<T> {
    /// The Tokio sender.
    pub sender: ::tokio::sync::mpsc::Sender<T>,
}

impl<T> BoundedInputPort<T> {
    /// The receiver.
    pub fn as_receiver(&self) -> (r: &::tokio::sync::mpsc::Receiver<T>)
        ensures
            *r == self.receiver,
    {
        &self.receiver
    }

    /// The receiver, mutably.
    pub fn as_receiver_mut(&mut self) -> (r: &mut ::tokio::sync::mpsc::Receiver<T>)
        ensures
            *r == old(self).receiver,
            final(self).receiver == *final(r),
    {
        &mut self.receiver
    }
}

impl<T> BoundedOutputPort<T> {
    /// The sender.
    pub fn as_sender(&self) -> (r: &::tokio::sync::mpsc::Sender<T>)
        ensures
            *r == self.sender,
    {
        &self.sender
    }
}

impl<T> From<::tokio::sync::mpsc::Receiver<T>> for BoundedInputPort<T> {
    fn from(receiver: ::tokio::sync::mpsc::Receiver<T>) -> (r: Self) {
        Self { receiver }
    }
}

impl<T> vstd::std_specs::convert::FromSpecImpl<::tokio::sync::mpsc::Receiver<T>> for BoundedInputPort<T> {
    open spec fn obeys_from_spec() -> bool {
        true
    }

    open spec fn from_spec(receiver: ::tokio::sync::mpsc::Receiver<T>) -> Self {
        BoundedInputPort { receiver }
    }
}

impl<T> From<::tokio::sync::mpsc::Sender<T>> for BoundedOutputPort<T> {
    fn from(sender: ::tokio::sync::mpsc::Sender<T>) -> (r: Self) {
        Self { sender }
    }
}

impl<T> vstd::std_specs::convert::FromSpecImpl<::tokio::sync::mpsc::Sender<T>> for BoundedOutputPort<T> {
    open spec fn obeys_from_spec() -> bool {
        true
    }

    open spec fn from_spec(sender: ::tokio::sync::mpsc::Sender<T>) -> Self {
        BoundedOutputPort { sender }
    }
}

/// Creates a plain bounded channel with `buffer` slots.
pub fn bounded<T>(buffer: usize) -> (r: (BoundedOutputPort<T>, BoundedInputPort<T>))
    requires
        0 < buffer <= max_channel_buffer(),
{
    let (tx, rx) = mpsc_channel::<T>(buffer);
    (BoundedOutputPort::from(tx), BoundedInputPort::from(rx))
}

} // verus!
