//! Tokio synchronization primitives used by the runtime ports.

use vstd::prelude::*;

verus! {

/// `tokio::sync::mpsc::Sender`, carried as an opaque value.
#[verifier::external_type_specification]
#[verifier::external_body]
#[verifier::reject_recursive_types(T)]
pub struct ExSender<T>(::tokio::sync::mpsc::Sender<T>);

/// `tokio::sync::mpsc::Receiver`, carried as an opaque value.
#[verifier::external_type_specification]
#[verifier::external_body]
#[verifier::reject_recursive_types(T)]
pub struct ExReceiver<T>(::tokio::sync::mpsc::Receiver<T>);

/// `tokio::sync::Notify`, carried as an opaque value.
#[verifier::external_type_specification]
#[verifier::external_body]
pub struct ExNotify(::tokio::sync::Notify);

/// `tokio::sync::Mutex`, carried as an opaque value.
#[verifier::external_type_specification]
#[verifier::external_body]
#[verifier::reject_recursive_types(T)]
pub struct ExMutex<T: ?Sized>(::tokio::sync::Mutex<T>);

/// The largest buffer that `tokio::sync::mpsc::channel` accepts
/// (`tokio::sync::Semaphore::MAX_PERMITS`, `usize::MAX >> 3`).
pub open spec fn max_channel_buffer() -> usize {
    (usize::MAX / 8) as usize
}

/// Calls `tokio::sync::mpsc::channel(buffer)`.
///
/// Tokio panics when `buffer` is zero or above its semaphore's permit limit,
/// so both are excluded. Nothing is stated of the two opaque endpoints.
#[verifier::external_body]
pub(crate) fn mpsc_channel<T>(buffer: usize) -> (::tokio::sync::mpsc::Sender<T>, ::tokio::sync::mpsc::Receiver<T>)
    requires
        0 < buffer <= max_channel_buffer(),
{
    ::tokio::sync::mpsc::channel(buffer)
}

/// Calls `Sender::is_closed`: whether the receiver has closed or dropped.
/// The answer depends on the peer's state and is left free.
#[verifier::external_body]
pub(crate) fn sender_is_closed<T>(tx: &::tokio::sync::mpsc::Sender<T>) -> bool {
    tx.is_closed()
}

/// Calls `Sender::capacity`. The free space depends on the channel's state.
#[verifier::external_body]
pub(crate) fn sender_capacity<T>(tx: &::tokio::sync::mpsc::Sender<T>) -> usize {
    tx.capacity()
}

/// Calls `Sender::max_capacity`: the buffer size the channel was created with.
#[verifier::external_body]
pub(crate) fn sender_max_capacity<T>(tx: &::tokio::sync::mpsc::Sender<T>) -> usize {
    tx.max_capacity()
}

/// Calls `Receiver::is_closed`. The answer depends on the senders' state and is left free.
#[verifier::external_body]
pub(crate) fn receiver_is_closed<T>(rx: &::tokio::sync::mpsc::Receiver<T>) -> bool {
    rx.is_closed()
}

/// Calls `Receiver::close`, which stops new sends while keeping buffered events.
#[verifier::external_body]
pub(crate) fn receiver_close<T>(rx: &mut ::tokio::sync::mpsc::Receiver<T>) {
    rx.close()
}

/// Calls `Receiver::is_empty`. The answer depends on the senders and is left free.
#[verifier::external_body]
pub(crate) fn receiver_is_empty<T>(rx: &::tokio::sync::mpsc::Receiver<T>) -> bool {
    rx.is_empty()
}

/// Calls `Receiver::capacity`. The free space depends on the channel's state.
#[verifier::external_body]
pub(crate) fn receiver_capacity<T>(rx: &::tokio::sync::mpsc::Receiver<T>) -> usize {
    rx.capacity()
}

/// Calls `Receiver::max_capacity`: the buffer size the channel was created with.
#[verifier::external_body]
pub(crate) fn receiver_max_capacity<T>(rx: &::tokio::sync::mpsc::Receiver<T>) -> usize {
    rx.max_capacity()
}

/// Calls `Notify::new`.
#[verifier::external_body]
pub(crate) fn new_notify() -> ::tokio::sync::Notify {
    ::tokio::sync::Notify::new()
}

/// Calls `Notify::notify_waiters`, waking every task currently waiting.
#[verifier::external_body]
pub(crate) fn notify_waiters(notify: &::tokio::sync::Notify) {
    notify.notify_waiters()
}

/// Calls `Mutex::new(())` for a gate that carries no data.
#[verifier::external_body]
pub(crate) fn new_gate() -> ::tokio::sync::Mutex<()> {
    ::tokio::sync::Mutex::new(())
}

/// Calls `Arc::clone`: another pointer to the same allocation, so its
/// pointee is the same value.
#[verifier::external_body]
pub(crate) fn share<T>(a: &std::sync::Arc<T>) -> (r: std::sync::Arc<T>)
    ensures
        *r == **a,
{
    std::sync::Arc::clone(a)
}

/// Calls `Sender::clone`: another handle to the same channel. Nothing is
/// stated of the new handle, an opaque value.
#[verifier::external_body]
pub(crate) fn clone_sender<T>(tx: &::tokio::sync::mpsc::Sender<T>) -> ::tokio::sync::mpsc::Sender<T> {
    tx.clone()
}

} // verus!
