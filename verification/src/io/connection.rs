use vstd::prelude::*;
use core::any::TypeId;
use crate::model::type_id_of;

verus! {

/// A message-carrying connection between an output port and an input port.
///
/// Backend-specific channel types provide the transport. This trait exposes
/// the Rust type of the message payload.
pub trait Connection<T: 'static> {
    /// Returns the Rust type ID of the message payload `T`.
    fn type_id(&self) -> TypeId {
        type_id_of::<T>()
    }
}

/// A scheduler for block processes.
///
/// Backends determine how executions of blocks are driven. This is a marker
/// trait; concrete schedulers provide their own scheduling APIs.
pub trait Scheduler {}

} // verus!
