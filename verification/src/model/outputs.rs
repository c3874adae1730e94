use vstd::prelude::*;
use core::any::TypeId;
use core::marker::PhantomData;
use core::ops::Bound;
use crate::io::Cardinality;
use super::port_id::OutputPortId;
use super::type_id::type_id_of;

verus! {

/// An output-port descriptor for messages of type `T` in a system definition.
///
/// This identifies a connection point and declares its message cardinality.
/// Runtime backends provide the sending endpoint separately.
#[derive(Debug)]
pub struct Outputs<T> {
    id: OutputPortId,
    cardinality: Cardinality,
    marker: PhantomData<T>,
}

impl<T> View for Outputs<T> {
    type V = (OutputPortId, Cardinality);

    closed spec fn view(&self) -> (OutputPortId, Cardinality) {
        (self.id, self.cardinality)
    }
}

impl<T> Clone for Outputs<T> {
    fn clone(&self) -> (r: Self)
        ensures
            r@ == self@,
    {
        Self { id: self.id, cardinality: self.cardinality, marker: PhantomData }
    }
}

impl<T> Outputs<T> {
    /// Creates a descriptor with the given ID and no message-count constraint.
    pub fn new(id: OutputPortId) -> (r: Self)
        ensures
            r@.0 == id,
            r@.1@ == (0usize, None::<usize>),
    {
        Self { id, cardinality: Cardinality::unlimited(), marker: PhantomData }
    }

    /// Creates a descriptor with the given ID and message-count constraint.
    pub fn with_cardinality(id: OutputPortId, cardinality: Cardinality) -> (r: Self)
        ensures
            r@ == (id, cardinality),
    {
        Self { id, cardinality, marker: PhantomData }
    }

    /// Returns the port identifier.
    pub fn id(&self) -> (r: OutputPortId)
        ensures
            r == self@.0,
    {
        self.id
    }

    /// Returns the declared message-count constraint.
    pub fn message_cardinality(&self) -> (r: Cardinality)
        ensures
            r == self@.1,
    {
        self.cardinality
    }

    /// Returns the declared lower and upper bounds on messages for this port.
    ///
    /// These bounds describe message cardinality, not the number of connections.
    pub fn cardinality(&self) -> (r: (Bound<usize>, Bound<usize>))
        ensures
            r.0 == Bound::Included(self@.1@.0),
            r.1 == match self@.1@.1 {
                Some(max) => Bound::Included(max),
                None => Bound::<usize>::Unbounded,
            },
    {
        self.cardinality.bounds()
    }
}

impl<T: 'static> Outputs<T> {
    /// Returns the Rust type ID of the message payload.
    pub fn type_id(&self) -> TypeId {
        type_id_of::<T>()
    }
}

} // verus!
