use vstd::prelude::*;
use core::any::TypeId;
use core::marker::PhantomData;
use core::ops::Bound;
use crate::io::Cardinality;
use super::port_id::InputPortId;
use super::type_id::type_id_of;

verus! {

/// An input-port descriptor for messages of type `T` in a system definition.
///
/// This identifies a connection point and declares its message cardinality.
/// Runtime backends provide the receiving endpoint separately.
#[derive(Debug)]
pub struct Inputs<T> {
    id: InputPortId,
    cardinality: Cardinality,
    marker: PhantomData<T>,
}

impl<T> View for Inputs<T> {
    type V = (InputPortId, Cardinality);

    closed spec fn view(&self) -> (InputPortId, Cardinality) {
        (self.id, self.cardinality)
    }
}

impl<T> Clone for Inputs<T> {
    fn clone(&self) -> (r: Self)
        ensures
            r@ == self@,
    {
        Self { id: self.id, cardinality: self.cardinality, marker: PhantomData }
    }
}

impl<T> Inputs<T> {
    /// Creates a descriptor with the given ID and no message-count constraint.
    pub fn new(id: InputPortId) -> (r: Self)
        ensures
            r@.0 == id,
            r@.1@ == (0usize, None::<usize>),
    {
        Self { id, cardinality: Cardinality::unlimited(), marker: PhantomData }
    }

    /// Creates a descriptor with the given ID and message-count constraint.
    pub fn with_cardinality(id: InputPortId, cardinality: Cardinality) -> (r: Self)
        ensures
            r@ == (id, cardinality),
    {
        Self { id, cardinality, marker: PhantomData }
    }

    /// Returns the port identifier.
    pub fn id(&self) -> (r: InputPortId)
        ensures
            r == self@.0,
    {
        self.id
    }

    /// Returns the declared message-count constraint.
    pub fn message_cardinality(&self) -> (r: Cardinality)
        ensures
            r == self@.1,
    {
        self.cardinality
    }

    /// Returns the declared lower and upper bounds on messages for this port.
    ///
    /// These bounds describe message cardinality, not the number of connections.
    pub fn cardinality(&self) -> (r: (Bound<usize>, Bound<usize>))
        ensures
            r.0 == Bound::Included(self@.1@.0),
            r.1 == match self@.1@.1 {
                Some(max) => Bound::Included(max),
                None => Bound::<usize>::Unbounded,
            },
    {
        self.cardinality.bounds()
    }
}

impl<T: 'static> Inputs<T> {
    /// Returns the Rust type ID of the message payload.
    pub fn type_id(&self) -> TypeId {
        type_id_of::<T>()
    }
}

} // verus!
