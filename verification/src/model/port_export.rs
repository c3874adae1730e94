use vstd::prelude::*;
use core::any::TypeId;
use crate::io::Cardinality;
use super::inputs::Inputs;
use super::outputs::Outputs;
use super::port_id::{InputPortId, OutputPortId};

verus! {

/// A typed port export that preserves an optional message-count constraint.
///
/// `(ID, TypeId)` tuples convert without cardinality metadata.
#[derive(Clone, Copy, Debug)]
pub struct PortExport<I> {
    /// The port identifier.
    pub id: I,
    /// The Rust message payload type.
    pub type_id: TypeId,
    /// A declared message-count constraint, if known.
    pub cardinality: Option<Cardinality>,
}

impl<I> PortExport<I> {
    /// Creates an export from raw metadata.
    pub fn new(id: I, type_id: TypeId) -> (r: Self)
        ensures
            r == (PortExport { id, type_id, cardinality: None }),
    {
        Self { id, type_id, cardinality: None }
    }

    /// Adds a message-count constraint to the export.
    pub fn with_cardinality(self, cardinality: Cardinality) -> (r: Self)
        ensures
            r == (PortExport { cardinality: Some(cardinality), ..self }),
    {
        let mut r = self;
        r.cardinality = Some(cardinality);
        r
    }
}

impl<I> From<(I, TypeId)> for PortExport<I> {
    fn from(input: (I, TypeId)) -> (r: Self) {
        let (id, type_id) = input;
        Self::new(id, type_id)
    }
}

impl<I> vstd::std_specs::convert::FromSpecImpl<(I, TypeId)> for PortExport<I> {
    open spec fn obeys_from_spec() -> bool {
        true
    }

    open spec fn from_spec(v: (I, TypeId)) -> PortExport<I> {
        PortExport { id: v.0, type_id: v.1, cardinality: None }
    }
}

impl<T: 'static> Inputs<T> {
    /// The export of this input: its ID, payload type, and declared constraint.
    pub fn export(&self) -> (r: PortExport<InputPortId>)
        ensures
            r.id == self@.0,
            r.cardinality == Some(self@.1),
    {
        PortExport { id: self.id(), type_id: self.type_id(), cardinality: Some(self.message_cardinality()) }
    }
}

impl<T: 'static> Outputs<T> {
    /// The export of this output: its ID, payload type, and declared constraint.
    pub fn export(&self) -> (r: PortExport<OutputPortId>)
        ensures
            r.id == self@.0,
            r.cardinality == Some(self@.1),
    {
        PortExport { id: self.id(), type_id: self.type_id(), cardinality: Some(self.message_cardinality()) }
    }
}

} // verus!
