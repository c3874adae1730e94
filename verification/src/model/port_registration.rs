use vstd::prelude::*;
use crate::io::Cardinality;
use super::inputs::Inputs;
use super::outputs::Outputs;
use super::port_id::{InputPortId, OutputPortId, PortId};

verus! {

/// A port ID with optional cardinality metadata for builder registration.
///
/// Raw IDs convert without a constraint. References to model port descriptors
/// preserve their declared bounds.
#[derive(Clone, Copy, Debug)]
pub struct PortRegistration<I> {
    /// The port identifier.
    pub id: I,
    /// A declared message-count constraint, if known.
    pub cardinality: Option<Cardinality>,
}

impl<I> From<I> for PortRegistration<I> {
    fn from(id: I) -> (r: Self) {
        Self { id, cardinality: None }
    }
}

impl<I> vstd::std_specs::convert::FromSpecImpl<I> for PortRegistration<I> {
    open spec fn obeys_from_spec() -> bool {
        true
    }

    open spec fn from_spec(v: I) -> PortRegistration<I> {
        PortRegistration { id: v, cardinality: None }
    }
}

impl From<InputPortId> for PortRegistration<PortId> {
    fn from(id: InputPortId) -> (r: Self) {
        Self { id: PortId::Input(id), cardinality: None }
    }
}

impl vstd::std_specs::convert::FromSpecImpl<InputPortId> for PortRegistration<PortId> {
    open spec fn obeys_from_spec() -> bool {
        true
    }

    open spec fn from_spec(v: InputPortId) -> PortRegistration<PortId> {
        PortRegistration { id: PortId::Input(v), cardinality: None }
    }
}

impl From<OutputPortId> for PortRegistration<PortId> {
    fn from(id: OutputPortId) -> (r: Self) {
        Self { id: PortId::Output(id), cardinality: None }
    }
}

impl vstd::std_specs::convert::FromSpecImpl<OutputPortId> for PortRegistration<PortId> {
    open spec fn obeys_from_spec() -> bool {
        true
    }

    open spec fn from_spec(v: OutputPortId) -> PortRegistration<PortId> {
        PortRegistration { id: PortId::Output(v), cardinality: None }
    }
}

impl<T> From<&Inputs<T>> for PortRegistration<InputPortId> {
    fn from(input: &Inputs<T>) -> (r: Self) {
        Self { id: input.id(), cardinality: Some(input.message_cardinality()) }
    }
}

impl<T> vstd::std_specs::convert::FromSpecImpl<&Inputs<T>> for PortRegistration<InputPortId> {
    open spec fn obeys_from_spec() -> bool {
        true
    }

    open spec fn from_spec(v: &Inputs<T>) -> PortRegistration<InputPortId> {
        PortRegistration { id: v@.0, cardinality: Some(v@.1) }
    }
}

impl<T> From<&Outputs<T>> for PortRegistration<OutputPortId> {
    fn from(output: &Outputs<T>) -> (r: Self) {
        Self { id: output.id(), cardinality: Some(output.message_cardinality()) }
    }
}

impl<T> vstd::std_specs::convert::FromSpecImpl<&Outputs<T>> for PortRegistration<OutputPortId> {
    open spec fn obeys_from_spec() -> bool {
        true
    }

    open spec fn from_spec(v: &Outputs<T>) -> PortRegistration<OutputPortId> {
        PortRegistration { id: v@.0, cardinality: Some(v@.1) }
    }
}

} // verus!
