use vstd::prelude::*;
use core::any::TypeId;
use crate::io::Cardinality;
use super::port_id::{InputPortId, OutputPortId};

verus! {

/// The name, port, message-type, and cardinality metadata of a block.
///
/// A block is an encapsulated system component that processes messages through
/// ports. This trait describes its interfaces for a system definition; it does
/// not supply the executable body of a block process. Users implement it; what
/// the methods return is read once, when the block is registered.
pub trait BlockDefinition {
    /// Returns the name of the block.
    fn name(&self) -> String;

    /// Returns this block's input IDs, each listed once.
    fn inputs(&self) -> (r: Vec<InputPortId>)
        default_ensures
            r@ == Seq::<InputPortId>::empty(),
    {
        Vec::new()
    }

    /// Returns this block's output IDs, each listed once.
    fn outputs(&self) -> (r: Vec<OutputPortId>)
        default_ensures
            r@ == Seq::<OutputPortId>::empty(),
    {
        Vec::new()
    }

    /// Returns the declared message type of an input, if known.
    fn input_type(&self, input: InputPortId) -> (r: Option<TypeId>)
        default_ensures
            r is None,
    {
        None
    }

    /// Returns the declared message type of an output, if known.
    fn output_type(&self, output: OutputPortId) -> (r: Option<TypeId>)
        default_ensures
            r is None,
    {
        None
    }

    /// Returns an input's message-count constraint, if declared.
    fn input_cardinality(&self, input: InputPortId) -> (r: Option<Cardinality>)
        default_ensures
            r is None,
    {
        None
    }

    /// Returns an output's message-count constraint, if declared.
    fn output_cardinality(&self, output: OutputPortId) -> (r: Option<Cardinality>)
        default_ensures
            r is None,
    {
        None
    }
}

} // verus!
