//! Claiming the runtime endpoints of a prepared system, each exactly once.

use vstd::prelude::*;
use core::any::TypeId;
use crate::io::Cardinality;
use crate::model::{same_type, InputPortId, OutputPortId, PortId, PortIdMap, PortIdSet};
use crate::model::Inputs as InputsDescriptor;
use crate::model::Outputs as OutputsDescriptor;
use super::inputs::Inputs;
use super::outputs::Outputs;
use super::port_binding_error::PortBindingError;

verus! {

broadcast use {Cardinality::lemma_from_bounds_view, Cardinality::lemma_view_injective};

/// One port's runtime endpoint, waiting to be claimed by its owner.
pub struct PortSlot<P> {
    /// The validated message type, once known.
    pub type_id: Option<TypeId>,
    /// The effective bounds.
    pub bounds: Cardinality,
    /// The endpoint, while it has not been claimed.
    pub endpoint: Option<P>,
    /// Whether a connection installed the endpoint.
    pub connected: bool,
    /// Whether the endpoint was handed out.
    pub claimed: bool,
}

impl<P> PortSlot<P> {
    /// What claiming the slot's endpoint as `port` with payload type
    /// `requested_type` and descriptor bounds `requested` yields: the bounds
    /// the endpoint gets, or why it cannot be bound.
    ///
    /// A slot is claimed once; the types must agree; the bounds must overlap,
    /// and a connected slot's installed bounds must already lie within them.
    pub open spec fn binding(self, port: PortId, requested_type: TypeId, requested: Cardinality) -> Result<
        Cardinality,
        PortBindingError,
    > {
        if self.claimed {
            Err(PortBindingError::AlreadyClaimed(port))
        } else if self.type_id matches Some(expected) && expected != requested_type {
            Err(
                PortBindingError::TypeMismatch {
                    port,
                    expected: self.type_id->0,
                    requested: requested_type,
                },
            )
        } else {
            match self.bounds.meet(requested) {
                None => Err(
                    PortBindingError::CardinalityMismatch { port, effective: self.bounds, requested },
                ),
                Some(c) => if self.connected && c != self.bounds {
                    Err(
                        PortBindingError::CardinalityMismatch {
                            port,
                            effective: self.bounds,
                            requested,
                        },
                    )
                } else {
                    Ok(c)
                },
            }
        }
    }

    /// The slot after its endpoint was claimed with bounds `c` and type `t`.
    pub open spec fn claimed_with(self, t: TypeId, c: Cardinality) -> Self {
        PortSlot { type_id: Some(t), bounds: c, endpoint: None, connected: self.connected, claimed: true }
    }

    /// An empty slot for a port of type `type_id`, if known, with these bounds.
    pub fn new(type_id: Option<TypeId>, bounds: Cardinality) -> (r: Self)
        ensures
            r == (PortSlot::<P> { type_id, bounds, endpoint: None, connected: false, claimed: false }),
    {
        Self { type_id, bounds, endpoint: None, connected: false, claimed: false }
    }

    /// Installs a connection's endpoint with its effective bounds.
    pub fn install(&mut self, endpoint: P, bounds: Cardinality)
        ensures
            *final(self) == (PortSlot::<P> {
                endpoint: Some(endpoint),
                bounds,
                connected: true,
                ..*old(self)
            }),
    {
        self.endpoint = Some(endpoint);
        self.bounds = bounds;
        self.connected = true;
    }

    /// Claims the endpoint as [`binding`](Self::binding) describes.
    ///
    /// On success returns the installed endpoint (`None` when the port is
    /// unconnected: the owner then creates an unconnected endpoint) and the
    /// bounds it gets; the slot is then claimed. On failure it is unchanged.
    pub fn take(&mut self, port: PortId, requested_type: TypeId, requested: Cardinality) -> (r: Result<
        (Option<P>, Cardinality),
        PortBindingError,
    >)
        ensures
            r is Ok <==> old(self).binding(port, requested_type, requested) is Ok,
            r matches Err(e) ==> old(self).binding(port, requested_type, requested) == Err::<
                Cardinality,
                PortBindingError,
            >(e) && *final(self) == *old(self),
            r matches Ok(t) ==> t.0 == old(self).endpoint && old(self).binding(
                port,
                requested_type,
                requested,
            ) == Ok::<Cardinality, PortBindingError>(t.1) && *final(self) == old(self).claimed_with(
                requested_type,
                t.1,
            ),
    {
        if self.claimed {
            return Err(PortBindingError::AlreadyClaimed(port));
        }
        if let Some(expected) = &self.type_id {
            if !same_type(expected, &requested_type) {
                return Err(
                    PortBindingError::TypeMismatch { port, expected: *expected, requested: requested_type },
                );
            }
        }
        let compatible = match self.bounds.intersection(requested) {
            Some(c) => c,
            None => {
                return Err(
                    PortBindingError::CardinalityMismatch { port, effective: self.bounds, requested },
                );
            },
        };
        if self.connected && !(compatible == self.bounds) {
            return Err(
                PortBindingError::CardinalityMismatch { port, effective: self.bounds, requested },
            );
        }
        let mut endpoint: Option<P> = None;
        core::mem::swap(&mut endpoint, &mut self.endpoint);
        self.claimed = true;
        self.type_id = Some(requested_type);
        self.bounds = compatible;
        Ok((endpoint, compatible))
    }
}

/// What claiming an endpoint from `slots` as `id` yields: the slot's binding,
/// or `missing` when there is no slot for `id`.
pub open spec fn claim_outcome<K, P>(
    slots: Map<K, PortSlot<P>>,
    id: K,
    port: PortId,
    requested_type: TypeId,
    requested: Cardinality,
    missing: PortBindingError,
) -> Result<Cardinality, PortBindingError> {
    if slots.contains_key(id) {
        slots[id].binding(port, requested_type, requested)
    } else {
        Err(missing)
    }
}

/// The runtime endpoints of a prepared system carrying messages of type `T`:
/// block inputs and outputs, and the boundary endpoints of exported ports.
#[verifier::reject_recursive_types(T)]
pub struct RuntimePorts<T> {
    /// The type ID of `T`, which every claim requests.
    pub message_type: TypeId,
    /// The receiving endpoints of block inputs.
    pub inputs: PortIdMap<InputPortId, PortSlot<Inputs<T>>>,
    /// The sending endpoints of block outputs.
    pub outputs: PortIdMap<OutputPortId, PortSlot<Outputs<T>>>,
    /// The sending endpoints that feed exported inputs from outside.
    pub input_senders: PortIdMap<InputPortId, PortSlot<Outputs<T>>>,
    /// The receiving endpoints that drain exported outputs to outside.
    pub output_receivers: PortIdMap<OutputPortId, PortSlot<Inputs<T>>>,
}

impl<T> RuntimePorts<T> {
    /// No endpoints yet, for messages whose type ID is `message_type`.
    pub fn new(message_type: TypeId) -> (r: Self)
        ensures
            r.message_type == message_type,
            r.inputs@ == Map::<InputPortId, PortSlot<Inputs<T>>>::empty(),
            r.outputs@ == Map::<OutputPortId, PortSlot<Outputs<T>>>::empty(),
            r.input_senders@ == Map::<InputPortId, PortSlot<Outputs<T>>>::empty(),
            r.output_receivers@ == Map::<OutputPortId, PortSlot<Inputs<T>>>::empty(),
    {
        Self {
            message_type,
            inputs: PortIdMap::new(),
            outputs: PortIdMap::new(),
            input_senders: PortIdMap::new(),
            output_receivers: PortIdMap::new(),
        }
    }

    /// Claims the receiving endpoint of block input `id` with descriptor bounds `bounds`.
    ///
    /// An unconnected input gets a new unconnected endpoint with the bound
    /// bounds. Fails with [`PortBindingError::UnknownPort`] when there is no such input.
    pub fn take_input(&mut self, id: InputPortId, bounds: Cardinality) -> (r: Result<Inputs<T>, PortBindingError>)
        ensures
            ({
                let outcome = claim_outcome(
                    old(self).inputs@,
                    id,
                    PortId::Input(id),
                    old(self).message_type,
                    bounds,
                    PortBindingError::UnknownPort(PortId::Input(id)),
                );
                &&& r is Ok <==> outcome is Ok
                &&& r matches Err(e) ==> outcome == Err::<Cardinality, PortBindingError>(e)
                    && final(self).inputs@ == old(self).inputs@
                &&& r matches Ok(p) ==> {
                    let slot = old(self).inputs@[id];
                    &&& final(self).inputs@ == old(self).inputs@.insert(
                        id,
                        slot.claimed_with(old(self).message_type, outcome->Ok_0),
                    )
                    &&& slot.endpoint matches Some(e) ==> p == e
                    &&& slot.endpoint is None ==> p.stage() is Unconnected && p.bounds() == outcome->Ok_0
                }
            }),
            final(self).message_type == old(self).message_type,
            final(self).outputs@ == old(self).outputs@,
            final(self).input_senders@ == old(self).input_senders@,
            final(self).output_receivers@ == old(self).output_receivers@,
    {
        let mut slot = match self.inputs.remove(&id) {
            Some(slot) => slot,
            None => return Err(PortBindingError::UnknownPort(PortId::Input(id))),
        };
        let result = slot.take(PortId::Input(id), self.message_type, bounds);
        self.inputs.insert(id, slot);
        proof {
            assert(self.inputs@ =~= old(self).inputs@.remove(id).insert(id, slot));
        }
        match result {
            Ok((Some(endpoint), _)) => Ok(endpoint),
            Ok((None, bound)) => Ok(Inputs::unconnected(bound)),
            Err(e) => {
                assert(old(self).inputs@.remove(id).insert(id, slot) =~= old(self).inputs@);
                Err(e)
            },
        }
    }

    /// Claims the sending endpoint of block output `id` with descriptor bounds `bounds`.
    ///
    /// An unconnected output gets a new unconnected endpoint with the bound
    /// bounds. Fails with [`PortBindingError::UnknownPort`] when there is no such output.
    pub fn take_output(&mut self, id: OutputPortId, bounds: Cardinality) -> (r: Result<Outputs<T>, PortBindingError>)
        ensures
            ({
                let outcome = claim_outcome(
                    old(self).outputs@,
                    id,
                    PortId::Output(id),
                    old(self).message_type,
                    bounds,
                    PortBindingError::UnknownPort(PortId::Output(id)),
                );
                &&& r is Ok <==> outcome is Ok
                &&& r matches Err(e) ==> outcome == Err::<Cardinality, PortBindingError>(e)
                    && final(self).outputs@ == old(self).outputs@
                &&& r matches Ok(p) ==> {
                    let slot = old(self).outputs@[id];
                    &&& final(self).outputs@ == old(self).outputs@.insert(
                        id,
                        slot.claimed_with(old(self).message_type, outcome->Ok_0),
                    )
                    &&& slot.endpoint matches Some(e) ==> p == e
                    &&& slot.endpoint is None ==> p.storage() is Unconnected && p.bounds() == outcome->Ok_0
                }
            }),
            final(self).message_type == old(self).message_type,
            final(self).inputs@ == old(self).inputs@,
            final(self).input_senders@ == old(self).input_senders@,
            final(self).output_receivers@ == old(self).output_receivers@,
    {
        let mut slot = match self.outputs.remove(&id) {
            Some(slot) => slot,
            None => return Err(PortBindingError::UnknownPort(PortId::Output(id))),
        };
        let result = slot.take(PortId::Output(id), self.message_type, bounds);
        self.outputs.insert(id, slot);
        proof {
            assert(self.outputs@ =~= old(self).outputs@.remove(id).insert(id, slot));
        }
        match result {
            Ok((Some(endpoint), _)) => Ok(endpoint),
            Ok((None, bound)) => Ok(Outputs::unconnected(bound)),
            Err(e) => {
                assert(old(self).outputs@.remove(id).insert(id, slot) =~= old(self).outputs@);
                Err(e)
            },
        }
    }

    /// Claims the sending endpoint that feeds exported input `id` from outside.
    ///
    /// Fails with [`PortBindingError::NotExported`] when `id` is not an exported input.
    pub fn take_input_sender(&mut self, id: InputPortId, bounds: Cardinality) -> (r: Result<
        Outputs<T>,
        PortBindingError,
    >)
        ensures
            ({
                let outcome = claim_outcome(
                    old(self).input_senders@,
                    id,
                    PortId::Input(id),
                    old(self).message_type,
                    bounds,
                    PortBindingError::NotExported(PortId::Input(id)),
                );
                &&& r is Ok <==> outcome is Ok
                &&& r matches Err(e) ==> outcome == Err::<Cardinality, PortBindingError>(e)
                    && final(self).input_senders@ == old(self).input_senders@
                &&& r matches Ok(p) ==> {
                    let slot = old(self).input_senders@[id];
                    &&& final(self).input_senders@ == old(self).input_senders@.insert(
                        id,
                        slot.claimed_with(old(self).message_type, outcome->Ok_0),
                    )
                    &&& slot.endpoint matches Some(e) ==> p == e
                    &&& slot.endpoint is None ==> p.storage() is Unconnected && p.bounds() == outcome->Ok_0
                }
            }),
            final(self).message_type == old(self).message_type,
            final(self).inputs@ == old(self).inputs@,
            final(self).outputs@ == old(self).outputs@,
            final(self).output_receivers@ == old(self).output_receivers@,
    {
        let mut slot = match self.input_senders.remove(&id) {
            Some(slot) => slot,
            None => return Err(PortBindingError::NotExported(PortId::Input(id))),
        };
        let result = slot.take(PortId::Input(id), self.message_type, bounds);
        self.input_senders.insert(id, slot);
        proof {
            assert(self.input_senders@ =~= old(self).input_senders@.remove(id).insert(id, slot));
        }
        match result {
            Ok((Some(endpoint), _)) => Ok(endpoint),
            Ok((None, bound)) => Ok(Outputs::unconnected(bound)),
            Err(e) => {
                assert(old(self).input_senders@.remove(id).insert(id, slot) =~= old(self).input_senders@);
                Err(e)
            },
        }
    }

    /// Claims the receiving endpoint that drains exported output `id` to outside.
    ///
    /// Fails with [`PortBindingError::NotExported`] when `id` is not an exported output.
    pub fn take_output_receiver(&mut self, id: OutputPortId, bounds: Cardinality) -> (r: Result<
        Inputs<T>,
        PortBindingError,
    >)
        ensures
            ({
                let outcome = claim_outcome(
                    old(self).output_receivers@,
                    id,
                    PortId::Output(id),
                    old(self).message_type,
                    bounds,
                    PortBindingError::NotExported(PortId::Output(id)),
                );
                &&& r is Ok <==> outcome is Ok
                &&& r matches Err(e) ==> outcome == Err::<Cardinality, PortBindingError>(e)
                    && final(self).output_receivers@ == old(self).output_receivers@
                &&& r matches Ok(p) ==> {
                    let slot = old(self).output_receivers@[id];
                    &&& final(self).output_receivers@ == old(self).output_receivers@.insert(
                        id,
                        slot.claimed_with(old(self).message_type, outcome->Ok_0),
                    )
                    &&& slot.endpoint matches Some(e) ==> p == e
                    &&& slot.endpoint is None ==> p.stage() is Unconnected && p.bounds() == outcome->Ok_0
                }
            }),
            final(self).message_type == old(self).message_type,
            final(self).inputs@ == old(self).inputs@,
            final(self).outputs@ == old(self).outputs@,
            final(self).input_senders@ == old(self).input_senders@,
    {
        let mut slot = match self.output_receivers.remove(&id) {
            Some(slot) => slot,
            None => return Err(PortBindingError::NotExported(PortId::Output(id))),
        };
        let result = slot.take(PortId::Output(id), self.message_type, bounds);
        self.output_receivers.insert(id, slot);
        proof {
            assert(self.output_receivers@ =~= old(self).output_receivers@.remove(id).insert(id, slot));
        }
        match result {
            Ok((Some(endpoint), _)) => Ok(endpoint),
            Ok((None, bound)) => Ok(Inputs::unconnected(bound)),
            Err(e) => {
                assert(old(self).output_receivers@.remove(id).insert(id, slot) =~= old(self).output_receivers@);
                Err(e)
            },
        }
    }
}

/// A process factory's scoped access to its block's runtime endpoints.
///
/// Getters move endpoints exactly once and validate IDs, types, and effective
/// bounds; ports of other blocks are refused.
#[verifier::reject_recursive_types(T)]
pub struct BlockPorts<'a, T> {
    ports: &'a mut RuntimePorts<T>,
    inputs: &'a PortIdSet<InputPortId>,
    outputs: &'a PortIdSet<OutputPortId>,
}

impl<'a, T> BlockPorts<'a, T> {
    /// The runtime endpoints this access reaches.
    pub closed spec fn runtime(self) -> RuntimePorts<T> {
        *self.ports
    }

    /// The block's inputs.
    pub closed spec fn block_inputs(self) -> Set<InputPortId> {
        self.inputs@
    }

    /// The block's outputs.
    pub closed spec fn block_outputs(self) -> Set<OutputPortId> {
        self.outputs@
    }

    /// Scoped access to the endpoints of the block with these inputs and outputs.
    pub fn new(
        ports: &'a mut RuntimePorts<T>,
        inputs: &'a PortIdSet<InputPortId>,
        outputs: &'a PortIdSet<OutputPortId>,
    ) -> (r: Self)
        ensures
            r.runtime() == *old(ports),
            r.block_inputs() == inputs@,
            r.block_outputs() == outputs@,
    {
        Self { ports, inputs, outputs }
    }

    /// Claims an input belonging to this block.
    ///
    /// # Errors
    ///
    /// [`PortBindingError::ForeignPort`] for an input of another block;
    /// otherwise as [`RuntimePorts::take_input`] with the descriptor's bounds.
    pub fn take_input(&mut self, port: &InputsDescriptor<T>) -> (r: Result<Inputs<T>, PortBindingError>)
        ensures
            !old(self).block_inputs().contains(port@.0) ==> r == Err::<Inputs<T>, PortBindingError>(
                PortBindingError::ForeignPort(PortId::Input(port@.0)),
            ) && final(self).runtime() == old(self).runtime(),
            old(self).block_inputs().contains(port@.0) ==> {
                let outcome = claim_outcome(
                    old(self).runtime().inputs@,
                    port@.0,
                    PortId::Input(port@.0),
                    old(self).runtime().message_type,
                    port@.1,
                    PortBindingError::UnknownPort(PortId::Input(port@.0)),
                );
                &&& r is Ok <==> outcome is Ok
                &&& r matches Err(e) ==> outcome == Err::<Cardinality, PortBindingError>(e)
                    && final(self).runtime().inputs@ == old(self).runtime().inputs@
                &&& r matches Ok(p) ==> {
                    let slot = old(self).runtime().inputs@[port@.0];
                    &&& final(self).runtime().inputs@ == old(self).runtime().inputs@.insert(
                        port@.0,
                        slot.claimed_with(old(self).runtime().message_type, outcome->Ok_0),
                    )
                    &&& slot.endpoint matches Some(e) ==> p == e
                    &&& slot.endpoint is None ==> p.stage() is Unconnected && p.bounds() == outcome->Ok_0
                }
            },
            final(self).block_inputs() == old(self).block_inputs(),
            final(self).block_outputs() == old(self).block_outputs(),
            final(self).runtime().message_type == old(self).runtime().message_type,
            final(self).runtime().outputs@ == old(self).runtime().outputs@,
            final(self).runtime().input_senders@ == old(self).runtime().input_senders@,
            final(self).runtime().output_receivers@ == old(self).runtime().output_receivers@,
    {
        let id = port.id();
        if !self.inputs.contains(id) {
            return Err(PortBindingError::ForeignPort(PortId::Input(id)));
        }
        self.ports.take_input(id, port.message_cardinality())
    }

    /// Claims an output belonging to this block; clone the returned handle to share it.
    ///
    /// # Errors
    ///
    /// [`PortBindingError::ForeignPort`] for an output of another block;
    /// otherwise as [`RuntimePorts::take_output`] with the descriptor's bounds.
    pub fn take_output(&mut self, port: &OutputsDescriptor<T>) -> (r: Result<Outputs<T>, PortBindingError>)
        ensures
            !old(self).block_outputs().contains(port@.0) ==> r == Err::<Outputs<T>, PortBindingError>(
                PortBindingError::ForeignPort(PortId::Output(port@.0)),
            ) && final(self).runtime() == old(self).runtime(),
            old(self).block_outputs().contains(port@.0) ==> {
                let outcome = claim_outcome(
                    old(self).runtime().outputs@,
                    port@.0,
                    PortId::Output(port@.0),
                    old(self).runtime().message_type,
                    port@.1,
                    PortBindingError::UnknownPort(PortId::Output(port@.0)),
                );
                &&& r is Ok <==> outcome is Ok
                &&& r matches Err(e) ==> outcome == Err::<Cardinality, PortBindingError>(e)
                    && final(self).runtime().outputs@ == old(self).runtime().outputs@
                &&& r matches Ok(p) ==> {
                    let slot = old(self).runtime().outputs@[port@.0];
                    &&& final(self).runtime().outputs@ == old(self).runtime().outputs@.insert(
                        port@.0,
                        slot.claimed_with(old(self).runtime().message_type, outcome->Ok_0),
                    )
                    &&& slot.endpoint matches Some(e) ==> p == e
                    &&& slot.endpoint is None ==> p.storage() is Unconnected && p.bounds() == outcome->Ok_0
                }
            },
            final(self).block_inputs() == old(self).block_inputs(),
            final(self).block_outputs() == old(self).block_outputs(),
            final(self).runtime().message_type == old(self).runtime().message_type,
            final(self).runtime().inputs@ == old(self).runtime().inputs@,
            final(self).runtime().input_senders@ == old(self).runtime().input_senders@,
            final(self).runtime().output_receivers@ == old(self).runtime().output_receivers@,
    {
        let id = port.id();
        if !self.outputs.contains(id) {
            return Err(PortBindingError::ForeignPort(PortId::Output(id)));
        }
        self.ports.take_output(id, port.message_cardinality())
    }
}

} // verus!
