use vstd::prelude::*;
use core::any::TypeId;
use std::rc::Rc;
use crate::io::Cardinality;
use super::block_definition::BlockDefinition;
use super::inputs::Inputs;
use super::outputs::Outputs;
use super::port_export::PortExport;
use super::port_id::{InputPortId, OutputPortId, PortId};
use super::port_id_set::PortIdSet;
use super::port_registration::PortRegistration;
use super::system_definition::{InputMetadata, OutputMetadata, SystemDefinition};
use super::type_id::type_id_of;

verus! {

/// A builder request that cannot be satisfied.
#[derive(Clone, Copy, Debug, Eq, PartialEq, Structural)]
pub enum SystemBuildError {
    /// The input was neither registered nor listed by a registered block.
    UnregisteredInput(InputPortId),
    /// The output was neither registered nor listed by a registered block.
    UnregisteredOutput(OutputPortId),
    /// The output is already connected.
    AlreadyConnectedOutput(OutputPortId),
}

/// The constraints recorded for `port` after declaring `c` on it: a new
/// constraint is appended once; repeating a recorded one changes nothing.
pub open spec fn recorded_cardinalities(
    before: Map<PortId, Vec<Cardinality>>,
    after: Map<PortId, Vec<Cardinality>>,
    port: PortId,
    c: Option<Cardinality>,
) -> bool {
    match c {
        None => after == before,
        Some(c) => {
            let list = if before.contains_key(port) {
                before[port]@
            } else {
                Seq::empty()
            };
            &&& after.dom() == before.dom().insert(port)
            &&& after[port]@ == if list.contains(c) {
                list
            } else {
                list.push(c)
            }
            &&& forall|q: PortId| #[trigger] before.contains_key(q) && q != port ==> after[q] == before[q]
        },
    }
}

/// Whether `c` is one of the constraints in `v`.
fn contains_cardinality(v: &Vec<Cardinality>, c: Cardinality) -> (r: bool)
    ensures
        r == v@.contains(c),
{
    let mut i: usize = 0;
    while i < v.len()
        invariant
            i <= v@.len(),
            forall|j: int| 0 <= j < i ==> v@[j] != c,
        decreases v@.len() - i,
    {
        if v[i] == c {
            assert(v@[i as int] == c);
            return true;
        }
        i = i + 1;
    }
    false
}

/// What registering `input` does to a builder: the input becomes known and
/// explicitly registered, its constraint is recorded, and nothing else changes.
pub open spec fn registers_input(
    before: SystemBuilder,
    after: SystemBuilder,
    input: PortRegistration<InputPortId>,
) -> bool {
    &&& after.known_inputs() == before.known_inputs().insert(input.id)
    &&& after.known_outputs() == before.known_outputs()
    &&& after.connected() == before.connected()
    &&& after.definition().registered_inputs@ == before.definition().registered_inputs@.insert(input.id)
    &&& recorded_cardinalities(
        before.definition().cardinalities@,
        after.definition().cardinalities@,
        PortId::Input(input.id),
        input.cardinality,
    )
    &&& after.definition().registered_outputs == before.definition().registered_outputs
    &&& after.definition().inputs == before.definition().inputs
    &&& after.definition().outputs == before.definition().outputs
    &&& after.definition().connections == before.definition().connections
    &&& after.definition().blocks == before.definition().blocks
}

/// What registering `output` does to a builder: the output becomes known and
/// explicitly registered, its constraint is recorded, and nothing else changes.
pub open spec fn registers_output(
    before: SystemBuilder,
    after: SystemBuilder,
    output: PortRegistration<OutputPortId>,
) -> bool {
    &&& after.known_outputs() == before.known_outputs().insert(output.id)
    &&& after.known_inputs() == before.known_inputs()
    &&& after.connected() == before.connected()
    &&& after.definition().registered_outputs@ == before.definition().registered_outputs@.insert(output.id)
    &&& recorded_cardinalities(
        before.definition().cardinalities@,
        after.definition().cardinalities@,
        PortId::Output(output.id),
        output.cardinality,
    )
    &&& after.definition().registered_inputs == before.definition().registered_inputs
    &&& after.definition().inputs == before.definition().inputs
    &&& after.definition().outputs == before.definition().outputs
    &&& after.definition().connections == before.definition().connections
    &&& after.definition().blocks == before.definition().blocks
}

/// A builder for system definitions.
///
/// The builder knows every port registered explicitly or listed by a
/// registered block; exports and connections must name known ports, and each
/// output may be connected once.
#[derive(Debug)]
pub struct SystemBuilder {
    system: SystemDefinition,
    registered_inputs: PortIdSet<InputPortId>,
    registered_outputs: PortIdSet<OutputPortId>,
    connected_outputs: PortIdSet<OutputPortId>,
}

impl SystemBuilder {
    /// The definition under construction.
    pub closed spec fn definition(self) -> SystemDefinition {
        self.system
    }

    /// Inputs registered explicitly or listed by registered blocks.
    pub closed spec fn known_inputs(self) -> Set<InputPortId> {
        self.registered_inputs@
    }

    /// Outputs registered explicitly or listed by registered blocks.
    pub closed spec fn known_outputs(self) -> Set<OutputPortId> {
        self.registered_outputs@
    }

    /// Outputs that are already connected.
    pub closed spec fn connected(self) -> Set<OutputPortId> {
        self.connected_outputs@
    }

    /// Every export and connection names known ports, every connected output
    /// is recorded as connected, and every explicit registration is known.
    pub open spec fn consistent(self) -> bool {
        &&& forall|k: (OutputPortId, InputPortId)| #[trigger]
            self.definition().connections@.contains_key(k) ==> {
                &&& self.connected().contains(k.0)
                &&& self.known_outputs().contains(k.0)
                &&& self.known_inputs().contains(k.1)
            }
        &&& forall|id: InputPortId| #[trigger]
            self.definition().inputs@.contains_key(id) ==> self.known_inputs().contains(id)
        &&& forall|id: OutputPortId| #[trigger]
            self.definition().outputs@.contains_key(id) ==> self.known_outputs().contains(id)
        &&& forall|id: InputPortId| #[trigger]
            self.definition().registered_inputs@.contains(id) ==> self.known_inputs().contains(id)
        &&& forall|id: OutputPortId| #[trigger]
            self.definition().registered_outputs@.contains(id) ==> self.known_outputs().contains(id)
    }

    /// Every builder stays consistent.
    #[verifier::type_invariant]
    closed spec fn stays_consistent(self) -> bool {
        self.consistent()
    }

    proof fn lemma_consistency_carries(a: Self, b: Self)
        requires
            a.consistent(),
            forall|k: (OutputPortId, InputPortId)| #[trigger]
                b.definition().connections@.contains_key(k) ==> a.definition().connections@.contains_key(k)
                    || (b.connected().contains(k.0) && b.known_outputs().contains(k.0)
                    && b.known_inputs().contains(k.1)),
            forall|id: InputPortId| #[trigger]
                b.definition().inputs@.contains_key(id) ==> a.definition().inputs@.contains_key(id)
                    || b.known_inputs().contains(id),
            forall|id: OutputPortId| #[trigger]
                b.definition().outputs@.contains_key(id) ==> a.definition().outputs@.contains_key(id)
                    || b.known_outputs().contains(id),
            forall|id: InputPortId| #[trigger]
                b.definition().registered_inputs@.contains(id) ==> a.definition().registered_inputs@.contains(id)
                    || b.known_inputs().contains(id),
            forall|id: OutputPortId| #[trigger]
                b.definition().registered_outputs@.contains(id) ==> a.definition().registered_outputs@.contains(id)
                    || b.known_outputs().contains(id),
            a.known_inputs().subset_of(b.known_inputs()),
            a.known_outputs().subset_of(b.known_outputs()),
            a.connected().subset_of(b.connected()),
        ensures
            b.consistent(),
    {
        assert forall|k: (OutputPortId, InputPortId)| #[trigger]
            b.definition().connections@.contains_key(k) implies {
                &&& b.connected().contains(k.0)
                &&& b.known_outputs().contains(k.0)
                &&& b.known_inputs().contains(k.1)
            } by {
            if a.definition().connections@.contains_key(k) {
                assert(a.connected().contains(k.0));
                assert(a.known_outputs().contains(k.0));
                assert(a.known_inputs().contains(k.1));
            }
        }
        assert forall|id: InputPortId| #[trigger] b.definition().inputs@.contains_key(id) implies b.known_inputs().contains(id) by {
            if a.definition().inputs@.contains_key(id) {
                assert(a.known_inputs().contains(id));
            }
        }
        assert forall|id: OutputPortId| #[trigger] b.definition().outputs@.contains_key(id) implies b.known_outputs().contains(id) by {
            if a.definition().outputs@.contains_key(id) {
                assert(a.known_outputs().contains(id));
            }
        }
        assert forall|id: InputPortId| #[trigger] b.definition().registered_inputs@.contains(id) implies b.known_inputs().contains(id) by {
            if a.definition().registered_inputs@.contains(id) {
                assert(a.known_inputs().contains(id));
            }
        }
        assert forall|id: OutputPortId| #[trigger] b.definition().registered_outputs@.contains(id) implies b.known_outputs().contains(id) by {
            if a.definition().registered_outputs@.contains(id) {
                assert(a.known_outputs().contains(id));
            }
        }
    }

    /// Creates a new system builder.
    pub fn new() -> (r: Self)
        ensures
            r.consistent(),
            r.definition().is_empty_definition(),
            r.known_inputs() == Set::<InputPortId>::empty(),
            r.known_outputs() == Set::<OutputPortId>::empty(),
            r.connected() == Set::<OutputPortId>::empty(),
    {
        Self {
            system: SystemDefinition::new(),
            registered_inputs: PortIdSet::new(),
            registered_outputs: PortIdSet::new(),
            connected_outputs: PortIdSet::new(),
        }
    }

    /// Moves the builder's parts out, leaving an empty builder in its place.
    fn take_parts(&mut self) -> (r: (
        SystemDefinition,
        PortIdSet<InputPortId>,
        PortIdSet<OutputPortId>,
        PortIdSet<OutputPortId>,
    ))
        ensures
            old(self).consistent(),
            r.0 == old(self).system,
            r.1 == old(self).registered_inputs,
            r.2 == old(self).registered_outputs,
            r.3 == old(self).connected_outputs,
    {
        proof {
            use_type_invariant(&*self);
        }
        let mut this = Self::new();
        std::mem::swap(self, &mut this);
        let SystemBuilder { system, registered_inputs, registered_outputs, connected_outputs } = this;
        (system, registered_inputs, registered_outputs, connected_outputs)
    }

    /// Registers a block definition and its ports with the system under construction.
    ///
    /// Registration records structural metadata; it does not start a block process.
    pub fn register<T: BlockDefinition>(&mut self, block: T) -> (r: Rc<T>)
        ensures
            final(self).consistent(),
            final(self).definition().blocks@.drop_last() == old(self).definition().blocks@,
            final(self).definition().blocks@.len() == old(self).definition().blocks@.len() + 1,
            final(self).known_inputs() == old(self).known_inputs().union(
                final(self).definition().blocks@.last().inputs@.map_values(|m: InputMetadata| m.id).to_set(),
            ),
            final(self).known_outputs() == old(self).known_outputs().union(
                final(self).definition().blocks@.last().outputs@.map_values(|m: OutputMetadata| m.id).to_set(),
            ),
            final(self).connected() == old(self).connected(),
            final(self).definition().inputs == old(self).definition().inputs,
            final(self).definition().outputs == old(self).definition().outputs,
            final(self).definition().connections == old(self).definition().connections,
            final(self).definition().registered_inputs == old(self).definition().registered_inputs,
            final(self).definition().registered_outputs == old(self).definition().registered_outputs,
            final(self).definition().cardinalities == old(self).definition().cardinalities,
            *r == block,
            final(self).definition().blocks@.last().describes(&*r),
    {
        let (mut system, mut registered_inputs, mut registered_outputs, connected_outputs) = self.take_parts();
        let block: Rc<T> = Rc::new(block);
        system.push_block(&block);
        let n = system.blocks.len();
        let handle = &system.blocks[n - 1];
        let ghost ins = handle.inputs@.map_values(|m: InputMetadata| m.id);
        let ghost outs = handle.outputs@.map_values(|m: OutputMetadata| m.id);
        let ghost known_in = registered_inputs@;
        let ghost known_out = registered_outputs@;
        let mut i: usize = 0;
        while i < handle.inputs.len()
            invariant
                i <= handle.inputs@.len(),
                registered_outputs@ == known_out,
                ins == handle.inputs@.map_values(|m: InputMetadata| m.id),
                registered_inputs@ == known_in.union(ins.take(i as int).to_set()),
            decreases handle.inputs@.len() - i,
        {
            registered_inputs.insert(handle.inputs[i].id);
            proof {
                assert(ins.take(i + 1) =~= ins.take(i as int).push(ins[i as int]));
                ins.take(i as int).lemma_push_to_set_commute(ins[i as int]);
                assert(registered_inputs@ =~= known_in.union(ins.take(i + 1).to_set()));
            }
            i = i + 1;
        }
        assert(ins.take(i as int) =~= ins);
        let mut j: usize = 0;
        while j < handle.outputs.len()
            invariant
                j <= handle.outputs@.len(),
                registered_inputs@ == known_in.union(ins.to_set()),
                outs == handle.outputs@.map_values(|m: OutputMetadata| m.id),
                registered_outputs@ == known_out.union(outs.take(j as int).to_set()),
            decreases handle.outputs@.len() - j,
        {
            registered_outputs.insert(handle.outputs[j].id);
            proof {
                assert(outs.take(j + 1) =~= outs.take(j as int).push(outs[j as int]));
                outs.take(j as int).lemma_push_to_set_commute(outs[j as int]);
                assert(registered_outputs@ =~= known_out.union(outs.take(j + 1).to_set()));
            }
            j = j + 1;
        }
        assert(outs.take(j as int) =~= outs);
        proof {
            Self::lemma_consistency_carries(
                *old(self),
                SystemBuilder { system, registered_inputs, registered_outputs, connected_outputs },
            );
        }
        *self = SystemBuilder { system, registered_inputs, registered_outputs, connected_outputs };
        block
    }

    /// Registers an input or output port with the system under construction.
    /// Descriptor registrations carry cardinality; raw IDs impose no constraint.
    pub fn register_port(&mut self, registration: PortRegistration<PortId>)
        ensures
            final(self).consistent(),
            registration.id matches PortId::Input(id) ==> registers_input(
                *old(self),
                *final(self),
                PortRegistration { id, cardinality: registration.cardinality },
            ),
            registration.id matches PortId::Output(id) ==> registers_output(
                *old(self),
                *final(self),
                PortRegistration { id, cardinality: registration.cardinality },
            ),
    {
        proof {
            use_type_invariant(&*self);
        }
        match registration.id {
            PortId::Input(id) => self.register_input(
                PortRegistration { id, cardinality: registration.cardinality },
            ),
            PortId::Output(id) => self.register_output(
                PortRegistration { id, cardinality: registration.cardinality },
            ),
        }
    }

    /// Registers an input port with the system under construction.
    ///
    /// The registration is retained by the definition, including for ports
    /// that are neither exported nor connected. Identical registrations are a no-op;
    /// additional cardinality declarations are retained for intersection at validation.
    pub fn register_input(&mut self, input: PortRegistration<InputPortId>)
        ensures
            final(self).consistent(),
            registers_input(*old(self), *final(self), input),
    {
        let (mut system, mut registered_inputs, registered_outputs, connected_outputs) = self.take_parts();
        registered_inputs.insert(input.id);
        system.registered_inputs.insert(input.id);
        Self::record_cardinality(&mut system, PortId::Input(input.id), input.cardinality);
        proof {
            Self::lemma_consistency_carries(
                *old(self),
                SystemBuilder { system, registered_inputs, registered_outputs, connected_outputs },
            );
        }
        *self = SystemBuilder { system, registered_inputs, registered_outputs, connected_outputs };
    }

    /// Registers an output port with the system under construction.
    ///
    /// The registration is retained by the definition, including for ports
    /// that are neither exported nor connected. Identical registrations are a no-op;
    /// additional cardinality declarations are retained for intersection at validation.
    pub fn register_output(&mut self, output: PortRegistration<OutputPortId>)
        ensures
            final(self).consistent(),
            registers_output(*old(self), *final(self), output),
    {
        let (mut system, registered_inputs, mut registered_outputs, connected_outputs) = self.take_parts();
        registered_outputs.insert(output.id);
        system.registered_outputs.insert(output.id);
        Self::record_cardinality(&mut system, PortId::Output(output.id), output.cardinality);
        proof {
            Self::lemma_consistency_carries(
                *old(self),
                SystemBuilder { system, registered_inputs, registered_outputs, connected_outputs },
            );
        }
        *self = SystemBuilder { system, registered_inputs, registered_outputs, connected_outputs };
    }

    /// Exports an input or output port known to the system under construction.
    pub fn export(&mut self, export: PortExport<PortId>) -> (r: Result<PortId, SystemBuildError>)
        ensures
            final(self).consistent(),
            match export.id {
                PortId::Input(id) => {
                    &&& (r is Ok <==> old(self).known_inputs().contains(id))
                    &&& !old(self).known_inputs().contains(id) ==> r == Err::<PortId, SystemBuildError>(
                        SystemBuildError::UnregisteredInput(id),
                    )
                    &&& r is Ok ==> final(self).definition().inputs@ == old(
                        self,
                    ).definition().inputs@.insert(id, export.type_id)
                    &&& final(self).definition().outputs == old(self).definition().outputs
                },
                PortId::Output(id) => {
                    &&& (r is Ok <==> old(self).known_outputs().contains(id))
                    &&& !old(self).known_outputs().contains(id) ==> r == Err::<PortId, SystemBuildError>(
                        SystemBuildError::UnregisteredOutput(id),
                    )
                    &&& r is Ok ==> final(self).definition().outputs@ == old(
                        self,
                    ).definition().outputs@.insert(id, export.type_id)
                    &&& final(self).definition().inputs == old(self).definition().inputs
                },
            },
            r matches Ok(id) ==> id == export.id,
            r is Err ==> *final(self) == *old(self),
            r is Ok ==> recorded_cardinalities(
                old(self).definition().cardinalities@,
                final(self).definition().cardinalities@,
                export.id,
                export.cardinality,
            ),
            final(self).known_inputs() == old(self).known_inputs(),
            final(self).known_outputs() == old(self).known_outputs(),
            final(self).connected() == old(self).connected(),
            final(self).definition().connections == old(self).definition().connections,
            final(self).definition().registered_inputs == old(self).definition().registered_inputs,
            final(self).definition().registered_outputs == old(self).definition().registered_outputs,
            final(self).definition().blocks == old(self).definition().blocks,
    {
        proof {
            use_type_invariant(&*self);
        }
        self.export_port(export)
    }

    /// Exports an input or output port known to the system under construction.
    pub fn export_port(&mut self, export: PortExport<PortId>) -> (r: Result<PortId, SystemBuildError>)
        ensures
            final(self).consistent(),
            match export.id {
                PortId::Input(id) => {
                    &&& (r is Ok <==> old(self).known_inputs().contains(id))
                    &&& !old(self).known_inputs().contains(id) ==> r == Err::<PortId, SystemBuildError>(
                        SystemBuildError::UnregisteredInput(id),
                    )
                    &&& r is Ok ==> final(self).definition().inputs@ == old(
                        self,
                    ).definition().inputs@.insert(id, export.type_id)
                    &&& final(self).definition().outputs == old(self).definition().outputs
                },
                PortId::Output(id) => {
                    &&& (r is Ok <==> old(self).known_outputs().contains(id))
                    &&& !old(self).known_outputs().contains(id) ==> r == Err::<PortId, SystemBuildError>(
                        SystemBuildError::UnregisteredOutput(id),
                    )
                    &&& r is Ok ==> final(self).definition().outputs@ == old(
                        self,
                    ).definition().outputs@.insert(id, export.type_id)
                    &&& final(self).definition().inputs == old(self).definition().inputs
                },
            },
            r matches Ok(id) ==> id == export.id,
            r is Err ==> *final(self) == *old(self),
            r is Ok ==> recorded_cardinalities(
                old(self).definition().cardinalities@,
                final(self).definition().cardinalities@,
                export.id,
                export.cardinality,
            ),
            final(self).known_inputs() == old(self).known_inputs(),
            final(self).known_outputs() == old(self).known_outputs(),
            final(self).connected() == old(self).connected(),
            final(self).definition().connections == old(self).definition().connections,
            final(self).definition().registered_inputs == old(self).definition().registered_inputs,
            final(self).definition().registered_outputs == old(self).definition().registered_outputs,
            final(self).definition().blocks == old(self).definition().blocks,
    {
        proof {
            use_type_invariant(&*self);
        }
        match export.id {
            PortId::Input(id) => {
                match self.export_input(
                    PortExport { id, type_id: export.type_id, cardinality: export.cardinality },
                ) {
                    Ok(_) => Ok(export.id),
                    Err(e) => Err(e),
                }
            },
            PortId::Output(id) => {
                match self.export_output(
                    PortExport { id, type_id: export.type_id, cardinality: export.cardinality },
                ) {
                    Ok(_) => Ok(export.id),
                    Err(e) => Err(e),
                }
            },
        }
    }

    /// Exports an input port known to the system under construction.
    pub fn export_input(&mut self, export: PortExport<InputPortId>) -> (r: Result<
        InputPortId,
        SystemBuildError,
    >)
        ensures
            final(self).consistent(),
            r is Ok <==> old(self).known_inputs().contains(export.id),
            r matches Ok(id) ==> id == export.id,
            r is Err ==> r == Err::<InputPortId, SystemBuildError>(
                SystemBuildError::UnregisteredInput(export.id),
            ) && *final(self) == *old(self),
            r is Ok ==> final(self).definition().inputs@ == old(self).definition().inputs@.insert(
                export.id,
                export.type_id,
            ),
            r is Ok ==> recorded_cardinalities(
                old(self).definition().cardinalities@,
                final(self).definition().cardinalities@,
                PortId::Input(export.id),
                export.cardinality,
            ),
            final(self).known_inputs() == old(self).known_inputs(),
            final(self).known_outputs() == old(self).known_outputs(),
            final(self).connected() == old(self).connected(),
            final(self).definition().outputs == old(self).definition().outputs,
            final(self).definition().connections == old(self).definition().connections,
            final(self).definition().registered_inputs == old(self).definition().registered_inputs,
            final(self).definition().registered_outputs == old(self).definition().registered_outputs,
            final(self).definition().blocks == old(self).definition().blocks,
    {
        proof {
            use_type_invariant(&*self);
        }
        if !self.registered_inputs.contains(export.id) {
            return Err(SystemBuildError::UnregisteredInput(export.id));
        }
        let (mut system, registered_inputs, registered_outputs, connected_outputs) = self.take_parts();
        system.inputs.insert(export.id, export.type_id);
        Self::record_cardinality(&mut system, PortId::Input(export.id), export.cardinality);
        proof {
            Self::lemma_consistency_carries(
                *old(self),
                SystemBuilder { system, registered_inputs, registered_outputs, connected_outputs },
            );
        }
        *self = SystemBuilder { system, registered_inputs, registered_outputs, connected_outputs };
        Ok(export.id)
    }

    /// Exports an output port known to the system under construction.
    pub fn export_output(&mut self, export: PortExport<OutputPortId>) -> (r: Result<
        OutputPortId,
        SystemBuildError,
    >)
        ensures
            final(self).consistent(),
            r is Ok <==> old(self).known_outputs().contains(export.id),
            r matches Ok(id) ==> id == export.id,
            r is Err ==> r == Err::<OutputPortId, SystemBuildError>(
                SystemBuildError::UnregisteredOutput(export.id),
            ) && *final(self) == *old(self),
            r is Ok ==> final(self).definition().outputs@ == old(self).definition().outputs@.insert(
                export.id,
                export.type_id,
            ),
            r is Ok ==> recorded_cardinalities(
                old(self).definition().cardinalities@,
                final(self).definition().cardinalities@,
                PortId::Output(export.id),
                export.cardinality,
            ),
            final(self).known_inputs() == old(self).known_inputs(),
            final(self).known_outputs() == old(self).known_outputs(),
            final(self).connected() == old(self).connected(),
            final(self).definition().inputs == old(self).definition().inputs,
            final(self).definition().connections == old(self).definition().connections,
            final(self).definition().registered_inputs == old(self).definition().registered_inputs,
            final(self).definition().registered_outputs == old(self).definition().registered_outputs,
            final(self).definition().blocks == old(self).definition().blocks,
    {
        proof {
            use_type_invariant(&*self);
        }
        if !self.registered_outputs.contains(export.id) {
            return Err(SystemBuildError::UnregisteredOutput(export.id));
        }
        let (mut system, registered_inputs, registered_outputs, connected_outputs) = self.take_parts();
        system.outputs.insert(export.id, export.type_id);
        Self::record_cardinality(&mut system, PortId::Output(export.id), export.cardinality);
        proof {
            Self::lemma_consistency_carries(
                *old(self),
                SystemBuilder { system, registered_inputs, registered_outputs, connected_outputs },
            );
        }
        *self = SystemBuilder { system, registered_inputs, registered_outputs, connected_outputs };
        Ok(export.id)
    }

    /// Connects an output port to an input port of the same type.
    ///
    /// Retains each port's cardinality. Compatibility is checked by definition
    /// validation after the full set of producers is known. Returns `true` for
    /// a new connection; reconnecting an output is an error.
    pub fn connect<T: Send + 'static>(&mut self, output: &Outputs<T>, input: &Inputs<T>) -> (r: Result<
        bool,
        SystemBuildError,
    >)
        ensures
            final(self).consistent(),
            r is Ok ==> r == Ok::<bool, SystemBuildError>(true),
            !old(self).known_inputs().contains(input@.0) ==> r == Err::<bool, SystemBuildError>(
                SystemBuildError::UnregisteredInput(input@.0),
            ),
            old(self).known_inputs().contains(input@.0) && !old(self).known_outputs().contains(
                output@.0,
            ) ==> r == Err::<bool, SystemBuildError>(
                SystemBuildError::UnregisteredOutput(output@.0),
            ),
            old(self).known_inputs().contains(input@.0) && old(self).known_outputs().contains(
                output@.0,
            ) && old(self).connected().contains(output@.0) ==> r == Err::<bool, SystemBuildError>(
                SystemBuildError::AlreadyConnectedOutput(output@.0),
            ),
            r is Ok <==> old(self).known_inputs().contains(input@.0) && old(
                self,
            ).known_outputs().contains(output@.0) && !old(self).connected().contains(output@.0),
            r is Err ==> *final(self) == *old(self),
            r matches Ok(inserted) ==> inserted == !old(self).definition().connections@.contains_key(
                (output@.0, input@.0),
            ),
            r matches Ok(inserted) ==> final(self).connected() == if inserted {
                old(self).connected().insert(output@.0)
            } else {
                old(self).connected()
            },
            r is Ok ==> final(self).definition().connections@.contains_key((output@.0, input@.0)),
            r is Ok ==> final(self).definition().connections@.dom() == old(
                self,
            ).definition().connections@.dom().insert((output@.0, input@.0)),
            r is Ok ==> forall|k: (OutputPortId, InputPortId)|
                k != (output@.0, input@.0) && #[trigger] old(self).definition().connections@.contains_key(k)
                    ==> final(self).definition().connections@[k] == old(self).definition().connections@[k],
            r is Ok ==> exists|between: Map<PortId, Vec<Cardinality>>|
                recorded_cardinalities(
                    old(self).definition().cardinalities@,
                    between,
                    PortId::Output(output@.0),
                    Some(output@.1),
                ) && recorded_cardinalities(
                    between,
                    final(self).definition().cardinalities@,
                    PortId::Input(input@.0),
                    Some(input@.1),
                ),
            final(self).known_inputs() == old(self).known_inputs(),
            final(self).known_outputs() == old(self).known_outputs(),
            final(self).definition().inputs == old(self).definition().inputs,
            final(self).definition().outputs == old(self).definition().outputs,
            final(self).definition().registered_inputs == old(self).definition().registered_inputs,
            final(self).definition().registered_outputs == old(self).definition().registered_outputs,
            final(self).definition().blocks == old(self).definition().blocks,
    {
        proof {
            use_type_invariant(&*self);
        }
        let inserted = self.connect_ports(output.id(), input.id(), type_id_of::<T>())?;
        let ghost connected = *self;
        let (mut system, registered_inputs, registered_outputs, connected_outputs) = self.take_parts();
        Self::record_cardinality(&mut system, PortId::Output(output.id()), Some(output.message_cardinality()));
        Self::record_cardinality(&mut system, PortId::Input(input.id()), Some(input.message_cardinality()));
        proof {
            Self::lemma_consistency_carries(
                connected,
                SystemBuilder { system, registered_inputs, registered_outputs, connected_outputs },
            );
        }
        *self = SystemBuilder { system, registered_inputs, registered_outputs, connected_outputs };
        Ok(inserted)
    }

    /// Connects an output port ID to an input port ID with the given message type.
    ///
    /// Returns whether the connection was newly inserted.
    pub fn connect_ports(&mut self, output: OutputPortId, input: InputPortId, type_id: TypeId) -> (r:
        Result<bool, SystemBuildError>)
        ensures
            final(self).consistent(),
            !old(self).known_inputs().contains(input) ==> r == Err::<bool, SystemBuildError>(
                SystemBuildError::UnregisteredInput(input),
            ),
            old(self).known_inputs().contains(input) && !old(self).known_outputs().contains(output)
                ==> r == Err::<bool, SystemBuildError>(SystemBuildError::UnregisteredOutput(output)),
            old(self).known_inputs().contains(input) && old(self).known_outputs().contains(output)
                && old(self).connected().contains(output) ==> r == Err::<bool, SystemBuildError>(
                SystemBuildError::AlreadyConnectedOutput(output),
            ),
            r is Ok <==> old(self).known_inputs().contains(input) && old(
                self,
            ).known_outputs().contains(output) && !old(self).connected().contains(output),
            r is Err ==> *final(self) == *old(self),
            r matches Ok(inserted) ==> inserted == !old(self).definition().connections@.contains_key(
                (output, input),
            ),
            r is Ok ==> r == Ok::<bool, SystemBuildError>(true),
            r matches Ok(inserted) ==> final(self).definition().connections@ == old(
                self,
            ).definition().connections@.insert((output, input), type_id),
            r matches Ok(inserted) ==> final(self).connected() == if inserted {
                old(self).connected().insert(output)
            } else {
                old(self).connected()
            },
            final(self).known_inputs() == old(self).known_inputs(),
            final(self).known_outputs() == old(self).known_outputs(),
            final(self).definition().inputs == old(self).definition().inputs,
            final(self).definition().outputs == old(self).definition().outputs,
            final(self).definition().registered_inputs == old(self).definition().registered_inputs,
            final(self).definition().registered_outputs == old(self).definition().registered_outputs,
            final(self).definition().cardinalities == old(self).definition().cardinalities,
            final(self).definition().blocks == old(self).definition().blocks,
    {
        proof {
            use_type_invariant(&*self);
        }
        if !self.registered_inputs.contains(input) {
            return Err(SystemBuildError::UnregisteredInput(input));
        }
        if !self.registered_outputs.contains(output) {
            return Err(SystemBuildError::UnregisteredOutput(output));
        }
        if self.connected_outputs.contains(output) {
            return Err(SystemBuildError::AlreadyConnectedOutput(output));
        }
        let (mut system, registered_inputs, registered_outputs, mut connected_outputs) = self.take_parts();
        let result = system.connections.insert((output, input), type_id);
        if result {
            connected_outputs.insert(output);
        }
        proof {
            Self::lemma_consistency_carries(
                *old(self),
                SystemBuilder { system, registered_inputs, registered_outputs, connected_outputs },
            );
        }
        *self = SystemBuilder { system, registered_inputs, registered_outputs, connected_outputs };
        Ok(result)
    }

    /// Builds the system under construction.
    ///
    /// This retains explicit port registrations but does not perform full
    /// graph validation; call `SystemDefinition::validate` for that.
    pub fn build(self) -> (r: SystemDefinition)
        ensures
            r == self.definition(),
    {
        self.system
    }

    fn record_cardinality(system: &mut SystemDefinition, port: PortId, cardinality: Option<Cardinality>)
        ensures
            recorded_cardinalities(old(system).cardinalities@, final(system).cardinalities@, port, cardinality),
            final(system).inputs == old(system).inputs,
            final(system).outputs == old(system).outputs,
            final(system).connections == old(system).connections,
            final(system).registered_inputs == old(system).registered_inputs,
            final(system).registered_outputs == old(system).registered_outputs,
            final(system).blocks == old(system).blocks,
    {
        if let Some(c) = cardinality {
            let mut constraints: Vec<Cardinality> = Vec::new();
            match system.cardinalities.get(&port) {
                Some(existing) => {
                    let mut i: usize = 0;
                    while i < existing.len()
                        invariant
                            i <= existing@.len(),
                            constraints@ == existing@.take(i as int),
                        decreases existing@.len() - i,
                    {
                        constraints.push(existing[i]);
                        i = i + 1;
                        assert(constraints@ =~= existing@.take(i as int));
                    }
                    assert(existing@.take(i as int) =~= existing@);
                },
                None => {},
            }
            if !contains_cardinality(&constraints, c) {
                constraints.push(c);
            }
            system.cardinalities.insert(port, constraints);
        }
    }
}

impl Clone for SystemBuilder {
    /// Copies the definition under construction and the builder's port records.
    fn clone(&self) -> (r: Self)
        ensures
            r.known_inputs() == self.known_inputs(),
            r.known_outputs() == self.known_outputs(),
            r.connected() == self.connected(),
            r.definition().inputs@.dom() == self.definition().inputs@.dom(),
            r.definition().outputs@.dom() == self.definition().outputs@.dom(),
            r.definition().connections@.dom() == self.definition().connections@.dom(),
            r.definition().registered_inputs@ == self.definition().registered_inputs@,
            r.definition().registered_outputs@ == self.definition().registered_outputs@,
            r.definition().cardinalities@.dom() == self.definition().cardinalities@.dom(),
            r.definition().blocks@.len() == self.definition().blocks@.len(),
    {
        proof {
            use_type_invariant(self);
        }
        let system = SystemDefinition {
            inputs: self.system.inputs.clone(),
            outputs: self.system.outputs.clone(),
            blocks: self.system.blocks.clone(),
            connections: self.system.connections.clone(),
            registered_inputs: self.system.registered_inputs.clone(),
            registered_outputs: self.system.registered_outputs.clone(),
            cardinalities: self.system.cardinalities.clone(),
        };
        let registered_inputs = self.registered_inputs.clone();
        let registered_outputs = self.registered_outputs.clone();
        let connected_outputs = self.connected_outputs.clone();
        proof {
            Self::lemma_consistency_carries(
                *self,
                SystemBuilder { system, registered_inputs, registered_outputs, connected_outputs },
            );
        }
        SystemBuilder { system, registered_inputs, registered_outputs, connected_outputs }
    }
}

impl Default for SystemBuilder {
    fn default() -> (r: Self)
        ensures
            r.definition().is_empty_definition(),
            r.known_inputs() == Set::<InputPortId>::empty(),
            r.known_outputs() == Set::<OutputPortId>::empty(),
            r.connected() == Set::<OutputPortId>::empty(),
    {
        Self::new()
    }
}

} // verus!
