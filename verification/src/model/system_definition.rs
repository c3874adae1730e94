use vstd::prelude::*;
use core::any::TypeId;
use core::ops::RangeInclusive;
use crate::io::Cardinality;
use super::block_definition::BlockDefinition;
use super::port_id::{InputPortId, OutputPortId, PortId};
use super::port_id_map::PortIdMap;
use super::port_id_set::PortIdSet;
use super::system_builder::SystemBuilder;
use super::system_validation_error::SystemValidationError;
use super::validation::{connection_cardinalities, validate_definition, validation_outcome, ValidatedPorts};
use crate::tokio::{preparation_error, SystemPorts, SystemPrepareError};
use std::rc::Rc;

verus! {

/// What a block definition reports about one of its inputs.
#[derive(Clone, Copy, Debug)]
pub struct InputMetadata {
    /// The input's ID.
    pub id: InputPortId,
    /// The declared message type, if any.
    pub type_id: Option<TypeId>,
    /// The declared message-count constraint, if any.
    pub cardinality: Option<Cardinality>,
}

/// What a block definition reports about one of its outputs.
#[derive(Clone, Copy, Debug)]
pub struct OutputMetadata {
    /// The output's ID.
    pub id: OutputPortId,
    /// The declared message type, if any.
    pub type_id: Option<TypeId>,
    /// The declared message-count constraint, if any.
    pub cardinality: Option<Cardinality>,
}

/// The metadata of a block in a system's structural graph.
///
/// The name and port metadata are read from the block definition once, when the
/// handle is created; validation works on this record.
#[derive(Clone, Debug)]
pub struct BlockHandle {
    /// The block's name.
    pub name: String,
    /// The block's inputs, in the order the definition lists them.
    pub inputs: Vec<InputMetadata>,
    /// The block's outputs, in the order the definition lists them.
    pub outputs: Vec<OutputMetadata>,
}

impl BlockHandle {
    /// Whether this record is what `block` answers: its name, its input and output
    /// ids in the listed order, and each port's declared type and cardinality.
    pub open spec fn describes<T: BlockDefinition>(self, block: &T) -> bool {
        &&& call_ensures(T::name, (block,), self.name)
        &&& exists|ids: Vec<InputPortId>|
            call_ensures(T::inputs, (block,), ids) && self.inputs@.map_values(|m: InputMetadata| m.id) == ids@
        &&& exists|ids: Vec<OutputPortId>|
            call_ensures(T::outputs, (block,), ids) && self.outputs@.map_values(|m: OutputMetadata| m.id)
                == ids@
        &&& forall|k: int|
            0 <= k < self.inputs@.len() ==> call_ensures(
                T::input_type,
                (block, (#[trigger] self.inputs@[k]).id),
                self.inputs@[k].type_id,
            ) && call_ensures(T::input_cardinality, (block, self.inputs@[k].id), self.inputs@[k].cardinality)
        &&& forall|k: int|
            0 <= k < self.outputs@.len() ==> call_ensures(
                T::output_type,
                (block, (#[trigger] self.outputs@[k]).id),
                self.outputs@[k].type_id,
            ) && call_ensures(T::output_cardinality, (block, self.outputs@[k].id), self.outputs@[k].cardinality)
    }

    /// Reads the name and port metadata of a block definition.
    ///
    /// Each listed port's type and cardinality are queried once.
    pub fn capture<T: BlockDefinition>(block: &T) -> (r: Self)
        ensures
            r.describes(block),
    {
        let ins = block.inputs();
        let mut inputs: Vec<InputMetadata> = Vec::new();
        let mut i: usize = 0;
        while i < ins.len()
            invariant
                i <= ins@.len(),
                inputs@.len() == i,
                forall|k: int|
                    0 <= k < i ==> (#[trigger] inputs@[k]).id == ins@[k] && call_ensures(
                        T::input_type,
                        (block, inputs@[k].id),
                        inputs@[k].type_id,
                    ) && call_ensures(T::input_cardinality, (block, inputs@[k].id), inputs@[k].cardinality),
            decreases ins@.len() - i,
        {
            let id = ins[i];
            inputs.push(InputMetadata {
                id,
                type_id: block.input_type(id),
                cardinality: block.input_cardinality(id),
            });
            i = i + 1;
        }
        assert(inputs@.map_values(|m: InputMetadata| m.id) =~= ins@);
        let outs = block.outputs();
        let mut outputs: Vec<OutputMetadata> = Vec::new();
        let mut j: usize = 0;
        while j < outs.len()
            invariant
                j <= outs@.len(),
                outputs@.len() == j,
                forall|k: int|
                    0 <= k < j ==> (#[trigger] outputs@[k]).id == outs@[k] && call_ensures(
                        T::output_type,
                        (block, outputs@[k].id),
                        outputs@[k].type_id,
                    ) && call_ensures(
                        T::output_cardinality,
                        (block, outputs@[k].id),
                        outputs@[k].cardinality,
                    ),
            decreases outs@.len() - j,
        {
            let id = outs[j];
            outputs.push(OutputMetadata {
                id,
                type_id: block.output_type(id),
                cardinality: block.output_cardinality(id),
            });
            j = j + 1;
        }
        assert(outputs@.map_values(|m: OutputMetadata| m.id) =~= outs@);
        Self { name: block.name(), inputs, outputs }
    }

    /// Returns the block's name.
    pub fn name(&self) -> (r: &str)
        ensures
            r@ == self.name@,
    {
        self.name.as_str()
    }

    /// Returns the block's input IDs, in the order the definition lists them.
    pub fn inputs(&self) -> (r: Vec<InputPortId>)
        ensures
            r@ == self.inputs@.map_values(|m: InputMetadata| m.id),
    {
        let mut r: Vec<InputPortId> = Vec::new();
        let mut i: usize = 0;
        while i < self.inputs.len()
            invariant
                i <= self.inputs@.len(),
                r@ == self.inputs@.take(i as int).map_values(|m: InputMetadata| m.id),
            decreases self.inputs@.len() - i,
        {
            r.push(self.inputs[i].id);
            i = i + 1;
            assert(r@ =~= self.inputs@.take(i as int).map_values(|m: InputMetadata| m.id));
        }
        assert(self.inputs@.take(i as int) =~= self.inputs@);
        r
    }

    /// Returns the block's output IDs, in the order the definition lists them.
    pub fn outputs(&self) -> (r: Vec<OutputPortId>)
        ensures
            r@ == self.outputs@.map_values(|m: OutputMetadata| m.id),
    {
        let mut r: Vec<OutputPortId> = Vec::new();
        let mut i: usize = 0;
        while i < self.outputs.len()
            invariant
                i <= self.outputs@.len(),
                r@ == self.outputs@.take(i as int).map_values(|m: OutputMetadata| m.id),
            decreases self.outputs@.len() - i,
        {
            r.push(self.outputs[i].id);
            i = i + 1;
            assert(r@ =~= self.outputs@.take(i as int).map_values(|m: OutputMetadata| m.id));
        }
        assert(self.outputs@.take(i as int) =~= self.outputs@);
        r
    }

    /// Returns the smallest and largest input IDs, or `None` if the block has no inputs.
    pub fn inputs_range(&self) -> (r: Option<RangeInclusive<isize>>)
        ensures
            r is None <==> self.inputs@.len() == 0,
            r matches Some(range) ==> !range@.exhausted && tight_range(
                self.inputs@.map_values(|m: InputMetadata| m.id.0),
                range@.start,
                range@.end,
            ),
    {
        let mut raw: Vec<isize> = Vec::new();
        let mut i: usize = 0;
        while i < self.inputs.len()
            invariant
                i <= self.inputs@.len(),
                raw@ == self.inputs@.take(i as int).map_values(|m: InputMetadata| m.id.0),
            decreases self.inputs@.len() - i,
        {
            raw.push(self.inputs[i].id.0);
            i = i + 1;
            assert(raw@ =~= self.inputs@.take(i as int).map_values(|m: InputMetadata| m.id.0));
        }
        assert(self.inputs@.take(i as int) =~= self.inputs@);
        port_range(&raw)
    }

    /// Returns the smallest and largest output IDs, or `None` if the block has no outputs.
    pub fn outputs_range(&self) -> (r: Option<RangeInclusive<isize>>)
        ensures
            r is None <==> self.outputs@.len() == 0,
            r matches Some(range) ==> !range@.exhausted && tight_range(
                self.outputs@.map_values(|m: OutputMetadata| m.id.0),
                range@.start,
                range@.end,
            ),
    {
        let mut raw: Vec<isize> = Vec::new();
        let mut i: usize = 0;
        while i < self.outputs.len()
            invariant
                i <= self.outputs@.len(),
                raw@ == self.outputs@.take(i as int).map_values(|m: OutputMetadata| m.id.0),
            decreases self.outputs@.len() - i,
        {
            raw.push(self.outputs[i].id.0);
            i = i + 1;
            assert(raw@ =~= self.outputs@.take(i as int).map_values(|m: OutputMetadata| m.id.0));
        }
        assert(self.outputs@.take(i as int) =~= self.outputs@);
        port_range(&raw)
    }
}

/// `lo` is an element of `ids` and no element is smaller.
pub open spec fn least_id(ids: Seq<isize>, lo: isize) -> bool {
    &&& ids.contains(lo)
    &&& forall|i: int| 0 <= i < ids.len() ==> lo <= #[trigger] ids[i]
}

/// `hi` is an element of `ids` and no element is larger.
pub open spec fn greatest_id(ids: Seq<isize>, hi: isize) -> bool {
    &&& ids.contains(hi)
    &&& forall|i: int| 0 <= i < ids.len() ==> #[trigger] ids[i] <= hi
}

/// `lo..=hi` covers every element of `ids`, and both ends are elements.
pub open spec fn tight_range(ids: Seq<isize>, lo: isize, hi: isize) -> bool {
    least_id(ids, lo) && greatest_id(ids, hi)
}

/// The smallest and largest of `ids`, or `None` when there are none.
pub fn id_bounds(ids: &Vec<isize>) -> (r: Option<(isize, isize)>)
    ensures
        r is None <==> ids@.len() == 0,
        r matches Some(b) ==> tight_range(ids@, b.0, b.1),
{
    if ids.len() == 0 {
        return None;
    }
    let mut min: isize = ids[0];
    let mut max: isize = ids[0];
    let mut i: usize = 1;
    assert(ids@.take(1)[0] == min);
    assert(ids@.take(1).contains(min));
    while i < ids.len()
        invariant
            1 <= i <= ids@.len(),
            tight_range(ids@.take(i as int), min, max),
        decreases ids@.len() - i,
    {
        let id = ids[i];
        proof {
            let prefix = ids@.take(i as int);
            let next = ids@.take(i + 1);
            assert(next =~= prefix.push(id));
            assert(prefix.contains(min) ==> next.contains(min)) by {
                if prefix.contains(min) {
                    let k = choose|k: int| 0 <= k < prefix.len() && prefix[k] == min;
                    assert(next[k] == min);
                }
            }
            assert(prefix.contains(max) ==> next.contains(max)) by {
                if prefix.contains(max) {
                    let k = choose|k: int| 0 <= k < prefix.len() && prefix[k] == max;
                    assert(next[k] == max);
                }
            }
            assert(next[i as int] == id);
        }
        if id < min {
            min = id;
        }
        if id > max {
            max = id;
        }
        i = i + 1;
    }
    assert(ids@.take(ids@.len() as int) =~= ids@);
    Some((min, max))
}

/// The smallest and largest of `ids` as an inclusive range, or `None` when there are none.
pub fn port_range(ids: &Vec<isize>) -> (r: Option<RangeInclusive<isize>>)
    ensures
        r is None <==> ids@.len() == 0,
        r matches Some(range) ==> tight_range(ids@, range@.start, range@.end) && !range@.exhausted,
{
    match id_bounds(ids) {
        Some((min, max)) => Some(RangeInclusive::new(min, max)),
        None => None,
    }
}

/// The structural definition of a system of connected blocks.
///
/// Its graph describes blocks, their ports, and the connections between ports.
/// Ports are declared by blocks or by explicit registration. Exporting a port
/// does not register it. Because graph fields are editable, call `validate`
/// after edits.
#[derive(Clone, Debug)]
pub struct SystemDefinition {
    /// Exported inputs and their message types.
    pub inputs: PortIdMap<InputPortId, TypeId>,
    /// Exported outputs and their message types.
    pub outputs: PortIdMap<OutputPortId, TypeId>,
    /// Block definitions declaring the system's ports.
    pub blocks: Vec<BlockHandle>,
    /// Output-to-input connections (graph edges) and their message types.
    pub connections: PortIdMap<(OutputPortId, InputPortId), TypeId>,
    /// Explicitly registered inputs, including standalone, unconnected ports.
    pub registered_inputs: PortIdSet<InputPortId>,
    /// Explicitly registered outputs, including standalone, unconnected ports.
    pub registered_outputs: PortIdSet<OutputPortId>,
    /// Message-count constraints retained from registration, exports, and connections.
    pub cardinalities: PortIdMap<PortId, Vec<Cardinality>>,
}

impl SystemDefinition {
    /// Every part of the definition is empty.
    pub open spec fn is_empty_definition(self) -> bool {
        &&& self.inputs@ == Map::<InputPortId, TypeId>::empty()
        &&& self.outputs@ == Map::<OutputPortId, TypeId>::empty()
        &&& self.blocks@.len() == 0
        &&& self.connections@ == Map::<(OutputPortId, InputPortId), TypeId>::empty()
        &&& self.registered_inputs@ == Set::<InputPortId>::empty()
        &&& self.registered_outputs@ == Set::<OutputPortId>::empty()
        &&& self.cardinalities@ == Map::<PortId, Vec<Cardinality>>::empty()
    }

    /// Creates an empty definition.
    pub fn new() -> (r: Self)
        ensures
            r.is_empty_definition(),
            r.registered_inputs.sorted_items().len() == 0,
            r.registered_outputs.sorted_items().len() == 0,
            r.inputs.entries_seq().len() == 0,
            r.outputs.entries_seq().len() == 0,
            r.connections.entries_seq().len() == 0,
            r.cardinalities.entries_seq().len() == 0,
    {
        Self {
            inputs: PortIdMap::new(),
            outputs: PortIdMap::new(),
            blocks: Vec::new(),
            connections: PortIdMap::new(),
            registered_inputs: PortIdSet::new(),
            registered_outputs: PortIdSet::new(),
            cardinalities: PortIdMap::new(),
        }
    }
}

/// The input IDs that the blocks list, block by block.
pub open spec fn block_input_ids(blocks: Seq<BlockHandle>) -> Seq<isize>
    decreases blocks.len(),
{
    if blocks.len() == 0 {
        Seq::empty()
    } else {
        block_input_ids(blocks.drop_last()) + blocks.last().inputs@.map_values(
            |m: InputMetadata| m.id.0,
        )
    }
}

/// The output IDs that the blocks list, block by block.
pub open spec fn block_output_ids(blocks: Seq<BlockHandle>) -> Seq<isize>
    decreases blocks.len(),
{
    if blocks.len() == 0 {
        Seq::empty()
    } else {
        block_output_ids(blocks.drop_last()) + blocks.last().outputs@.map_values(
            |m: OutputMetadata| m.id.0,
        )
    }
}

impl SystemDefinition {
    /// The raw IDs of the registered inputs and of the blocks' inputs.
    pub open spec fn declared_input_ids(self) -> Seq<isize> {
        self.registered_inputs.sorted_items().map_values(|id: InputPortId| id.0) + block_input_ids(
            self.blocks@,
        )
    }

    /// The raw IDs of the registered outputs and of the blocks' outputs.
    pub open spec fn declared_output_ids(self) -> Seq<isize> {
        self.registered_outputs.sorted_items().map_values(|id: OutputPortId| id.0)
            + block_output_ids(self.blocks@)
    }

    /// Returns a system builder.
    pub fn build() -> (r: SystemBuilder)
        ensures
            r.definition().is_empty_definition(),
            r.known_inputs() == Set::<InputPortId>::empty(),
            r.known_outputs() == Set::<OutputPortId>::empty(),
            r.connected() == Set::<OutputPortId>::empty(),
    {
        SystemBuilder::new()
    }

    /// Checks port IDs, block ownership, exports, connections, message types,
    /// and cardinalities.
    ///
    /// Empty systems, unconnected ports, cycles, and inputs with multiple
    /// producers are structurally valid. An output may have only one connection.
    /// The result is [`validation_outcome`]: the first failing step of
    /// [`validation_steps`], then the connected input with the smallest ID
    /// whose producers cannot be reconciled with it.
    pub fn validate(&self) -> (r: Result<(), SystemValidationError>)
        ensures
            r is Ok <==> validation_outcome(*self) is Ok,
            validation_outcome(*self) matches Err(e) ==> r == Err::<(), SystemValidationError>(e),
    {
        match validate_definition(self) {
            Ok(_) => Ok(()),
            Err(e) => Err(e),
        }
    }

    /// Validates the definition and prepares its ports for the Tokio backend,
    /// with one capacity-one channel carrying `message_type` per connection,
    /// as [`SystemPorts::prepare`] does.
    pub fn prepare<T>(&self, message_type: TypeId) -> (r: Result<SystemPorts<T>, SystemPrepareError>)
        ensures
            r is Err <==> preparation_error(*self, message_type) is Some,
            r matches Err(e) ==> preparation_error(*self, message_type) == Some(e),
            r matches Ok(p) ==> p.lays_out(*self),
    {
        SystemPorts::prepare(self, message_type)
    }

    /// Validates the definition and returns its ports' types and effective
    /// cardinalities.
    pub fn validated_ports(&self) -> (r: Result<ValidatedPorts, SystemValidationError>)
        ensures
            validation_outcome(*self) matches Ok(m) ==> r matches Ok(v) && v.inputs@ == m.inputs
                && v.outputs@ == m.outputs && v.cardinalities@ == m.cards
                && v.connection_cardinalities@ == connection_cardinalities(m),
            validation_outcome(*self) matches Err(e) ==> r matches Err(e2) && e2 == e,
    {
        validate_definition(self)
    }

    /// Records a block's metadata in the definition.
    pub fn push_block<T: BlockDefinition>(&mut self, block: &Rc<T>)
        ensures
            final(self).blocks@.len() == old(self).blocks@.len() + 1,
            final(self).blocks@.drop_last() == old(self).blocks@,
            final(self).inputs == old(self).inputs,
            final(self).outputs == old(self).outputs,
            final(self).connections == old(self).connections,
            final(self).registered_inputs == old(self).registered_inputs,
            final(self).registered_outputs == old(self).registered_outputs,
            final(self).cardinalities == old(self).cardinalities,
            final(self).blocks@.last().describes(&**block),
    {
        let handle = BlockHandle::capture(&**block);
        self.blocks.push(handle);
        assert(self.blocks@.drop_last() =~= old(self).blocks@);
    }

    fn collect_input_ids(&self) -> (r: Vec<isize>)
        ensures
            r@ == self.declared_input_ids(),
    {
        let mut ids: Vec<isize> = Vec::new();
        let reg = self.registered_inputs.iter();
        let mut i: usize = 0;
        while i < reg.len()
            invariant
                i <= reg@.len(),
                reg@.len() == self.registered_inputs.sorted_items().len(),
                forall|j: int| 0 <= j < reg@.len() ==> *reg@[j] == self.registered_inputs.sorted_items()[j],
                ids@ == self.registered_inputs.sorted_items().take(i as int).map_values(|id: InputPortId| id.0),
            decreases reg@.len() - i,
        {
            ids.push(reg[i].0);
            i = i + 1;
            assert(ids@ =~= self.registered_inputs.sorted_items().take(i as int).map_values(|id: InputPortId| id.0));
        }
        assert(self.registered_inputs.sorted_items().take(i as int) =~= self.registered_inputs.sorted_items());
        let ghost base = ids@;
        let mut b: usize = 0;
        while b < self.blocks.len()
            invariant
                b <= self.blocks@.len(),
                ids@ == base + block_input_ids(self.blocks@.take(b as int)),
            decreases self.blocks@.len() - b,
        {
            let block = &self.blocks[b];
            let ghost before = ids@;
            let mut k: usize = 0;
            while k < block.inputs.len()
                invariant
                    k <= block.inputs@.len(),
                    ids@ == before + block.inputs@.take(k as int).map_values(|m: InputMetadata| m.id.0),
                decreases block.inputs@.len() - k,
            {
                ids.push(block.inputs[k].id.0);
                k = k + 1;
                assert(ids@ =~= before + block.inputs@.take(k as int).map_values(|m: InputMetadata| m.id.0));
            }
            proof {
                assert(block.inputs@.take(k as int) =~= block.inputs@);
                assert(self.blocks@.take(b + 1).drop_last() =~= self.blocks@.take(b as int));
                assert(self.blocks@.take(b + 1).last() == *block);
                assert(ids@ =~= base + block_input_ids(self.blocks@.take(b + 1)));
            }
            b = b + 1;
        }
        assert(self.blocks@.take(b as int) =~= self.blocks@);
        ids
    }

    fn collect_output_ids(&self) -> (r: Vec<isize>)
        ensures
            r@ == self.declared_output_ids(),
    {
        let mut ids: Vec<isize> = Vec::new();
        let reg = self.registered_outputs.iter();
        let mut i: usize = 0;
        while i < reg.len()
            invariant
                i <= reg@.len(),
                reg@.len() == self.registered_outputs.sorted_items().len(),
                forall|j: int| 0 <= j < reg@.len() ==> *reg@[j] == self.registered_outputs.sorted_items()[j],
                ids@ == self.registered_outputs.sorted_items().take(i as int).map_values(|id: OutputPortId| id.0),
            decreases reg@.len() - i,
        {
            ids.push(reg[i].0);
            i = i + 1;
            assert(ids@ =~= self.registered_outputs.sorted_items().take(i as int).map_values(|id: OutputPortId| id.0));
        }
        assert(self.registered_outputs.sorted_items().take(i as int) =~= self.registered_outputs.sorted_items());
        let ghost base = ids@;
        let mut b: usize = 0;
        while b < self.blocks.len()
            invariant
                b <= self.blocks@.len(),
                ids@ == base + block_output_ids(self.blocks@.take(b as int)),
            decreases self.blocks@.len() - b,
        {
            let block = &self.blocks[b];
            let ghost before = ids@;
            let mut k: usize = 0;
            while k < block.outputs.len()
                invariant
                    k <= block.outputs@.len(),
                    ids@ == before + block.outputs@.take(k as int).map_values(|m: OutputMetadata| m.id.0),
                decreases block.outputs@.len() - k,
            {
                ids.push(block.outputs[k].id.0);
                k = k + 1;
                assert(ids@ =~= before + block.outputs@.take(k as int).map_values(|m: OutputMetadata| m.id.0));
            }
            proof {
                assert(block.outputs@.take(k as int) =~= block.outputs@);
                assert(self.blocks@.take(b + 1).drop_last() =~= self.blocks@.take(b as int));
                assert(self.blocks@.take(b + 1).last() == *block);
                assert(ids@ =~= base + block_output_ids(self.blocks@.take(b + 1)));
            }
            b = b + 1;
        }
        assert(self.blocks@.take(b as int) =~= self.blocks@);
        ids
    }

    /// Returns the bounds of registered and block input IDs, or `None` if there are none.
    ///
    /// IDs within these bounds need not be declared; this is not a port count.
    pub fn inputs_range(&self) -> (r: Option<RangeInclusive<isize>>)
        ensures
            r is None <==> self.declared_input_ids().len() == 0,
            r matches Some(range) ==> !range@.exhausted && tight_range(
                self.declared_input_ids(),
                range@.start,
                range@.end,
            ),
    {
        port_range(&self.collect_input_ids())
    }

    /// Returns the numerically smallest declared input ID.
    pub fn inputs_min(&self) -> (r: Option<InputPortId>)
        ensures
            r is None <==> self.declared_input_ids().len() == 0,
            r matches Some(id) ==> least_id(self.declared_input_ids(), id.0),
    {
        match id_bounds(&self.collect_input_ids()) {
            Some((min, _)) => Some(InputPortId(min)),
            None => None,
        }
    }

    /// Returns the numerically largest declared input ID.
    pub fn inputs_max(&self) -> (r: Option<InputPortId>)
        ensures
            r is None <==> self.declared_input_ids().len() == 0,
            r matches Some(id) ==> greatest_id(self.declared_input_ids(), id.0),
    {
        match id_bounds(&self.collect_input_ids()) {
            Some((_, max)) => Some(InputPortId(max)),
            None => None,
        }
    }

    /// Returns the bounds of registered and block output IDs, or `None` if there are none.
    ///
    /// IDs within these bounds need not be declared; this is not a port count.
    pub fn outputs_range(&self) -> (r: Option<RangeInclusive<isize>>)
        ensures
            r is None <==> self.declared_output_ids().len() == 0,
            r matches Some(range) ==> !range@.exhausted && tight_range(
                self.declared_output_ids(),
                range@.start,
                range@.end,
            ),
    {
        port_range(&self.collect_output_ids())
    }

    /// Returns the numerically smallest declared output ID.
    pub fn outputs_min(&self) -> (r: Option<OutputPortId>)
        ensures
            r is None <==> self.declared_output_ids().len() == 0,
            r matches Some(id) ==> least_id(self.declared_output_ids(), id.0),
    {
        match id_bounds(&self.collect_output_ids()) {
            Some((min, _)) => Some(OutputPortId(min)),
            None => None,
        }
    }

    /// Returns the numerically largest declared output ID.
    pub fn outputs_max(&self) -> (r: Option<OutputPortId>)
        ensures
            r is None <==> self.declared_output_ids().len() == 0,
            r matches Some(id) ==> greatest_id(self.declared_output_ids(), id.0),
    {
        match id_bounds(&self.collect_output_ids()) {
            Some((_, max)) => Some(OutputPortId(max)),
            None => None,
        }
    }
}

impl Default for SystemDefinition {
    fn default() -> (r: Self)
        ensures
            r.is_empty_definition(),
    {
        Self::new()
    }
}

} // verus!
