//! Preparing a validated system definition for the Tokio backend: one
//! channel per connection, with dense storage for every declared port.

use vstd::prelude::*;
use core::any::TypeId;
use crate::io::Cardinality;
use crate::model::{
    card_of, connection_cardinalities, lemma_connections_declared, lemma_entries_map_at, lemma_entries_map_len, same_type, sorted_entries,
    validate_definition, validation_outcome, InputPortId, OutputPortId, PortId, PortIdMap, PortIdSet,
    PortKey, SystemDefinition, key_lt,
};
use super::channel::Channel;
use super::inputs::{receives, Inputs};
use super::outputs::Outputs;
use super::system_prepare_error::SystemPrepareError;

verus! {

/// Why the connection at position `j` cannot be prepared: its input already
/// has a producer earlier in `entries`, or it carries another type than
/// `message_type`.
pub open spec fn entry_error(
    entries: Seq<((OutputPortId, InputPortId), TypeId)>,
    j: int,
    message_type: TypeId,
) -> Option<SystemPrepareError> {
    let input = entries[j].0.1;
    if exists|k: int| 0 <= k < j && #[trigger] entries[k].0.1 == input {
        Some(SystemPrepareError::UnsupportedFanIn(input))
    } else if entries[j].1 != message_type {
        Some(
            SystemPrepareError::UnsupportedMessageType {
                port: PortId::Output(entries[j].0.0),
                type_id: entries[j].1,
            },
        )
    } else {
        None
    }
}

/// The first connection error from position `j` on, in order.
pub open spec fn connection_check(
    entries: Seq<((OutputPortId, InputPortId), TypeId)>,
    message_type: TypeId,
    j: int,
) -> Result<(), SystemPrepareError>
    decreases entries.len() - j,
{
    if j < 0 || j >= entries.len() {
        Ok(())
    } else {
        match entry_error(entries, j, message_type) {
            Some(e) => Err(e),
            None => connection_check(entries, message_type, j + 1),
        }
    }
}

/// Why a definition cannot be prepared with channels of `message_type`, if it cannot.
pub open spec fn preparation_error(def: SystemDefinition, message_type: TypeId) -> Option<
    SystemPrepareError,
> {
    match validation_outcome(def) {
        Err(e) => Some(SystemPrepareError::InvalidDefinition(e)),
        Ok(_) => match connection_check(def.connections.entries_seq(), message_type, 0) {
            Err(e) => Some(e),
            Ok(_) => None,
        },
    }
}

/// `indices` numbers the ports `keys` densely, injectively and in increasing ID order.
pub open spec fn dense_indices<K: PortKey>(indices: Map<K, usize>, keys: Set<K>) -> bool {
    &&& indices.dom() == keys
    &&& forall|a: K| #[trigger] keys.contains(a) ==> indices[a] < keys.len()
    &&& forall|a: K, b: K|
        #[trigger] keys.contains(a) && #[trigger] keys.contains(b) && a != b ==> indices[a] != indices[b]
    &&& forall|a: K, b: K|
        #[trigger] keys.contains(a) && #[trigger] keys.contains(b) && key_lt(a.key_of(), b.key_of())
            ==> indices[a] < indices[b]
}

/// The first connection that cannot be prepared, as [`connection_check`] defines it.
fn check_connections(
    connections: &PortIdMap<(OutputPortId, InputPortId), TypeId>,
    message_type: &TypeId,
) -> (r: Result<(), SystemPrepareError>)
    ensures
        r == connection_check(connections.entries_seq(), *message_type, 0),
{
    let ghost entries = connections.entries_seq();
    let n = connections.len();
    let mut seen: PortIdSet<InputPortId> = PortIdSet::new();
    let mut k: usize = 0;
    while k < n
        invariant
            n == entries.len(),
            entries == connections.entries_seq(),
            k <= n,
            forall|i: InputPortId|
                seen@.contains(i) <==> exists|m: int| 0 <= m < k && #[trigger] entries[m].0.1 == i,
            connection_check(entries, *message_type, 0) == connection_check(entries, *message_type, k as int),
        decreases n - k,
    {
        let (key, type_id) = connections.entry(k);
        let input = key.1;
        let output = key.0;
        if seen.contains(input) {
            assert(entry_error(entries, k as int, *message_type) == Some(
                SystemPrepareError::UnsupportedFanIn(input),
            ));
            return Err(SystemPrepareError::UnsupportedFanIn(input));
        }
        assert(!(exists|m: int| 0 <= m < k && #[trigger] entries[m].0.1 == input));
        if !same_type(type_id, message_type) {
            return Err(
                SystemPrepareError::UnsupportedMessageType { port: PortId::Output(output), type_id: *type_id },
            );
        }
        seen.insert(input);
        proof {
            assert forall|i: InputPortId| seen@.contains(i) implies exists|m: int|
                0 <= m < k + 1 && #[trigger] entries[m].0.1 == i by {
                if i == input {
                    assert(entries[k as int].0.1 == i);
                }
            }
        }
        k = k + 1;
    }
    Ok(())
}

/// Numbers the keys of `ports` in increasing ID order.
fn dense_layout<K: PortKey + Copy, V>(ports: &PortIdMap<K, V>) -> (r: PortIdMap<K, usize>)
    ensures
        dense_indices(r@, ports@.dom()),
        ports@.dom().len() == ports.entries_seq().len(),
        forall|m: int| 0 <= m < ports.entries_seq().len() ==> r@[#[trigger] ports.entries_seq()[m].0] == m,
{
    proof { use_type_invariant(ports); }
    let ghost e = ports.entries_seq();
    let n = ports.len();
    let mut indices: PortIdMap<K, usize> = PortIdMap::new();
    let mut i: usize = 0;
    while i < n
        invariant
            n == e.len(),
            e == ports.entries_seq(),
            sorted_entries(e),
            i <= n,
            forall|id: K| indices@.contains_key(id) <==> exists|m: int| 0 <= m < i && #[trigger] e[m].0 == id,
            forall|m: int| 0 <= m < i ==> indices@[#[trigger] e[m].0] == m,
        decreases n - i,
    {
        let (key, _) = ports.entry(i);
        let id: K = *key;
        indices.insert(id, i);
        proof {
            assert forall|m: int| 0 <= m < i implies #[trigger] e[m].0 != id by {
                assert(key_lt(e[m].0.key_of(), e[i as int].0.key_of()));
            }
            assert forall|id2: K| indices@.contains_key(id2) implies exists|m: int|
                0 <= m < i + 1 && #[trigger] e[m].0 == id2 by {
                if id2 == id {
                    assert(e[i as int].0 == id2);
                }
            }
        }
        i = i + 1;
    }
    proof {
        lemma_entries_map_len(e);
        assert(indices@.dom() =~= ports@.dom()) by {
            assert forall|id: K| indices@.contains_key(id) implies ports@.contains_key(id) by {
                let m = choose|m: int| 0 <= m < n && #[trigger] e[m].0 == id;
                lemma_entries_map_at(e, m);
            }
            assert forall|id: K| ports@.contains_key(id) implies indices@.contains_key(id) by {
                let m = choose|m: int| 0 <= m < e.len() && e[m].0 == id;
                assert(e[m].0 == id);
            }
        }
        assert forall|a: K| #[trigger] ports@.dom().contains(a) implies indices@[a] < ports@.dom().len() by {
            let m = choose|m: int| 0 <= m < n && #[trigger] e[m].0 == a;
        }
        assert forall|a: K, b: K|
            #[trigger] ports@.dom().contains(a) && #[trigger] ports@.dom().contains(b) && a != b implies indices@[a]
                != indices@[b] by {
            let p = choose|m: int| 0 <= m < n && #[trigger] e[m].0 == a;
            let q = choose|m: int| 0 <= m < n && #[trigger] e[m].0 == b;
        }
        assert forall|a: K, b: K|
            #[trigger] ports@.dom().contains(a) && #[trigger] ports@.dom().contains(b) && key_lt(
                a.key_of(),
                b.key_of(),
            ) implies indices@[a] < indices@[b] by {
            let p = choose|m: int| 0 <= m < n && #[trigger] e[m].0 == a;
            let q = choose|m: int| 0 <= m < n && #[trigger] e[m].0 == b;
            if q < p {
                assert(key_lt(e[q].0.key_of(), e[p].0.key_of()));
            }
        }
    }
    indices
}

/// The ports of a prepared system: one endpoint per declared input and
/// output, stored densely, and one channel per connection.
#[verifier::reject_recursive_types(T)]
pub struct SystemPorts<T> {
    /// The receiving endpoints, by dense index.
    pub inputs: Vec<Inputs<T>>,
    /// The sending endpoints, by dense index.
    pub outputs: Vec<Outputs<T>>,
    /// The dense index of each declared input.
    pub input_indices: PortIdMap<InputPortId, usize>,
    /// The dense index of each declared output.
    pub output_indices: PortIdMap<OutputPortId, usize>,
}

impl<T> SystemPorts<T> {
    /// The ports lay out the validated `definition`: every declared input and
    /// output numbered densely in increasing ID order; a connected input holds
    /// its channel's receiver, bounded by the connection's effective
    /// cardinality (the intersection of its endpoints' bounds); a connected
    /// output holds the sender of one of its connections, bounded alike; every
    /// other port is an unconnected placeholder with its own effective bounds.
    pub open spec fn lays_out(self, definition: SystemDefinition) -> bool {
        let m = validation_outcome(definition)->Ok_0;
        let links = connection_cardinalities(m);
        &&& self.inputs@.len() == m.inputs.dom().len()
        &&& self.outputs@.len() == m.outputs.dom().len()
        &&& dense_indices(self.input_indices@, m.inputs.dom())
        &&& dense_indices(self.output_indices@, m.outputs.dom())
        &&& forall|j: int| 0 <= j < self.inputs@.len() ==> (#[trigger] self.inputs@[j]).received() == 0
        &&& forall|i: InputPortId| #[trigger]
            m.inputs.contains_key(i) ==> {
                let port = self.inputs@[self.input_indices@[i] as int];
                if exists|o: OutputPortId| #[trigger] definition.connections@.contains_key((o, i)) {
                    &&& links.contains_key(i)
                    &&& port.bounds() == links[i]
                    &&& links[i]@.1 == Some(0usize) ==> port.stage() is Ended
                    &&& links[i]@.1 != Some(0usize) ==> port.stage() is Connected
                } else {
                    &&& port.bounds() == card_of(m, PortId::Input(i))
                    &&& port.stage() is Unconnected
                }
            }
        &&& forall|o: OutputPortId| #[trigger]
            m.outputs.contains_key(o) ==> {
                let port = self.outputs@[self.output_indices@[o] as int];
                if exists|i: InputPortId| #[trigger] definition.connections@.contains_key((o, i)) {
                    exists|i: InputPortId| #[trigger]
                        definition.connections@.contains_key((o, i)) && links.contains_key(i)
                            && port.bounds() == links[i] && port.storage() is Connected
                } else {
                    &&& port.bounds() == card_of(m, PortId::Output(o))
                    &&& port.storage() is Unconnected
                }
            }
    }

    /// Validates `definition` and prepares its ports, with one capacity-one
    /// channel carrying `message_type` per connection.
    ///
    /// Inputs and outputs are numbered densely in increasing ID order.
    /// Prepared connections enforce the intersection of their endpoint bounds;
    /// unconnected placeholders retain their own effective bounds.
    ///
    /// # Errors
    ///
    /// [`SystemPrepareError::InvalidDefinition`] when validation fails;
    /// otherwise, for the first connection in key order that cannot be
    /// prepared, [`SystemPrepareError::UnsupportedFanIn`] when its input already
    /// has a producer, or [`SystemPrepareError::UnsupportedMessageType`] when it
    /// carries another type than `message_type`.
    pub fn prepare(definition: &SystemDefinition, message_type: TypeId) -> (r: Result<Self, SystemPrepareError>)
        ensures
            r is Err <==> preparation_error(*definition, message_type) is Some,
            r matches Err(e) ==> preparation_error(*definition, message_type) == Some(e),
            r matches Ok(p) ==> p.lays_out(*definition),
    {
        let ports = match validate_definition(definition) {
            Ok(ports) => ports,
            Err(e) => return Err(SystemPrepareError::InvalidDefinition(e)),
        };
        match check_connections(&definition.connections, &message_type) {
            Ok(()) => {},
            Err(e) => return Err(e),
        }
        proof {
            lemma_connections_declared(*definition);
            use_type_invariant(&ports.inputs);
            use_type_invariant(&ports.outputs);
            lemma_entries_map_len(ports.inputs.entries_seq());
            lemma_entries_map_len(ports.outputs.entries_seq());
        }
        let ghost model = validation_outcome(*definition)->Ok_0;
        let ghost links = connection_cardinalities(model);
        let ghost e_in = ports.inputs.entries_seq();
        let ghost e_out = ports.outputs.entries_seq();
        let input_indices = dense_layout(&ports.inputs);
        let output_indices = dense_layout(&ports.outputs);
        let n_inputs = ports.inputs.len();
        let n_outputs = ports.outputs.len();
        let mut inputs: Vec<Inputs<T>> = Vec::new();
        let mut k: usize = 0;
        while k < n_inputs
            invariant
                n_inputs == e_in.len(),
                e_in == ports.inputs.entries_seq(),
                ports.cardinalities@ == model.cards,
                k <= n_inputs,
                inputs@.len() == k,
                forall|j: int|
                    0 <= j < k ==> (#[trigger] inputs@[j]).bounds() == card_of(model, PortId::Input(e_in[j].0))
                        && inputs@[j].received() == 0 && inputs@[j].stage() is Unconnected,
            decreases n_inputs - k,
        {
            let (id, _) = ports.inputs.entry(k);
            inputs.push(Inputs::unconnected(ports.cardinality(PortId::Input(*id))));
            k = k + 1;
        }
        let mut outputs: Vec<Outputs<T>> = Vec::new();
        let mut k: usize = 0;
        while k < n_outputs
            invariant
                n_outputs == e_out.len(),
                e_out == ports.outputs.entries_seq(),
                ports.cardinalities@ == model.cards,
                k <= n_outputs,
                outputs@.len() == k,
                forall|j: int|
                    0 <= j < k ==> (#[trigger] outputs@[j]).bounds() == card_of(model, PortId::Output(e_out[j].0))
                        && outputs@[j].storage() is Unconnected,
            decreases n_outputs - k,
        {
            let (id, _) = ports.outputs.entry(k);
            outputs.push(Outputs::unconnected(ports.cardinality(PortId::Output(*id))));
            k = k + 1;
        }
        let ghost entries = definition.connections.entries_seq();
        let n = definition.connections.len();
        proof {
            use_type_invariant(&definition.connections);
        }
        let mut k: usize = 0;
        while k < n
            invariant
                n == entries.len(),
                entries == definition.connections.entries_seq(),
                sorted_entries(entries),
                k <= n,
                forall|o: OutputPortId, i: InputPortId| #[trigger]
                    definition.connections@.contains_key((o, i)) ==> model.inputs.contains_key(i)
                        && model.outputs.contains_key(o) && model.producers.contains_key(i),
                dense_indices(input_indices@, model.inputs.dom()),
                dense_indices(output_indices@, model.outputs.dom()),
                forall|j: int| 0 <= j < e_in.len() ==> input_indices@[#[trigger] e_in[j].0] == j,
                forall|j: int| 0 <= j < e_out.len() ==> output_indices@[#[trigger] e_out[j].0] == j,
                ports.inputs@ == model.inputs,
                ports.outputs@ == model.outputs,
                e_in == ports.inputs.entries_seq(),
                e_out == ports.outputs.entries_seq(),
                ports.connection_cardinalities@ == links,
                links == connection_cardinalities(model),
                inputs@.len() == n_inputs,
                outputs@.len() == n_outputs,
                n_inputs == e_in.len(),
                n_outputs == e_out.len(),
                n_inputs == model.inputs.dom().len(),
                n_outputs == model.outputs.dom().len(),
                forall|j: int| 0 <= j < n_inputs ==> (#[trigger] inputs@[j]).received() == 0,
                forall|j: int|
                    0 <= j < n_inputs ==> if exists|m: int|
                        0 <= m < k && input_indices@[#[trigger] entries[m].0.1] == j {
                        &&& links.contains_key(e_in[j].0)
                        &&& (#[trigger] inputs@[j]).bounds() == links[e_in[j].0]
                        &&& links[e_in[j].0]@.1 == Some(0usize) ==> inputs@[j].stage() is Ended
                        &&& links[e_in[j].0]@.1 != Some(0usize) ==> inputs@[j].stage() is Connected
                    } else {
                        &&& inputs@[j].bounds() == card_of(model, PortId::Input(e_in[j].0))
                        &&& inputs@[j].stage() is Unconnected
                    },
                forall|j: int|
                    0 <= j < n_outputs ==> if exists|m: int|
                        0 <= m < k && output_indices@[#[trigger] entries[m].0.0] == j {
                        exists|m: int|
                            0 <= m < k && output_indices@[#[trigger] entries[m].0.0] == j
                                && links.contains_key(entries[m].0.1)
                                && (#[trigger] outputs@[j]).bounds() == links[entries[m].0.1]
                                && outputs@[j].storage() is Connected
                    } else {
                        &&& outputs@[j].bounds() == card_of(model, PortId::Output(e_out[j].0))
                        &&& outputs@[j].storage() is Unconnected
                    },
            decreases n - k,
        {
            let (key, _) = definition.connections.entry(k);
            let output = key.0;
            let input = key.1;
            proof {
                lemma_entries_map_at(entries, k as int);
                assert(definition.connections@.contains_key((output, input)));
                assert(model.producers.contains_key(input));
                assert(links.contains_key(input));
                assert(ports.connection_cardinalities@.contains_key(input));
            }
            let oi = match output_indices.get(&output) {
                Some(index) => *index,
                None => {
                    assert(false);
                    0
                },
            };
            let ii = match input_indices.get(&input) {
                Some(index) => *index,
                None => {
                    assert(false);
                    0
                },
            };
            let bounds = match ports.connection_cardinalities.get(&input) {
                Some(c) => *c,
                None => {
                    assert(false);
                    Cardinality::unlimited()
                },
            };
            proof {
                assert(model.inputs.dom().contains(input));
                assert(model.outputs.dom().contains(output));
                let ji = choose|j: int| 0 <= j < e_in.len() && e_in[j].0 == input;
                assert(e_in[ji].0 == input);
                assert(ji == ii as int);
                let jo = choose|j: int| 0 <= j < e_out.len() && e_out[j].0 == output;
                assert(e_out[jo].0 == output);
                assert(jo == oi as int);
            }
            let (tx, rx) = Channel::<T>::with_cardinality(1, bounds).into_inner();
            let ghost before_in = inputs@;
            let ghost before_out = outputs@;
            outputs.set(oi, tx);
            inputs.set(ii, rx);
            proof {
                assert forall|j: int| 0 <= j < n_inputs implies (#[trigger] inputs@[j]).received() == 0 by {
                    if j != ii as int {
                        assert(inputs@[j] == before_in[j]);
                    }
                }
                assert forall|j: int|
                    0 <= j < n_inputs implies if exists|m: int|
                        0 <= m < k + 1 && input_indices@[#[trigger] entries[m].0.1] == j {
                        &&& links.contains_key(e_in[j].0)
                        &&& (#[trigger] inputs@[j]).bounds() == links[e_in[j].0]
                        &&& links[e_in[j].0]@.1 == Some(0usize) ==> inputs@[j].stage() is Ended
                        &&& links[e_in[j].0]@.1 != Some(0usize) ==> inputs@[j].stage() is Connected
                    } else {
                        &&& inputs@[j].bounds() == card_of(model, PortId::Input(e_in[j].0))
                        &&& inputs@[j].stage() is Unconnected
                    } by {
                    if j != ii as int {
                        assert(inputs@[j] == before_in[j]);
                        if exists|m: int| 0 <= m < k + 1 && input_indices@[#[trigger] entries[m].0.1] == j {
                            let m = choose|m: int| 0 <= m < k + 1 && input_indices@[#[trigger] entries[m].0.1] == j;
                            assert(m != k as int);
                        }
                    } else {
                        assert(input_indices@[entries[k as int].0.1] == j);
                    }
                }
                assert forall|j: int|
                    0 <= j < n_outputs implies if exists|m: int|
                        0 <= m < k + 1 && output_indices@[#[trigger] entries[m].0.0] == j {
                        exists|m: int|
                            0 <= m < k + 1 && output_indices@[#[trigger] entries[m].0.0] == j
                                && links.contains_key(entries[m].0.1)
                                && (#[trigger] outputs@[j]).bounds() == links[entries[m].0.1]
                                && outputs@[j].storage() is Connected
                    } else {
                        &&& outputs@[j].bounds() == card_of(model, PortId::Output(e_out[j].0))
                        &&& outputs@[j].storage() is Unconnected
                    } by {
                    if j != oi as int {
                        assert(outputs@[j] == before_out[j]);
                        if exists|m: int| 0 <= m < k + 1 && output_indices@[#[trigger] entries[m].0.0] == j {
                            let m = choose|m: int| 0 <= m < k + 1 && output_indices@[#[trigger] entries[m].0.0] == j;
                            assert(m != k as int);
                            let m2 = choose|m: int|
                                0 <= m < k && output_indices@[#[trigger] entries[m].0.0] == j
                                    && links.contains_key(entries[m].0.1)
                                    && before_out[j].bounds() == links[entries[m].0.1]
                                    && before_out[j].storage() is Connected;
                            assert(0 <= m2 < k + 1 && output_indices@[entries[m2].0.0] == j);
                        }
                    } else {
                        assert(output_indices@[entries[k as int].0.0] == j);
                        assert(links.contains_key(entries[k as int].0.1));
                    }
                }
            }
            k = k + 1;
        }
        proof {
            assert forall|i: InputPortId| #[trigger] model.inputs.contains_key(i) implies {
                let port = inputs@[input_indices@[i] as int];
                if exists|o: OutputPortId| #[trigger] definition.connections@.contains_key((o, i)) {
                    &&& links.contains_key(i)
                    &&& port.bounds() == links[i]
                    &&& links[i]@.1 == Some(0usize) ==> port.stage() is Ended
                    &&& links[i]@.1 != Some(0usize) ==> port.stage() is Connected
                } else {
                    &&& port.bounds() == card_of(model, PortId::Input(i))
                    &&& port.stage() is Unconnected
                }
            } by {
                let j = input_indices@[i] as int;
                assert(model.inputs.dom().contains(i));
                let ji = choose|x: int| 0 <= x < e_in.len() && e_in[x].0 == i;
                assert(e_in[ji].0 == i);
                assert(ji == j);
                if exists|o: OutputPortId| #[trigger] definition.connections@.contains_key((o, i)) {
                    let o = choose|o: OutputPortId| #[trigger] definition.connections@.contains_key((o, i));
                    let m = choose|m: int| 0 <= m < entries.len() && entries[m].0 == (o, i);
                    assert(input_indices@[entries[m].0.1] == j);
                } else {
                    if exists|m: int| 0 <= m < n && input_indices@[#[trigger] entries[m].0.1] == j {
                        let m = choose|m: int| 0 <= m < n && input_indices@[#[trigger] entries[m].0.1] == j;
                        lemma_entries_map_at(entries, m);
                        let (o2, i2) = entries[m].0;
                        assert(definition.connections@.contains_key((o2, i2)));
                        assert(model.inputs.dom().contains(i2));
                        assert(i2 == i);
                    }
                }
            }
            assert forall|o: OutputPortId| #[trigger] model.outputs.contains_key(o) implies {
                let port = outputs@[output_indices@[o] as int];
                if exists|i: InputPortId| #[trigger] definition.connections@.contains_key((o, i)) {
                    exists|i: InputPortId| #[trigger]
                        definition.connections@.contains_key((o, i)) && links.contains_key(i)
                            && port.bounds() == links[i] && port.storage() is Connected
                } else {
                    &&& port.bounds() == card_of(model, PortId::Output(o))
                    &&& port.storage() is Unconnected
                }
            } by {
                let j = output_indices@[o] as int;
                assert(model.outputs.dom().contains(o));
                let jo = choose|x: int| 0 <= x < e_out.len() && e_out[x].0 == o;
                assert(e_out[jo].0 == o);
                assert(jo == j);
                if exists|i: InputPortId| #[trigger] definition.connections@.contains_key((o, i)) {
                    let i = choose|i: InputPortId| #[trigger] definition.connections@.contains_key((o, i));
                    let m = choose|m: int| 0 <= m < entries.len() && entries[m].0 == (o, i);
                    assert(output_indices@[entries[m].0.0] == j);
                    let m2 = choose|m: int|
                        0 <= m < n && output_indices@[#[trigger] entries[m].0.0] == j
                            && links.contains_key(entries[m].0.1)
                            && outputs@[j].bounds() == links[entries[m].0.1]
                            && outputs@[j].storage() is Connected;
                    lemma_entries_map_at(entries, m2);
                    let (o2, i2) = entries[m2].0;
                    assert(definition.connections@.contains_key((o2, i2)));
                    assert(model.outputs.dom().contains(o2));
                    assert(o2 == o);
                } else {
                    if exists|m: int| 0 <= m < n && output_indices@[#[trigger] entries[m].0.0] == j {
                        let m = choose|m: int| 0 <= m < n && output_indices@[#[trigger] entries[m].0.0] == j;
                        lemma_entries_map_at(entries, m);
                        let (o2, i2) = entries[m].0;
                        assert(definition.connections@.contains_key((o2, i2)));
                        assert(model.outputs.dom().contains(o2));
                        assert(o2 == o);
                    }
                }
            }
        }
        Ok(SystemPorts { inputs, outputs, input_indices, output_indices })
    }
}

} // verus!
