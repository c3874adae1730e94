//! What a successful validation guarantees about a definition's blocks and
//! connections, stated over the definition itself.

use vstd::prelude::*;
use crate::io::Cardinality;
use super::port_id::{InputPortId, OutputPortId, PortId};
use super::system_definition::{BlockHandle, InputMetadata, OutputMetadata, SystemDefinition};
use super::validation::{
    apply_step, blocks_steps, cardinalities_steps, cardinality_steps, input_steps, inputs_steps,
    output_steps, outputs_steps, run_steps, validation_outcome, validation_steps, empty_model,
    PortsModel, ValidationStep,
};

verus! {

/// Every port that the blocks list, block by block: each block's inputs in
/// their listed order, then its outputs.
pub open spec fn block_ports(blocks: Seq<BlockHandle>) -> Seq<PortId>
    decreases blocks.len(),
{
    if blocks.len() == 0 {
        Seq::empty()
    } else {
        block_ports(blocks.drop_last()) + blocks.last().inputs@.map_values(
            |m: InputMetadata| PortId::Input(m.id),
        ) + blocks.last().outputs@.map_values(|m: OutputMetadata| PortId::Output(m.id))
    }
}

/// The ports claimed by the `Claim` steps among `steps`, in order.
pub open spec fn step_claims(steps: Seq<ValidationStep>) -> Seq<PortId>
    decreases steps.len(),
{
    if steps.len() == 0 {
        Seq::empty()
    } else {
        let rest = step_claims(steps.drop_last());
        match steps.last() {
            ValidationStep::Claim(p) => rest.push(p),
            _ => rest,
        }
    }
}

/// The outputs of the `Connect` steps among `steps`, in order.
pub open spec fn step_connections(steps: Seq<ValidationStep>) -> Seq<OutputPortId>
    decreases steps.len(),
{
    if steps.len() == 0 {
        Seq::empty()
    } else {
        let rest = step_connections(steps.drop_last());
        match steps.last() {
            ValidationStep::Connect(o, _, _) => rest.push(o),
            _ => rest,
        }
    }
}

/// A step that neither claims a port nor connects an output.
pub open spec fn is_plain_step(s: ValidationStep) -> bool {
    s is Declare || s is Type || s is Bound
}

proof fn lemma_steps_concat(a: Seq<ValidationStep>, b: Seq<ValidationStep>)
    ensures
        step_claims(a + b) == step_claims(a) + step_claims(b),
        step_connections(a + b) == step_connections(a) + step_connections(b),
    decreases b.len(),
{
    if b.len() == 0 {
        assert(a + b =~= a);
        assert(step_claims(a) + step_claims(b) =~= step_claims(a));
        assert(step_connections(a) + step_connections(b) =~= step_connections(a));
    } else {
        assert((a + b).drop_last() =~= a + b.drop_last());
        assert((a + b).last() == b.last());
        lemma_steps_concat(a, b.drop_last());
        match b.last() {
            ValidationStep::Claim(p) => {
                assert((step_claims(a) + step_claims(b.drop_last())).push(p) =~= step_claims(a) + step_claims(
                    b.drop_last(),
                ).push(p));
            },
            ValidationStep::Connect(o, _, _) => {
                assert((step_connections(a) + step_connections(b.drop_last())).push(o) =~= step_connections(a)
                    + step_connections(b.drop_last()).push(o));
            },
            _ => {},
        }
    }
}

proof fn lemma_plain_steps(s: Seq<ValidationStep>)
    requires
        forall|i: int| 0 <= i < s.len() ==> is_plain_step(#[trigger] s[i]),
    ensures
        step_claims(s) == Seq::<PortId>::empty(),
        step_connections(s) == Seq::<OutputPortId>::empty(),
    decreases s.len(),
{
    if s.len() > 0 {
        assert forall|i: int| 0 <= i < s.drop_last().len() implies is_plain_step(#[trigger] s.drop_last()[i]) by {
            assert(s.drop_last()[i] == s[i]);
        }
        lemma_plain_steps(s.drop_last());
        assert(is_plain_step(s[s.len() - 1]));
    }
}

proof fn lemma_claim_pair(p: PortId)
    ensures
        step_claims(seq![ValidationStep::Declare(p), ValidationStep::Claim(p)]) == seq![p],
        step_connections(seq![ValidationStep::Declare(p), ValidationStep::Claim(p)]) == Seq::<
            OutputPortId,
        >::empty(),
{
    let s = seq![ValidationStep::Declare(p), ValidationStep::Claim(p)];
    assert(s.drop_last() =~= seq![ValidationStep::Declare(p)]);
    assert(s.drop_last().drop_last() =~= Seq::<ValidationStep>::empty());
    assert(s.drop_last().last() == ValidationStep::Declare(p));
    assert(s.last() == ValidationStep::Claim(p));
    assert(step_claims(s.drop_last().drop_last()) == Seq::<PortId>::empty());
    assert(step_claims(s.drop_last()) == Seq::<PortId>::empty());
    assert(step_connections(s.drop_last().drop_last()) == Seq::<OutputPortId>::empty());
    assert(step_connections(s.drop_last()) == Seq::<OutputPortId>::empty());
    assert(Seq::<PortId>::empty().push(p) =~= seq![p]);
}

proof fn lemma_optional_plain(s: Seq<ValidationStep>)
    requires
        s.len() <= 1,
        s.len() == 1 ==> is_plain_step(s[0]),
    ensures
        step_claims(s) == Seq::<PortId>::empty(),
        step_connections(s) == Seq::<OutputPortId>::empty(),
{
    lemma_plain_steps(s);
}

proof fn lemma_input_steps(meta: InputMetadata)
    ensures
        step_claims(input_steps(meta)) == seq![PortId::Input(meta.id)],
        step_connections(input_steps(meta)) == Seq::<OutputPortId>::empty(),
{
    let p = PortId::Input(meta.id);
    let head = seq![ValidationStep::Declare(p), ValidationStep::Claim(p)];
    let t = match meta.type_id {
        Some(t) => seq![ValidationStep::Type(p, t)],
        None => Seq::empty(),
    };
    let c = match meta.cardinality {
        Some(c) => seq![ValidationStep::Bound(p, c)],
        None => Seq::empty(),
    };
    assert(input_steps(meta) == head + t + c);
    lemma_claim_pair(p);
    lemma_optional_plain(t);
    lemma_optional_plain(c);
    lemma_steps_concat(head, t);
    lemma_steps_concat(head + t, c);
    assert(seq![p] + Seq::<PortId>::empty() =~= seq![p]);
    assert(Seq::<OutputPortId>::empty() + Seq::<OutputPortId>::empty() =~= Seq::<OutputPortId>::empty());
}

proof fn lemma_output_steps(meta: OutputMetadata)
    ensures
        step_claims(output_steps(meta)) == seq![PortId::Output(meta.id)],
        step_connections(output_steps(meta)) == Seq::<OutputPortId>::empty(),
{
    let p = PortId::Output(meta.id);
    let head = seq![ValidationStep::Declare(p), ValidationStep::Claim(p)];
    let t = match meta.type_id {
        Some(t) => seq![ValidationStep::Type(p, t)],
        None => Seq::empty(),
    };
    let c = match meta.cardinality {
        Some(c) => seq![ValidationStep::Bound(p, c)],
        None => Seq::empty(),
    };
    assert(output_steps(meta) == head + t + c);
    lemma_claim_pair(p);
    lemma_optional_plain(t);
    lemma_optional_plain(c);
    lemma_steps_concat(head, t);
    lemma_steps_concat(head + t, c);
    assert(seq![p] + Seq::<PortId>::empty() =~= seq![p]);
    assert(Seq::<OutputPortId>::empty() + Seq::<OutputPortId>::empty() =~= Seq::<OutputPortId>::empty());
}

proof fn lemma_inputs_steps(s: Seq<InputMetadata>)
    ensures
        step_claims(inputs_steps(s)) == s.map_values(|m: InputMetadata| PortId::Input(m.id)),
        step_connections(inputs_steps(s)) == Seq::<OutputPortId>::empty(),
    decreases s.len(),
{
    if s.len() == 0 {
        assert(s.map_values(|m: InputMetadata| PortId::Input(m.id)) =~= Seq::<PortId>::empty());
    } else {
        lemma_inputs_steps(s.drop_last());
        lemma_input_steps(s.last());
        lemma_steps_concat(inputs_steps(s.drop_last()), input_steps(s.last()));
        assert(s.map_values(|m: InputMetadata| PortId::Input(m.id)) =~= s.drop_last().map_values(
            |m: InputMetadata| PortId::Input(m.id),
        ) + seq![PortId::Input(s.last().id)]);
        assert(Seq::<OutputPortId>::empty() + Seq::<OutputPortId>::empty() =~= Seq::<OutputPortId>::empty());
    }
}

proof fn lemma_outputs_steps(s: Seq<OutputMetadata>)
    ensures
        step_claims(outputs_steps(s)) == s.map_values(|m: OutputMetadata| PortId::Output(m.id)),
        step_connections(outputs_steps(s)) == Seq::<OutputPortId>::empty(),
    decreases s.len(),
{
    if s.len() == 0 {
        assert(s.map_values(|m: OutputMetadata| PortId::Output(m.id)) =~= Seq::<PortId>::empty());
    } else {
        lemma_outputs_steps(s.drop_last());
        lemma_output_steps(s.last());
        lemma_steps_concat(outputs_steps(s.drop_last()), output_steps(s.last()));
        assert(s.map_values(|m: OutputMetadata| PortId::Output(m.id)) =~= s.drop_last().map_values(
            |m: OutputMetadata| PortId::Output(m.id),
        ) + seq![PortId::Output(s.last().id)]);
        assert(Seq::<OutputPortId>::empty() + Seq::<OutputPortId>::empty() =~= Seq::<OutputPortId>::empty());
    }
}

proof fn lemma_blocks_steps(s: Seq<BlockHandle>)
    ensures
        step_claims(blocks_steps(s)) == block_ports(s),
        step_connections(blocks_steps(s)) == Seq::<OutputPortId>::empty(),
    decreases s.len(),
{
    if s.len() > 0 {
        let last = s.last();
        lemma_blocks_steps(s.drop_last());
        lemma_inputs_steps(last.inputs@);
        lemma_outputs_steps(last.outputs@);
        lemma_steps_concat(blocks_steps(s.drop_last()), inputs_steps(last.inputs@));
        lemma_steps_concat(blocks_steps(s.drop_last()) + inputs_steps(last.inputs@), outputs_steps(last.outputs@));
        assert(Seq::<OutputPortId>::empty() + Seq::<OutputPortId>::empty() =~= Seq::<OutputPortId>::empty());
    }
}

proof fn lemma_cardinalities_steps(s: Seq<(PortId, Vec<Cardinality>)>)
    ensures
        forall|i: int| 0 <= i < cardinalities_steps(s).len() ==> is_plain_step(#[trigger] cardinalities_steps(s)[i]),
    decreases s.len(),
{
    if s.len() > 0 {
        lemma_cardinalities_steps(s.drop_last());
        let a = cardinalities_steps(s.drop_last());
        let b = cardinality_steps(s.last());
        assert forall|i: int| 0 <= i < (a + b).len() implies is_plain_step(#[trigger] (a + b)[i]) by {
            if i >= a.len() {
                assert((a + b)[i] == b[i - a.len()]);
            } else {
                assert((a + b)[i] == a[i]);
            }
        }
    }
}

/// The claims and connections of validating `def` are the ports its blocks
/// list and the outputs of its connections, in key order.
proof fn lemma_validation_steps(def: SystemDefinition)
    ensures
        step_claims(validation_steps(def)) == block_ports(def.blocks@),
        step_connections(validation_steps(def)) == def.connections.entries_seq().map_values(
            |e: ((OutputPortId, InputPortId), core::any::TypeId)| (e.0).0,
        ),
{
    let a = def.registered_inputs.sorted_items().map_values(
        |id: InputPortId| ValidationStep::Declare(PortId::Input(id)),
    );
    let b = def.registered_outputs.sorted_items().map_values(
        |id: OutputPortId| ValidationStep::Declare(PortId::Output(id)),
    );
    let blocks = blocks_steps(def.blocks@);
    let c = def.inputs.entries_seq().map_values(
        |e: (InputPortId, core::any::TypeId)| ValidationStep::Type(PortId::Input(e.0), e.1),
    );
    let d = def.outputs.entries_seq().map_values(
        |e: (OutputPortId, core::any::TypeId)| ValidationStep::Type(PortId::Output(e.0), e.1),
    );
    let e = cardinalities_steps(def.cardinalities.entries_seq());
    let f = def.connections.entries_seq().map_values(
        |e: ((OutputPortId, InputPortId), core::any::TypeId)| ValidationStep::Connect((e.0).0, (e.0).1, e.1),
    );
    assert(validation_steps(def) == a + b + blocks + c + d + e + f);
    lemma_plain_steps(a);
    lemma_plain_steps(b);
    lemma_plain_steps(c);
    lemma_plain_steps(d);
    lemma_cardinalities_steps(def.cardinalities.entries_seq());
    lemma_plain_steps(e);
    lemma_blocks_steps(def.blocks@);
    lemma_connect_steps(def.connections.entries_seq());
    lemma_steps_concat(a, b);
    lemma_steps_concat(a + b, blocks);
    lemma_steps_concat(a + b + blocks, c);
    lemma_steps_concat(a + b + blocks + c, d);
    lemma_steps_concat(a + b + blocks + c + d, e);
    lemma_steps_concat(a + b + blocks + c + d + e, f);
    let none = Seq::<PortId>::empty();
    assert(none + none + block_ports(def.blocks@) + none + none + none + none =~= block_ports(def.blocks@));
    let nothing = Seq::<OutputPortId>::empty();
    let outs = def.connections.entries_seq().map_values(
        |e: ((OutputPortId, InputPortId), core::any::TypeId)| (e.0).0,
    );
    assert(nothing + nothing + nothing + nothing + nothing + nothing + outs =~= outs);
}

proof fn lemma_connect_steps(s: Seq<((OutputPortId, InputPortId), core::any::TypeId)>)
    ensures
        step_claims(
            s.map_values(
                |e: ((OutputPortId, InputPortId), core::any::TypeId)| ValidationStep::Connect((e.0).0, (e.0).1, e.1),
            ),
        ) == Seq::<PortId>::empty(),
        step_connections(
            s.map_values(
                |e: ((OutputPortId, InputPortId), core::any::TypeId)| ValidationStep::Connect((e.0).0, (e.0).1, e.1),
            ),
        ) == s.map_values(|e: ((OutputPortId, InputPortId), core::any::TypeId)| (e.0).0),
    decreases s.len(),
{
    let f = |e: ((OutputPortId, InputPortId), core::any::TypeId)| ValidationStep::Connect((e.0).0, (e.0).1, e.1);
    let g = |e: ((OutputPortId, InputPortId), core::any::TypeId)| (e.0).0;
    if s.len() == 0 {
        assert(s.map_values(f) =~= Seq::<ValidationStep>::empty());
        assert(s.map_values(g) =~= Seq::<OutputPortId>::empty());
    } else {
        lemma_connect_steps(s.drop_last());
        assert(s.map_values(f).drop_last() =~= s.drop_last().map_values(f));
        assert(s.map_values(g) =~= s.drop_last().map_values(g).push(g(s.last())));
    }
}

/// Running steps that succeed claims no port twice, nor one claimed before,
/// and connects no output twice, nor one connected before.
proof fn lemma_run_steps_claims_once(m: PortsModel, steps: Seq<ValidationStep>)
    requires
        run_steps(m, steps) is Ok,
    ensures
        step_claims(steps).no_duplicates(),
        forall|i: int| 0 <= i < step_claims(steps).len() ==> !m.claimed.contains(#[trigger] step_claims(steps)[i]),
        run_steps(m, steps)->Ok_0.claimed == m.claimed + step_claims(steps).to_set(),
        step_connections(steps).no_duplicates(),
        forall|i: int|
            0 <= i < step_connections(steps).len() ==> !m.connected.contains(#[trigger] step_connections(steps)[i]),
        run_steps(m, steps)->Ok_0.connected == m.connected + step_connections(steps).to_set(),
    decreases steps.len(),
{
    if steps.len() == 0 {
        assert(step_claims(steps).to_set() =~= Set::<PortId>::empty());
        assert(m.claimed + Set::<PortId>::empty() =~= m.claimed);
        assert(step_connections(steps).to_set() =~= Set::<OutputPortId>::empty());
        assert(m.connected + Set::<OutputPortId>::empty() =~= m.connected);
    } else {
        let rest = steps.drop_last();
        lemma_run_steps_claims_once(m, rest);
        let m1 = run_steps(m, rest)->Ok_0;
        let claims = step_claims(rest);
        let conns = step_connections(rest);
        match steps.last() {
            ValidationStep::Claim(p) => {
                claims.lemma_push_to_set_commute(p);
                assert(!m1.claimed.contains(p));
                assert(!claims.contains(p)) by {
                    if claims.contains(p) {
                        assert(claims.to_set().contains(p));
                    }
                }
                assert forall|i: int, j: int|
                    0 <= i < j < claims.push(p).len() implies claims.push(p)[i] != claims.push(p)[j] by {
                    if j == claims.len() {
                        assert(claims.push(p)[i] == claims[i]);
                    } else {
                        assert(claims[i] != claims[j]);
                    }
                }
                assert(m1.claimed.insert(p) =~= m.claimed + claims.push(p).to_set());
            },
            ValidationStep::Connect(o, i, t) => {
                conns.lemma_push_to_set_commute(o);
                assert(!m1.connected.contains(o));
                assert(!conns.contains(o)) by {
                    if conns.contains(o) {
                        assert(conns.to_set().contains(o));
                    }
                }
                assert forall|x: int, y: int|
                    0 <= x < y < conns.push(o).len() implies conns.push(o)[x] != conns.push(o)[y] by {
                    if y == conns.len() {
                        assert(conns.push(o)[x] == conns[x]);
                    } else {
                        assert(conns[x] != conns[y]);
                    }
                }
                assert(m1.connected.insert(o) =~= m.connected + conns.push(o).to_set());
            },
            _ => {},
        }
    }
}

/// A definition that validates lists every block port once: no port is
/// listed twice by one block or by two blocks.
pub proof fn lemma_validated_block_ports_distinct(def: SystemDefinition)
    requires
        validation_outcome(def) is Ok,
    ensures
        block_ports(def.blocks@).no_duplicates(),
{
    lemma_validation_steps(def);
    lemma_run_steps_claims_once(empty_model(), validation_steps(def));
}

/// A definition that validates connects each output at most once.
pub proof fn lemma_validated_outputs_connected_once(def: SystemDefinition)
    requires
        validation_outcome(def) is Ok,
    ensures
        forall|o: OutputPortId, i1: InputPortId, i2: InputPortId|
            #[trigger] def.connections@.contains_key((o, i1)) && #[trigger] def.connections@.contains_key((o, i2))
                ==> i1 == i2,
{
    lemma_validation_steps(def);
    lemma_run_steps_claims_once(empty_model(), validation_steps(def));
    let s = def.connections.entries_seq();
    let outs = s.map_values(|e: ((OutputPortId, InputPortId), core::any::TypeId)| (e.0).0);
    assert forall|o: OutputPortId, i1: InputPortId, i2: InputPortId|
        #[trigger] def.connections@.contains_key((o, i1)) && #[trigger] def.connections@.contains_key((o, i2))
            implies i1 == i2 by {
        let j1 = choose|j: int| 0 <= j < s.len() && s[j].0 == (o, i1);
        let j2 = choose|j: int| 0 <= j < s.len() && s[j].0 == (o, i2);
        assert(outs[j1] == o);
        assert(outs[j2] == o);
        if j1 != j2 {
            if j1 < j2 {
                assert(outs[j1] != outs[j2]);
            } else {
                assert(outs[j2] != outs[j1]);
            }
        }
    }
}

} // verus!
