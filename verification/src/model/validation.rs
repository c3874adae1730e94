use vstd::prelude::*;
use core::any::TypeId;
use crate::io::{valid_bounds, Cardinality};
use super::port_id::{InputPortId, OutputPortId, PortId};
use super::port_id_map::{lemma_entries_map_at, sorted_entries, PortIdMap};
use super::port_id_set::PortIdSet;
use super::port_key::{key_lt, PortKey};
use super::system_definition::{BlockHandle, InputMetadata, OutputMetadata, SystemDefinition};
use super::system_validation_error::SystemValidationError;
use super::type_id::same_type;

verus! {

broadcast use {Cardinality::lemma_from_bounds_view, Cardinality::lemma_view_injective};

/// One declaration or constraint that validation checks, in order.
#[derive(Clone, Copy, Debug)]
pub enum ValidationStep {
    /// A port exists (explicit registration or block listing).
    Declare(PortId),
    /// A block lists the port; no port may be listed twice.
    Claim(PortId),
    /// The port carries messages of this type.
    Type(PortId, TypeId),
    /// The port's message count lies in these bounds.
    Bound(PortId, Cardinality),
    /// The output is connected to the input with this message type.
    Connect(OutputPortId, InputPortId, TypeId),
}

/// The knowledge accumulated while validating: declared ports and their types,
/// effective cardinalities, block-claimed ports, connected outputs, and the
/// cardinalities of each input's producers.
#[verifier::ext_equal]
pub ghost struct PortsModel {
    pub inputs: Map<InputPortId, Option<TypeId>>,
    pub outputs: Map<OutputPortId, Option<TypeId>>,
    pub cards: Map<PortId, Cardinality>,
    pub claimed: Set<PortId>,
    pub connected: Set<OutputPortId>,
    pub producers: Map<InputPortId, Seq<Cardinality>>,
}

/// Nothing is known yet.
pub open spec fn empty_model() -> PortsModel {
    PortsModel {
        inputs: Map::empty(),
        outputs: Map::empty(),
        cards: Map::empty(),
        claimed: Set::empty(),
        connected: Set::empty(),
        producers: Map::empty(),
    }
}

/// The constraint that imposes nothing.
pub open spec fn unlimited_cardinality() -> Cardinality {
    Cardinality::from_bounds((0usize, None::<usize>))
}

pub open spec fn is_declared(m: PortsModel, p: PortId) -> bool {
    match p {
        PortId::Input(id) => m.inputs.contains_key(id),
        PortId::Output(id) => m.outputs.contains_key(id),
    }
}

pub open spec fn known_type(m: PortsModel, p: PortId) -> Option<TypeId> {
    match p {
        PortId::Input(id) => m.inputs[id],
        PortId::Output(id) => m.outputs[id],
    }
}

pub open spec fn declare(m: PortsModel, p: PortId) -> PortsModel {
    match p {
        PortId::Input(id) => if m.inputs.contains_key(id) {
            m
        } else {
            PortsModel { inputs: m.inputs.insert(id, None), ..m }
        },
        PortId::Output(id) => if m.outputs.contains_key(id) {
            m
        } else {
            PortsModel { outputs: m.outputs.insert(id, None), ..m }
        },
    }
}

pub open spec fn set_type(m: PortsModel, p: PortId, t: TypeId) -> PortsModel {
    match p {
        PortId::Input(id) => PortsModel { inputs: m.inputs.insert(id, Some(t)), ..m },
        PortId::Output(id) => PortsModel { outputs: m.outputs.insert(id, Some(t)), ..m },
    }
}

/// The effective cardinality of a port: unconstrained until constrained.
pub open spec fn card_of(m: PortsModel, p: PortId) -> Cardinality {
    if m.cards.contains_key(p) {
        m.cards[p]
    } else {
        unlimited_cardinality()
    }
}

/// Records that port `p` carries type `t`.
pub open spec fn constrain_type(m: PortsModel, p: PortId, t: TypeId) -> Result<
    PortsModel,
    SystemValidationError,
> {
    if !p.is_valid() {
        Err(SystemValidationError::InvalidPortId(p))
    } else if !is_declared(m, p) {
        Err(SystemValidationError::UnregisteredPort(p))
    } else {
        match known_type(m, p) {
            Some(expected) => if expected != t {
                Err(SystemValidationError::TypeMismatch { port: p, expected, actual: t })
            } else {
                Ok(set_type(m, p, t))
            },
            None => Ok(set_type(m, p, t)),
        }
    }
}

/// Narrows the effective cardinality of port `p` by `c`.
pub open spec fn constrain_bound(m: PortsModel, p: PortId, c: Cardinality) -> Result<
    PortsModel,
    SystemValidationError,
> {
    if !p.is_valid() {
        Err(SystemValidationError::InvalidPortId(p))
    } else if !is_declared(m, p) {
        Err(SystemValidationError::UnregisteredPort(p))
    } else {
        match card_of(m, p).meet(c) {
            Some(effective) => Ok(PortsModel { cards: m.cards.insert(p, effective), ..m }),
            None => Err(
                SystemValidationError::IncompatibleCardinality {
                    port: p,
                    first: card_of(m, p),
                    second: c,
                },
            ),
        }
    }
}

/// Appends a producer range to an input's producers.
pub open spec fn add_producer(m: PortsModel, input: InputPortId, c: Cardinality) -> PortsModel {
    let ranges = if m.producers.contains_key(input) {
        m.producers[input]
    } else {
        Seq::empty()
    };
    PortsModel { producers: m.producers.insert(input, ranges.push(c)), ..m }
}

/// The effect of one validation step.
pub open spec fn apply_step(m: PortsModel, s: ValidationStep) -> Result<
    PortsModel,
    SystemValidationError,
> {
    match s {
        ValidationStep::Declare(p) => if !p.is_valid() {
            Err(SystemValidationError::InvalidPortId(p))
        } else {
            Ok(declare(m, p))
        },
        ValidationStep::Claim(p) => if m.claimed.contains(p) {
            Err(SystemValidationError::DuplicatePort(p))
        } else {
            Ok(PortsModel { claimed: m.claimed.insert(p), ..m })
        },
        ValidationStep::Type(p, t) => constrain_type(m, p, t),
        ValidationStep::Bound(p, c) => constrain_bound(m, p, c),
        ValidationStep::Connect(output, input, t) => match constrain_type(
            m,
            PortId::Output(output),
            t,
        ) {
            Err(e) => Err(e),
            Ok(m1) => match constrain_type(m1, PortId::Input(input), t) {
                Err(e) => Err(e),
                Ok(m2) => if m2.connected.contains(output) {
                    Err(SystemValidationError::AlreadyConnectedOutput(output))
                } else {
                    let m3 = PortsModel { connected: m2.connected.insert(output), ..m2 };
                    Ok(add_producer(m3, input, card_of(m2, PortId::Output(output))))
                },
            },
        },
    }
}

/// The effect of a sequence of steps; the first failing step's error is reported.
pub open spec fn run_steps(m: PortsModel, steps: Seq<ValidationStep>) -> Result<
    PortsModel,
    SystemValidationError,
>
    decreases steps.len(),
{
    if steps.len() == 0 {
        Ok(m)
    } else {
        match run_steps(m, steps.drop_last()) {
            Ok(m1) => apply_step(m1, steps.last()),
            Err(e) => Err(e),
        }
    }
}

/// Once a prefix of the steps fails, the whole sequence fails with the same error.
pub proof fn lemma_run_steps_failed_prefix(m: PortsModel, steps: Seq<ValidationStep>, k: int)
    requires
        0 <= k <= steps.len(),
        run_steps(m, steps.take(k)) is Err,
    ensures
        run_steps(m, steps) == run_steps(m, steps.take(k)),
    decreases steps.len() - k,
{
    if k < steps.len() {
        assert(steps.take(k + 1).drop_last() =~= steps.take(k));
        lemma_run_steps_failed_prefix(m, steps, k + 1);
    } else {
        assert(steps.take(k) =~= steps);
    }
}

/// The steps for one input that a block lists.
pub open spec fn input_steps(meta: InputMetadata) -> Seq<ValidationStep> {
    let p = PortId::Input(meta.id);
    seq![ValidationStep::Declare(p), ValidationStep::Claim(p)] + match meta.type_id {
        Some(t) => seq![ValidationStep::Type(p, t)],
        None => Seq::empty(),
    } + match meta.cardinality {
        Some(c) => seq![ValidationStep::Bound(p, c)],
        None => Seq::empty(),
    }
}

/// The steps for one output that a block lists.
pub open spec fn output_steps(meta: OutputMetadata) -> Seq<ValidationStep> {
    let p = PortId::Output(meta.id);
    seq![ValidationStep::Declare(p), ValidationStep::Claim(p)] + match meta.type_id {
        Some(t) => seq![ValidationStep::Type(p, t)],
        None => Seq::empty(),
    } + match meta.cardinality {
        Some(c) => seq![ValidationStep::Bound(p, c)],
        None => Seq::empty(),
    }
}

pub open spec fn inputs_steps(s: Seq<InputMetadata>) -> Seq<ValidationStep>
    decreases s.len(),
{
    if s.len() == 0 {
        Seq::empty()
    } else {
        inputs_steps(s.drop_last()) + input_steps(s.last())
    }
}

pub open spec fn outputs_steps(s: Seq<OutputMetadata>) -> Seq<ValidationStep>
    decreases s.len(),
{
    if s.len() == 0 {
        Seq::empty()
    } else {
        outputs_steps(s.drop_last()) + output_steps(s.last())
    }
}

/// The steps for the blocks: each block's inputs, then its outputs, block by block.
pub open spec fn blocks_steps(s: Seq<BlockHandle>) -> Seq<ValidationStep>
    decreases s.len(),
{
    if s.len() == 0 {
        Seq::empty()
    } else {
        blocks_steps(s.drop_last()) + inputs_steps(s.last().inputs@) + outputs_steps(
            s.last().outputs@,
        )
    }
}

/// The steps for one port's recorded cardinality declarations.
pub open spec fn cardinality_steps(e: (PortId, Vec<Cardinality>)) -> Seq<ValidationStep> {
    seq![ValidationStep::Bound(e.0, unlimited_cardinality())] + e.1@.map_values(
        |c: Cardinality| ValidationStep::Bound(e.0, c),
    )
}

pub open spec fn cardinalities_steps(s: Seq<(PortId, Vec<Cardinality>)>) -> Seq<ValidationStep>
    decreases s.len(),
{
    if s.len() == 0 {
        Seq::empty()
    } else {
        cardinalities_steps(s.drop_last()) + cardinality_steps(s.last())
    }
}

/// Every step of validating a definition, in order: registered inputs, then
/// registered outputs (both in increasing ID order); block metadata in block
/// order; exported inputs, then exported outputs; recorded cardinalities; and
/// connections (all in increasing key order).
pub open spec fn validation_steps(def: SystemDefinition) -> Seq<ValidationStep> {
    def.registered_inputs.sorted_items().map_values(
        |id: InputPortId| ValidationStep::Declare(PortId::Input(id)),
    ) + def.registered_outputs.sorted_items().map_values(
        |id: OutputPortId| ValidationStep::Declare(PortId::Output(id)),
    ) + blocks_steps(def.blocks@) + def.inputs.entries_seq().map_values(
        |e: (InputPortId, TypeId)| ValidationStep::Type(PortId::Input(e.0), e.1),
    ) + def.outputs.entries_seq().map_values(
        |e: (OutputPortId, TypeId)| ValidationStep::Type(PortId::Output(e.0), e.1),
    ) + cardinalities_steps(def.cardinalities.entries_seq()) + def.connections.entries_seq().map_values(
        |e: ((OutputPortId, InputPortId), TypeId)| ValidationStep::Connect((e.0).0, (e.0).1, e.1),
    )
}

/// The sum of the minimums of the ranges.
pub open spec fn sum_mins(s: Seq<Cardinality>) -> int
    decreases s.len(),
{
    if s.len() == 0 {
        0
    } else {
        sum_mins(s.drop_last()) + s.last()@.0
    }
}

/// The sum of the finite maximums of the ranges.
pub open spec fn sum_maxes(s: Seq<Cardinality>) -> int
    decreases s.len(),
{
    if s.len() == 0 {
        0
    } else {
        sum_maxes(s.drop_last()) + match s.last()@.1 {
            Some(max) => max as int,
            None => 0,
        }
    }
}

/// Some range has no finite maximum.
pub open spec fn has_unbounded(s: Seq<Cardinality>) -> bool {
    exists|k: int| 0 <= k < s.len() && (#[trigger] s[k])@.1 is None
}

/// The range of the total count of several producers, or `None` when a bound
/// cannot be represented as `usize`. One unlimited producer makes the total unlimited.
pub open spec fn producer_bounds(s: Seq<Cardinality>) -> Option<(usize, Option<usize>)> {
    if sum_mins(s) > usize::MAX {
        None
    } else if has_unbounded(s) {
        Some((sum_mins(s) as usize, None))
    } else if sum_maxes(s) > usize::MAX {
        None
    } else {
        Some((sum_mins(s) as usize, Some(sum_maxes(s) as usize)))
    }
}

/// The effective cardinality of a connected input: its producers' total range
/// intersected with its own constraint.
pub open spec fn producer_result(m: PortsModel, input: InputPortId) -> Result<
    Cardinality,
    SystemValidationError,
> {
    match producer_bounds(m.producers[input]) {
        None => Err(SystemValidationError::CardinalityOverflow(input)),
        Some(b) => {
            let producers = Cardinality::from_bounds(b);
            let consumer = card_of(m, PortId::Input(input));
            match producers.meet(consumer) {
                Some(c) => Ok(c),
                None => Err(
                    SystemValidationError::IncompatibleCardinality {
                        port: PortId::Input(input),
                        first: producers,
                        second: consumer,
                    },
                ),
            }
        },
    }
}

/// A connected input whose producers cannot be reconciled with it.
pub open spec fn producer_fails(m: PortsModel, input: InputPortId) -> bool {
    m.producers.contains_key(input) && producer_result(m, input) is Err
}

/// The failing connected input with the smallest ID.
pub open spec fn first_failure(m: PortsModel) -> InputPortId {
    choose|i: InputPortId|
        producer_fails(m, i) && forall|j: InputPortId| #[trigger]
            producer_fails(m, j) ==> !key_lt(j.key_of(), i.key_of())
}

/// The effective cardinality of every connected input.
pub open spec fn connection_cardinalities(m: PortsModel) -> Map<InputPortId, Cardinality> {
    Map::new(|i: InputPortId| m.producers.contains_key(i), |i: InputPortId| producer_result(m, i)->Ok_0)
}

/// The outcome of validating a definition: the knowledge after all steps, or
/// the first error, where producer checks follow all steps in input-ID order.
pub open spec fn validation_outcome(def: SystemDefinition) -> Result<PortsModel, SystemValidationError> {
    match run_steps(empty_model(), validation_steps(def)) {
        Err(e) => Err(e),
        Ok(m) => if exists|i: InputPortId| producer_fails(m, i) {
            Err(producer_result(m, first_failure(m))->Err_0)
        } else {
            Ok(m)
        },
    }
}

proof fn lemma_apply_step_keeps_ports(m: PortsModel, s: ValidationStep)
    requires
        apply_step(m, s) is Ok,
    ensures
        m.inputs.dom().subset_of(apply_step(m, s)->Ok_0.inputs.dom()),
        m.outputs.dom().subset_of(apply_step(m, s)->Ok_0.outputs.dom()),
        m.producers.dom().subset_of(apply_step(m, s)->Ok_0.producers.dom()),
        s matches ValidationStep::Connect(o, i, t) ==> apply_step(m, s)->Ok_0.inputs.contains_key(i)
            && apply_step(m, s)->Ok_0.outputs.contains_key(o) && apply_step(m, s)->Ok_0.producers.contains_key(i),
{
}

proof fn lemma_run_steps_keeps_ports(m: PortsModel, steps: Seq<ValidationStep>, k: int)
    requires
        0 <= k <= steps.len(),
        run_steps(m, steps) is Ok,
    ensures
        run_steps(m, steps.take(k)) is Ok,
        run_steps(m, steps.take(k))->Ok_0.inputs.dom().subset_of(run_steps(m, steps)->Ok_0.inputs.dom()),
        run_steps(m, steps.take(k))->Ok_0.outputs.dom().subset_of(
            run_steps(m, steps)->Ok_0.outputs.dom(),
        ),
        run_steps(m, steps.take(k))->Ok_0.producers.dom().subset_of(
            run_steps(m, steps)->Ok_0.producers.dom(),
        ),
    decreases steps.len() - k,
{
    if k < steps.len() {
        lemma_run_steps_keeps_ports(m, steps, k + 1);
        let t = steps.take(k + 1);
        assert(t.drop_last() =~= steps.take(k));
        lemma_apply_step_keeps_ports(run_steps(m, steps.take(k))->Ok_0, t.last());
    } else {
        assert(steps.take(k) =~= steps);
    }
}

/// In a valid definition, both ends of every connection are declared ports.
pub proof fn lemma_connections_declared(def: SystemDefinition)
    requires
        validation_outcome(def) is Ok,
    ensures
        forall|o: OutputPortId, i: InputPortId| #[trigger]
            def.connections@.contains_key((o, i)) ==> validation_outcome(def)->Ok_0.inputs.contains_key(i)
                && validation_outcome(def)->Ok_0.outputs.contains_key(o)
                && validation_outcome(def)->Ok_0.producers.contains_key(i),
{
    let steps = validation_steps(def);
    let conns = def.connections.entries_seq();
    let tail = conns.map_values(
        |e: ((OutputPortId, InputPortId), TypeId)| ValidationStep::Connect((e.0).0, (e.0).1, e.1),
    );
    let pre = def.registered_inputs.sorted_items().map_values(
        |id: InputPortId| ValidationStep::Declare(PortId::Input(id)),
    ) + def.registered_outputs.sorted_items().map_values(
        |id: OutputPortId| ValidationStep::Declare(PortId::Output(id)),
    ) + blocks_steps(def.blocks@) + def.inputs.entries_seq().map_values(
        |e: (InputPortId, TypeId)| ValidationStep::Type(PortId::Input(e.0), e.1),
    ) + def.outputs.entries_seq().map_values(
        |e: (OutputPortId, TypeId)| ValidationStep::Type(PortId::Output(e.0), e.1),
    ) + cardinalities_steps(def.cardinalities.entries_seq());
    assert(steps == pre + tail);
    assert forall|o: OutputPortId, i: InputPortId| #[trigger]
        def.connections@.contains_key((o, i)) implies validation_outcome(def)->Ok_0.inputs.contains_key(i)
            && validation_outcome(def)->Ok_0.outputs.contains_key(o)
            && validation_outcome(def)->Ok_0.producers.contains_key(i) by {
        let j = choose|j: int| 0 <= j < conns.len() && conns[j].0 == (o, i);
        let big_j = pre.len() + j;
        assert(steps[big_j] == tail[j]);
        assert(steps[big_j] == ValidationStep::Connect(o, i, conns[j].1));
        lemma_run_steps_keeps_ports(empty_model(), steps, big_j + 1);
        let t = steps.take(big_j + 1);
        assert(t.drop_last() =~= steps.take(big_j));
        assert(t.last() == steps[big_j]);
        lemma_run_steps_keeps_ports(empty_model(), steps, big_j);
        lemma_apply_step_keeps_ports(run_steps(empty_model(), steps.take(big_j))->Ok_0, t.last());
    }
}

/// When every range is well formed and bounded, the minimums do not exceed the maximums.
pub proof fn lemma_sum_mins_le_maxes(s: Seq<Cardinality>)
    requires
        forall|k: int| 0 <= k < s.len() ==> valid_bounds((#[trigger] s[k])@),
        !has_unbounded(s),
    ensures
        sum_mins(s) <= sum_maxes(s),
        sum_mins(s) >= 0,
    decreases s.len(),
{
    if s.len() > 0 {
        let t = s.drop_last();
        assert forall|k: int| 0 <= k < t.len() implies valid_bounds((#[trigger] t[k])@) by {
            assert(t[k] == s[k]);
        }
        assert(!has_unbounded(t)) by {
            if has_unbounded(t) {
                let k = choose|k: int| 0 <= k < t.len() && (#[trigger] t[k])@.1 is None;
                assert(s[k] == t[k]);
            }
        }
        lemma_sum_mins_le_maxes(t);
        assert(valid_bounds(s[s.len() - 1]@));
        assert(s[s.len() - 1]@.1 is Some);
    }
}

/// Executable state of validation; its view is a [`PortsModel`].
pub struct ValidationState {
    pub inputs: PortIdMap<InputPortId, Option<TypeId>>,
    pub outputs: PortIdMap<OutputPortId, Option<TypeId>>,
    pub cardinalities: PortIdMap<PortId, Cardinality>,
    pub claimed: PortIdSet<PortId>,
    pub connected: PortIdSet<OutputPortId>,
    pub producers: PortIdMap<InputPortId, Vec<Cardinality>>,
}

impl ValidationState {
    pub open spec fn model(self) -> PortsModel {
        PortsModel {
            inputs: self.inputs@,
            outputs: self.outputs@,
            cards: self.cardinalities@,
            claimed: self.claimed@,
            connected: self.connected@,
            producers: self.producers@.map_values(|v: Vec<Cardinality>| v@),
        }
    }

    pub fn new() -> (r: Self)
        ensures
            r.model() == empty_model(),
    {
        let r = Self {
            inputs: PortIdMap::new(),
            outputs: PortIdMap::new(),
            cardinalities: PortIdMap::new(),
            claimed: PortIdSet::new(),
            connected: PortIdSet::new(),
            producers: PortIdMap::new(),
        };
        assert(r.model() =~= empty_model());
        r
    }

    fn card_of(&self, p: PortId) -> (r: Cardinality)
        ensures
            r == card_of(self.model(), p),
    {
        match self.cardinalities.get(&p) {
            Some(c) => *c,
            None => {
                let u = Cardinality::unlimited();
                proof {
                    Cardinality::lemma_from_bounds_view((0usize, None::<usize>));
                    Cardinality::lemma_view_injective(u, unlimited_cardinality());
                }
                u
            },
        }
    }

    fn declare(&mut self, p: PortId) -> (r: Result<(), SystemValidationError>)
        ensures
            apply_step(old(self).model(), ValidationStep::Declare(p)) matches Ok(m) ==> r is Ok
                && final(self).model() == m,
            apply_step(old(self).model(), ValidationStep::Declare(p)) matches Err(e) ==> r
                == Err::<(), SystemValidationError>(e),
    {
        if !check_id(p) {
            return Err(SystemValidationError::InvalidPortId(p));
        }
        match p {
            PortId::Input(id) => {
                if !self.inputs.contains(id) {
                    self.inputs.insert(id, None);
                }
            },
            PortId::Output(id) => {
                if !self.outputs.contains(id) {
                    self.outputs.insert(id, None);
                }
            },
        }
        assert(self.model() =~= declare(old(self).model(), p));
        Ok(())
    }

    fn claim(&mut self, p: PortId) -> (r: Result<(), SystemValidationError>)
        ensures
            apply_step(old(self).model(), ValidationStep::Claim(p)) matches Ok(m) ==> r is Ok
                && final(self).model() == m,
            apply_step(old(self).model(), ValidationStep::Claim(p)) matches Err(e) ==> r
                == Err::<(), SystemValidationError>(e),
    {
        if !self.claimed.insert(p) {
            return Err(SystemValidationError::DuplicatePort(p));
        }
        assert(self.model() =~= PortsModel { claimed: old(self).model().claimed.insert(p), ..old(self).model() });
        Ok(())
    }

    fn constrain(&mut self, p: PortId, actual: TypeId) -> (r: Result<(), SystemValidationError>)
        ensures
            constrain_type(old(self).model(), p, actual) matches Ok(m) ==> r is Ok
                && final(self).model() == m,
            constrain_type(old(self).model(), p, actual) matches Err(e) ==> r
                == Err::<(), SystemValidationError>(e),
    {
        if !check_id(p) {
            return Err(SystemValidationError::InvalidPortId(p));
        }
        let known: Option<TypeId> = match p {
            PortId::Input(id) => match self.inputs.get(&id) {
                Some(t) => *t,
                None => return Err(SystemValidationError::UnregisteredPort(p)),
            },
            PortId::Output(id) => match self.outputs.get(&id) {
                Some(t) => *t,
                None => return Err(SystemValidationError::UnregisteredPort(p)),
            },
        };
        if let Some(expected) = known {
            if !same_type(&expected, &actual) {
                return Err(SystemValidationError::TypeMismatch { port: p, expected, actual });
            }
        }
        match p {
            PortId::Input(id) => {
                self.inputs.insert(id, Some(actual));
            },
            PortId::Output(id) => {
                self.outputs.insert(id, Some(actual));
            },
        }
        assert(self.model() =~= set_type(old(self).model(), p, actual));
        Ok(())
    }

    fn constrain_cardinality(&mut self, p: PortId, constraint: Cardinality) -> (r: Result<
        (),
        SystemValidationError,
    >)
        ensures
            constrain_bound(old(self).model(), p, constraint) matches Ok(m) ==> r is Ok
                && final(self).model() == m,
            constrain_bound(old(self).model(), p, constraint) matches Err(e) ==> r
                == Err::<(), SystemValidationError>(e),
    {
        if !check_id(p) {
            return Err(SystemValidationError::InvalidPortId(p));
        }
        let declared = match p {
            PortId::Input(id) => self.inputs.contains(id),
            PortId::Output(id) => self.outputs.contains(id),
        };
        if !declared {
            return Err(SystemValidationError::UnregisteredPort(p));
        }
        let first = self.card_of(p);
        match first.intersection(constraint) {
            Some(effective) => {
                self.cardinalities.insert(p, effective);
                assert(self.model() =~= PortsModel {
                    cards: old(self).model().cards.insert(p, effective),
                    ..old(self).model()
                });
                Ok(())
            },
            None => Err(
                SystemValidationError::IncompatibleCardinality { port: p, first, second: constraint },
            ),
        }
    }

    fn connect(&mut self, output: OutputPortId, input: InputPortId, t: TypeId) -> (r: Result<
        (),
        SystemValidationError,
    >)
        ensures
            apply_step(old(self).model(), ValidationStep::Connect(output, input, t)) matches Ok(m)
                ==> r is Ok && final(self).model() == m,
            apply_step(old(self).model(), ValidationStep::Connect(output, input, t)) matches Err(e)
                ==> r == Err::<(), SystemValidationError>(e),
    {
        self.constrain(PortId::Output(output), t)?;
        self.constrain(PortId::Input(input), t)?;
        let ghost m2 = self.model();
        if !self.connected.insert(output) {
            return Err(SystemValidationError::AlreadyConnectedOutput(output));
        }
        let produced = self.card_of(PortId::Output(output));
        let mut ranges: Vec<Cardinality> = match self.producers.get(&input) {
            Some(existing) => copy_cardinalities(existing),
            None => Vec::new(),
        };
        ranges.push(produced);
        self.producers.insert(input, ranges);
        proof {
            let m3 = PortsModel { connected: m2.connected.insert(output), ..m2 };
            assert(self.model() =~= add_producer(m3, input, card_of(m2, PortId::Output(output))));
        }
        Ok(())
    }

    fn apply(&mut self, step: &ValidationStep) -> (r: Result<(), SystemValidationError>)
        ensures
            apply_step(old(self).model(), *step) matches Ok(m) ==> r is Ok && final(self).model()
                == m,
            apply_step(old(self).model(), *step) matches Err(e) ==> r == Err::<
                (),
                SystemValidationError,
            >(e),
    {
        match step {
            ValidationStep::Declare(p) => self.declare(*p),
            ValidationStep::Claim(p) => self.claim(*p),
            ValidationStep::Type(p, t) => self.constrain(*p, *t),
            ValidationStep::Bound(p, c) => self.constrain_cardinality(*p, *c),
            ValidationStep::Connect(o, i, t) => self.connect(*o, *i, *t),
        }
    }
}

fn push_input_steps(steps: &mut Vec<ValidationStep>, meta: &InputMetadata)
    ensures
        final(steps)@ == old(steps)@ + input_steps(*meta),
{
    let p = PortId::Input(meta.id);
    steps.push(ValidationStep::Declare(p));
    steps.push(ValidationStep::Claim(p));
    if let Some(t) = meta.type_id {
        steps.push(ValidationStep::Type(p, t));
    }
    if let Some(c) = meta.cardinality {
        steps.push(ValidationStep::Bound(p, c));
    }
    assert(steps@ =~= old(steps)@ + input_steps(*meta));
}

fn push_output_steps(steps: &mut Vec<ValidationStep>, meta: &OutputMetadata)
    ensures
        final(steps)@ == old(steps)@ + output_steps(*meta),
{
    let p = PortId::Output(meta.id);
    steps.push(ValidationStep::Declare(p));
    steps.push(ValidationStep::Claim(p));
    if let Some(t) = meta.type_id {
        steps.push(ValidationStep::Type(p, t));
    }
    if let Some(c) = meta.cardinality {
        steps.push(ValidationStep::Bound(p, c));
    }
    assert(steps@ =~= old(steps)@ + output_steps(*meta));
}

fn push_block_steps(steps: &mut Vec<ValidationStep>, block: &BlockHandle)
    ensures
        final(steps)@ == old(steps)@ + inputs_steps(block.inputs@) + outputs_steps(block.outputs@),
{
    let ghost base = steps@;
    let mut i: usize = 0;
    while i < block.inputs.len()
        invariant
            i <= block.inputs@.len(),
            steps@ == base + inputs_steps(block.inputs@.take(i as int)),
        decreases block.inputs@.len() - i,
    {
        push_input_steps(steps, &block.inputs[i]);
        proof {
            assert(block.inputs@.take(i + 1).drop_last() =~= block.inputs@.take(i as int));
            assert(steps@ =~= base + inputs_steps(block.inputs@.take(i + 1)));
        }
        i = i + 1;
    }
    assert(block.inputs@.take(i as int) =~= block.inputs@);
    let ghost middle = steps@;
    let mut j: usize = 0;
    while j < block.outputs.len()
        invariant
            j <= block.outputs@.len(),
            steps@ == middle + outputs_steps(block.outputs@.take(j as int)),
        decreases block.outputs@.len() - j,
    {
        push_output_steps(steps, &block.outputs[j]);
        proof {
            assert(block.outputs@.take(j + 1).drop_last() =~= block.outputs@.take(j as int));
            assert(steps@ =~= middle + outputs_steps(block.outputs@.take(j + 1)));
        }
        j = j + 1;
    }
    assert(block.outputs@.take(j as int) =~= block.outputs@);
    assert(steps@ =~= base + inputs_steps(block.inputs@) + outputs_steps(block.outputs@));
}

fn push_cardinality_steps(steps: &mut Vec<ValidationStep>, port: PortId, constraints: &Vec<Cardinality>)
    ensures
        final(steps)@ == old(steps)@ + cardinality_steps((port, *constraints)),
{
    let ghost base = steps@;
    let unlimited = Cardinality::unlimited();
    proof {
        Cardinality::lemma_from_bounds_view((0usize, None::<usize>));
        Cardinality::lemma_view_injective(unlimited, unlimited_cardinality());
    }
    steps.push(ValidationStep::Bound(port, unlimited));
    let mut i: usize = 0;
    while i < constraints.len()
        invariant
            i <= constraints@.len(),
            steps@ == base + seq![ValidationStep::Bound(port, unlimited_cardinality())]
                + constraints@.take(i as int).map_values(
                |c: Cardinality| ValidationStep::Bound(port, c),
            ),
        decreases constraints@.len() - i,
    {
        steps.push(ValidationStep::Bound(port, constraints[i]));
        i = i + 1;
        assert(steps@ =~= base + seq![ValidationStep::Bound(port, unlimited_cardinality())]
            + constraints@.take(i as int).map_values(
            |c: Cardinality| ValidationStep::Bound(port, c),
        ));
    }
    assert(constraints@.take(i as int) =~= constraints@);
    assert(steps@ =~= base + cardinality_steps((port, *constraints)));
}

/// Lists every step of validating `def`, in order.
pub fn validation_plan(def: &SystemDefinition) -> (r: Vec<ValidationStep>)
    ensures
        r@ == validation_steps(*def),
{
    let mut steps: Vec<ValidationStep> = Vec::new();

    let ins = def.registered_inputs.iter();
    let mut i: usize = 0;
    while i < ins.len()
        invariant
            i <= ins@.len(),
            ins@.len() == def.registered_inputs.sorted_items().len(),
            forall|j: int| 0 <= j < ins@.len() ==> *ins@[j] == def.registered_inputs.sorted_items()[j],
            steps@ == def.registered_inputs.sorted_items().take(i as int).map_values(
                |id: InputPortId| ValidationStep::Declare(PortId::Input(id)),
            ),
        decreases ins@.len() - i,
    {
        steps.push(ValidationStep::Declare(PortId::Input(*ins[i])));
        i = i + 1;
        assert(steps@ =~= def.registered_inputs.sorted_items().take(i as int).map_values(
            |id: InputPortId| ValidationStep::Declare(PortId::Input(id)),
        ));
    }
    assert(def.registered_inputs.sorted_items().take(i as int) =~= def.registered_inputs.sorted_items());
    let ghost part1 = steps@;

    let outs = def.registered_outputs.iter();
    let mut i: usize = 0;
    while i < outs.len()
        invariant
            i <= outs@.len(),
            outs@.len() == def.registered_outputs.sorted_items().len(),
            forall|j: int| 0 <= j < outs@.len() ==> *outs@[j] == def.registered_outputs.sorted_items()[j],
            steps@ == part1 + def.registered_outputs.sorted_items().take(i as int).map_values(
                |id: OutputPortId| ValidationStep::Declare(PortId::Output(id)),
            ),
        decreases outs@.len() - i,
    {
        steps.push(ValidationStep::Declare(PortId::Output(*outs[i])));
        i = i + 1;
        assert(steps@ =~= part1 + def.registered_outputs.sorted_items().take(i as int).map_values(
            |id: OutputPortId| ValidationStep::Declare(PortId::Output(id)),
        ));
    }
    assert(def.registered_outputs.sorted_items().take(i as int) =~= def.registered_outputs.sorted_items());
    let ghost part2 = steps@;

    let mut b: usize = 0;
    while b < def.blocks.len()
        invariant
            b <= def.blocks@.len(),
            steps@ == part2 + blocks_steps(def.blocks@.take(b as int)),
        decreases def.blocks@.len() - b,
    {
        push_block_steps(&mut steps, &def.blocks[b]);
        proof {
            assert(def.blocks@.take(b + 1).drop_last() =~= def.blocks@.take(b as int));
            assert(steps@ =~= part2 + blocks_steps(def.blocks@.take(b + 1)));
        }
        b = b + 1;
    }
    assert(def.blocks@.take(b as int) =~= def.blocks@);
    let ghost part3 = steps@;

    let n = def.inputs.len();
    let mut i: usize = 0;
    while i < n
        invariant
            i <= n,
            n == def.inputs.entries_seq().len(),
            steps@ == part3 + def.inputs.entries_seq().take(i as int).map_values(
                |e: (InputPortId, TypeId)| ValidationStep::Type(PortId::Input(e.0), e.1),
            ),
        decreases n - i,
    {
        let (id, t) = def.inputs.entry(i);
        steps.push(ValidationStep::Type(PortId::Input(*id), *t));
        i = i + 1;
        assert(steps@ =~= part3 + def.inputs.entries_seq().take(i as int).map_values(
            |e: (InputPortId, TypeId)| ValidationStep::Type(PortId::Input(e.0), e.1),
        ));
    }
    assert(def.inputs.entries_seq().take(i as int) =~= def.inputs.entries_seq());
    let ghost part4 = steps@;

    let n = def.outputs.len();
    let mut i: usize = 0;
    while i < n
        invariant
            i <= n,
            n == def.outputs.entries_seq().len(),
            steps@ == part4 + def.outputs.entries_seq().take(i as int).map_values(
                |e: (OutputPortId, TypeId)| ValidationStep::Type(PortId::Output(e.0), e.1),
            ),
        decreases n - i,
    {
        let (id, t) = def.outputs.entry(i);
        steps.push(ValidationStep::Type(PortId::Output(*id), *t));
        i = i + 1;
        assert(steps@ =~= part4 + def.outputs.entries_seq().take(i as int).map_values(
            |e: (OutputPortId, TypeId)| ValidationStep::Type(PortId::Output(e.0), e.1),
        ));
    }
    assert(def.outputs.entries_seq().take(i as int) =~= def.outputs.entries_seq());
    let ghost part5 = steps@;

    let n = def.cardinalities.len();
    let mut i: usize = 0;
    while i < n
        invariant
            i <= n,
            n == def.cardinalities.entries_seq().len(),
            steps@ == part5 + cardinalities_steps(def.cardinalities.entries_seq().take(i as int)),
        decreases n - i,
    {
        let (port, constraints) = def.cardinalities.entry(i);
        push_cardinality_steps(&mut steps, *port, constraints);
        proof {
            let s = def.cardinalities.entries_seq();
            assert(s.take(i + 1).drop_last() =~= s.take(i as int));
            assert(s.take(i + 1).last() == s[i as int]);
            assert(steps@ =~= part5 + cardinalities_steps(s.take(i + 1)));
        }
        i = i + 1;
    }
    assert(def.cardinalities.entries_seq().take(i as int) =~= def.cardinalities.entries_seq());
    let ghost part6 = steps@;

    let n = def.connections.len();
    let mut i: usize = 0;
    while i < n
        invariant
            i <= n,
            n == def.connections.entries_seq().len(),
            steps@ == part6 + def.connections.entries_seq().take(i as int).map_values(
                |e: ((OutputPortId, InputPortId), TypeId)| ValidationStep::Connect((e.0).0, (e.0).1, e.1),
            ),
        decreases n - i,
    {
        let (ends, t) = def.connections.entry(i);
        steps.push(ValidationStep::Connect(ends.0, ends.1, *t));
        i = i + 1;
        assert(steps@ =~= part6 + def.connections.entries_seq().take(i as int).map_values(
            |e: ((OutputPortId, InputPortId), TypeId)| ValidationStep::Connect((e.0).0, (e.0).1, e.1),
        ));
    }
    assert(def.connections.entries_seq().take(i as int) =~= def.connections.entries_seq());
    assert(steps@ =~= validation_steps(*def));
    steps
}

/// The total range of several producers, as [`producer_bounds`] defines it.
pub fn aggregate_producers(ranges: &Vec<Cardinality>) -> (r: Option<Cardinality>)
    ensures
        r is None <==> producer_bounds(ranges@) is None,
        r matches Some(c) ==> c@ == producer_bounds(ranges@)->0,
{
    let mut minimum: usize = 0;
    let mut unbounded = false;
    let mut k: usize = 0;
    while k < ranges.len()
        invariant
            k <= ranges@.len(),
            minimum == sum_mins(ranges@.take(k as int)),
            unbounded == has_unbounded(ranges@.take(k as int)),
            forall|j: int| 0 <= j < k ==> valid_bounds((#[trigger] ranges@[j])@),
        decreases ranges@.len() - k,
    {
        let range = ranges[k];
        proof {
            use_type_invariant(range);
            let t = ranges@.take(k + 1);
            assert(t.drop_last() =~= ranges@.take(k as int));
            assert(t.last() == range);
            assert(has_unbounded(t) == (unbounded || range@.1 is None)) by {
                if range@.1 is None {
                    assert(t[k as int] == range);
                }
                if has_unbounded(t) && !(range@.1 is None) {
                    let j = choose|j: int| 0 <= j < t.len() && (#[trigger] t[j])@.1 is None;
                    assert(ranges@.take(k as int)[j] == t[j]);
                }
                if unbounded {
                    let j = choose|j: int| 0 <= j < k && (#[trigger] ranges@.take(k as int)[j])@.1 is None;
                    assert(t[j] == ranges@.take(k as int)[j]);
                }
            }
        }
        match minimum.checked_add(range.min()) {
            Some(sum) => minimum = sum,
            None => {
                proof {
                    lemma_sum_mins_prefix_monotone(ranges@, k + 1);
                }
                return None;
            },
        }
        if range.max().is_none() {
            unbounded = true;
        }
        k = k + 1;
    }
    assert(ranges@.take(k as int) =~= ranges@);
    if unbounded {
        return Cardinality::new(minimum, None);
    }
    let mut maximum: usize = 0;
    let mut k: usize = 0;
    while k < ranges.len()
        invariant
            k <= ranges@.len(),
            !has_unbounded(ranges@),
            maximum == sum_maxes(ranges@.take(k as int)),
        decreases ranges@.len() - k,
    {
        let range = ranges[k];
        proof {
            let t = ranges@.take(k + 1);
            assert(t.drop_last() =~= ranges@.take(k as int));
            assert(t.last() == range);
        }
        let bound = match range.max() {
            Some(max) => max,
            None => {
                proof { assert(ranges@[k as int] == range); }
                0
            },
        };
        match maximum.checked_add(bound) {
            Some(sum) => maximum = sum,
            None => {
                proof {
                    lemma_sum_maxes_prefix_monotone(ranges@, k + 1);
                }
                return None;
            },
        }
        k = k + 1;
    }
    assert(ranges@.take(k as int) =~= ranges@);
    proof { lemma_sum_mins_le_maxes(ranges@); }
    Cardinality::new(minimum, Some(maximum))
}

/// Sums over a prefix never exceed the sums over the whole sequence.
pub proof fn lemma_sum_mins_prefix_monotone(s: Seq<Cardinality>, k: int)
    requires
        0 <= k <= s.len(),
    ensures
        sum_mins(s.take(k)) <= sum_mins(s),
        sum_mins(s.take(k)) >= 0,
    decreases s.len() - k,
{
    if k < s.len() {
        lemma_sum_mins_prefix_monotone(s, k + 1);
        assert(s.take(k + 1).drop_last() =~= s.take(k));
    } else {
        assert(s.take(k) =~= s);
    }
    lemma_sum_mins_nonneg(s.take(k));
}

pub proof fn lemma_sum_mins_nonneg(s: Seq<Cardinality>)
    ensures
        sum_mins(s) >= 0,
    decreases s.len(),
{
    if s.len() > 0 {
        lemma_sum_mins_nonneg(s.drop_last());
    }
}

pub proof fn lemma_sum_maxes_prefix_monotone(s: Seq<Cardinality>, k: int)
    requires
        0 <= k <= s.len(),
    ensures
        sum_maxes(s.take(k)) <= sum_maxes(s),
    decreases s.len() - k,
{
    if k < s.len() {
        lemma_sum_maxes_prefix_monotone(s, k + 1);
        assert(s.take(k + 1).drop_last() =~= s.take(k));
        lemma_sum_maxes_nonneg_last(s.take(k + 1));
    } else {
        assert(s.take(k) =~= s);
    }
}

proof fn lemma_sum_maxes_nonneg_last(s: Seq<Cardinality>)
    requires
        s.len() > 0,
    ensures
        sum_maxes(s) >= sum_maxes(s.drop_last()),
{
}

/// The ports of a validated definition, their types and effective cardinalities.
pub struct ValidatedPorts {
    /// Every declared input and its message type, if known.
    pub inputs: PortIdMap<InputPortId, Option<TypeId>>,
    /// Every declared output and its message type, if known.
    pub outputs: PortIdMap<OutputPortId, Option<TypeId>>,
    /// The effective cardinality of each constrained port.
    pub cardinalities: PortIdMap<PortId, Cardinality>,
    /// The effective cardinality of each connected input's stream.
    pub connection_cardinalities: PortIdMap<InputPortId, Cardinality>,
}

impl ValidatedPorts {
    /// The effective cardinality of a port; unconstrained ports have none.
    pub fn cardinality(&self, port: PortId) -> (r: Cardinality)
        ensures
            self.cardinalities@.contains_key(port) ==> r == self.cardinalities@[port],
            !self.cardinalities@.contains_key(port) ==> r@ == (0usize, None::<usize>)
                && r == unlimited_cardinality(),
    {
        match self.cardinalities.get(&port) {
            Some(c) => *c,
            None => {
                let r = Cardinality::unlimited();
                proof {
                    Cardinality::lemma_from_bounds_view((0usize, None::<usize>));
                    Cardinality::lemma_view_injective(r, unlimited_cardinality());
                }
                r
            },
        }
    }
}

/// Validates a definition: applies every step of [`validation_steps`] in order,
/// then reconciles each connected input with its producers in input-ID order.
pub fn validate_definition(def: &SystemDefinition) -> (r: Result<ValidatedPorts, SystemValidationError>)
    ensures
        validation_outcome(*def) matches Ok(m) ==> r matches Ok(v) && v.inputs@ == m.inputs
            && v.outputs@ == m.outputs && v.cardinalities@ == m.cards
            && v.connection_cardinalities@ == connection_cardinalities(m),
        validation_outcome(*def) matches Err(e) ==> r matches Err(e2) && e2 == e,
{
    let steps = validation_plan(def);
    let mut state = ValidationState::new();
    let mut k: usize = 0;
    while k < steps.len()
        invariant
            k <= steps@.len(),
            steps@ == validation_steps(*def),
            run_steps(empty_model(), steps@.take(k as int)) == Ok::<PortsModel, SystemValidationError>(
                state.model(),
            ),
        decreases steps@.len() - k,
    {
        let result = state.apply(&steps[k]);
        proof {
            assert(steps@.take(k + 1).drop_last() =~= steps@.take(k as int));
            assert(steps@.take(k + 1).last() == steps@[k as int]);
        }
        if let Err(e) = result {
            proof { lemma_run_steps_failed_prefix(empty_model(), steps@, k + 1); }
            return Err(e);
        }
        k = k + 1;
    }
    assert(steps@.take(k as int) =~= steps@);
    let ghost m = state.model();
    let mut connected: PortIdMap<InputPortId, Cardinality> = PortIdMap::new();
    let n = state.producers.len();
    proof { use_type_invariant(&state.producers); }
    let mut i: usize = 0;
    while i < n
        invariant
            i <= n,
            n == state.producers.entries_seq().len(),
            sorted_entries(state.producers.entries_seq()),
            m == state.model(),
            run_steps(empty_model(), validation_steps(*def)) == Ok::<PortsModel, SystemValidationError>(m),
            forall|j: int| 0 <= j < i ==> !producer_fails(m, #[trigger] state.producers.entries_seq()[j].0),
            connected@ == Map::new(
                |x: InputPortId| exists|j: int| 0 <= j < i && state.producers.entries_seq()[j].0 == x,
                |x: InputPortId| producer_result(m, x)->Ok_0,
            ),
        decreases n - i,
    {
        let (input, ranges) = state.producers.entry(i);
        let input = *input;
        proof {
            lemma_entries_map_at(state.producers.entries_seq(), i as int);
            assert(m.producers[input] == ranges@);
        }
        let consumer = state.card_of(PortId::Input(input));
        let outcome: Result<Cardinality, SystemValidationError> = match aggregate_producers(ranges) {
            None => Err(SystemValidationError::CardinalityOverflow(input)),
            Some(producers) => {
                proof {
                    Cardinality::lemma_view_injective(producers, Cardinality::from_bounds(producer_bounds(m.producers[input])->0));
                }
                match producers.intersection(consumer) {
                    Some(effective) => Ok(effective),
                    None => Err(
                        SystemValidationError::IncompatibleCardinality {
                            port: PortId::Input(input),
                            first: producers,
                            second: consumer,
                        },
                    ),
                }
            },
        };
        assert(outcome == producer_result(m, input));
        match outcome {
            Err(e) => {
                proof {
                    let s = state.producers.entries_seq();
                    assert(producer_fails(m, input));
                    assert forall|j: InputPortId| #[trigger] producer_fails(m, j) implies !key_lt(
                        j.key_of(),
                        input.key_of(),
                    ) by {
                        let x = choose|x: int| 0 <= x < s.len() && s[x].0 == j;
                        if x < i {
                            assert(!producer_fails(m, s[x].0));
                        } else if x > i {
                            assert(key_lt(s[i as int].0.key_of(), s[x].0.key_of()));
                        }
                    }
                    let f = first_failure(m);
                    assert(producer_fails(m, f) && forall|j: InputPortId| #[trigger]
                        producer_fails(m, j) ==> !key_lt(j.key_of(), f.key_of()));
                    assert(!key_lt(f.key_of(), input.key_of()));
                    assert(!key_lt(input.key_of(), f.key_of()));
                    InputPortId::lemma_key_injective(f, input);
                }
                return Err(e);
            },
            Ok(effective) => {
                connected.insert(input, effective);
                proof {
                    let s = state.producers.entries_seq();
                    assert(connected@ =~= Map::new(
                        |x: InputPortId| exists|j: int| 0 <= j < i + 1 && s[j].0 == x,
                        |x: InputPortId| producer_result(m, x)->Ok_0,
                    )) by {
                        assert forall|x: InputPortId| (exists|j: int| 0 <= j < i + 1 && s[j].0 == x) implies connected@.contains_key(x) by {
                            let j = choose|j: int| 0 <= j < i + 1 && s[j].0 == x;
                            if j < i {
                                assert(exists|j: int| 0 <= j < i && s[j].0 == x);
                            }
                        }
                        assert forall|x: InputPortId| connected@.contains_key(x) implies (exists|j: int| 0 <= j < i + 1 && s[j].0 == x) by {
                            if x != input {
                                let j = choose|j: int| 0 <= j < i && s[j].0 == x;
                                assert(0 <= j < i + 1 && s[j].0 == x);
                            } else {
                                assert(s[i as int].0 == x);
                            }
                        }
                    }
                }
            },
        }
        i = i + 1;
    }
    proof {
        let s = state.producers.entries_seq();
        assert(!exists|x: InputPortId| producer_fails(m, x)) by {
            if exists|x: InputPortId| producer_fails(m, x) {
                let x = choose|x: InputPortId| producer_fails(m, x);
                let j = choose|j: int| 0 <= j < s.len() && s[j].0 == x;
                assert(!producer_fails(m, s[j].0));
            }
        }
        assert(connected@ =~= connection_cardinalities(m)) by {
            assert forall|x: InputPortId| connected@.contains_key(x) <==> m.producers.contains_key(x) by {
                if m.producers.contains_key(x) {
                    let j = choose|j: int| 0 <= j < s.len() && s[j].0 == x;
                    assert(0 <= j < i && s[j].0 == x);
                }
                if connected@.contains_key(x) {
                    let j = choose|j: int| 0 <= j < i && s[j].0 == x;
                    lemma_entries_map_at(s, j);
                }
            }
        }
    }
    Ok(ValidatedPorts {
        inputs: state.inputs,
        outputs: state.outputs,
        cardinalities: state.cardinalities,
        connection_cardinalities: connected,
    })
}

/// Checks that inputs are negative and outputs positive.
pub fn check_id(id: PortId) -> (r: bool)
    ensures
        r == id.is_valid(),
{
    match id {
        PortId::Input(id) => id.0 < 0,
        PortId::Output(id) => id.0 > 0,
    }
}

/// A copy of a vector of cardinalities.
fn copy_cardinalities(v: &Vec<Cardinality>) -> (r: Vec<Cardinality>)
    ensures
        r@ == v@,
{
    let mut r: Vec<Cardinality> = Vec::new();
    let mut i: usize = 0;
    while i < v.len()
        invariant
            i <= v@.len(),
            r@ == v@.take(i as int),
        decreases v@.len() - i,
    {
        r.push(v[i]);
        i = i + 1;
        assert(r@ =~= v@.take(i as int));
    }
    assert(v@.take(i as int) =~= v@);
    r
}

} // verus!
