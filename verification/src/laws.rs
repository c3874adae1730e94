//! Properties that hold across the library's operations.

use vstd::prelude::*;
use crate::io::{meet_bounds, sum_bounds, valid_bounds, Cardinality};
use core::any::TypeId;
use crate::error::{RecvError, SendError};
use crate::io::PortEvent;
use crate::tokio::{
    connection_check, count_after_message, end_report, ends_stream, entry_error, fan_in_feasible,
    poll_sequence, projected_cards, projection_of, quota_verdict, source_cards, spare_budget,
    GroupReading, PortSlot, SystemPrepareError,
};
use crate::tokio::PortBindingError;
use crate::model::{block_ports, lemma_validated_block_ports_distinct, lemma_validated_outputs_connected_once,
    lemma_sum_mins_nonneg, sum_mins,
    abs_usize, apply_step, empty_model, entries_map, next_input_counter, next_output_counter,
    run_steps, validation_outcome, validation_steps, InputPortId, OutputPortId, PortId,
    PortsModel, SystemDefinition, ValidationStep,
};

verus! {

/// Intersecting constraints does not depend on their order.
pub proof fn law_intersection_commutes(a: Cardinality, b: Cardinality)
    ensures
        a.meet(b) == b.meet(a),
{
}

/// Intersecting three constraints gives the same result however they are grouped.
pub proof fn law_intersection_associates(a: Cardinality, b: Cardinality, c: Cardinality)
    ensures
        (match a.meet(b) {
            Some(ab) => ab.meet(c),
            None => None,
        }) == (match b.meet(c) {
            Some(bc) => a.meet(bc),
            None => None,
        }),
{
    broadcast use Cardinality::lemma_from_bounds_view;

}

/// The unconstrained range is neutral for intersection: a missing declaration
/// imposes no constraint.
pub proof fn law_intersection_with_unlimited(a: Cardinality)
    requires
        valid_bounds(a@),
    ensures
        a.meet(Cardinality::from_bounds((0usize, None::<usize>))) == Some(a),
{
    broadcast use {Cardinality::lemma_from_bounds_view, Cardinality::lemma_view_injective};

    assert(Cardinality::from_bounds(a@)@ == a@);
}

/// A nonempty intersection lies within both constraints.
pub proof fn law_intersection_within_both(a: Cardinality, b: Cardinality)
    ensures
        meet_bounds(a@, b@) matches Some(m) ==> {
            &&& m.0 >= a@.0 && m.0 >= b@.0
            &&& a@.1 matches Some(x) ==> (m.1 matches Some(y) && y <= x)
            &&& b@.1 matches Some(x) ==> (m.1 matches Some(y) && y <= x)
            &&& valid_bounds(m)
        },
{
}

/// Adding producer ranges does not depend on their order, and one unlimited
/// producer makes the sum unlimited.
pub proof fn law_sum_commutes_and_unlimited_absorbs(a: Cardinality, b: Cardinality)
    ensures
        sum_bounds(a@, b@) == sum_bounds(b@, a@),
        (a@.1 is None && sum_bounds(a@, b@) is Some) ==> (sum_bounds(a@, b@)->0).1 is None,
{
}

/// Decoding the unsigned encoding of a well-formed port ID gives the port back.
pub proof fn law_port_id_encoding_round_trips(p: PortId)
    requires
        p.is_valid(),
    ensures
        PortId::decode((p.raw() as usize) as isize) == Ok::<PortId, &'static str>(p),
{
    let x = p.raw();
    assert((x as usize) as isize == x) by (bit_vector);
}

/// Every nonzero unsigned key decodes to exactly one well-formed port whose
/// encoding is that key; zero is rejected.
pub proof fn law_nonzero_keys_decode_to_valid_ports(encoded: usize)
    ensures
        encoded == 0 <==> PortId::decode(encoded as isize) is Err,
        PortId::decode(encoded as isize) matches Ok(p) ==> p.is_valid() && p.raw() as usize == encoded,
{
    assert(encoded == 0 <==> encoded as isize == 0) by (bit_vector);
    assert(((encoded as isize) as usize) == encoded) by (bit_vector);
}

/// The magnitude of a port ID is the magnitude of its typed ID.
pub proof fn law_magnitude_matches_typed_id(p: PortId)
    ensures
        p matches PortId::Input(id) ==> abs_usize(p.raw()) == abs_usize(id.0),
        p matches PortId::Output(id) ==> (id.0 > 0 ==> abs_usize(p.raw()) == id.0 as usize),
{
}

/// Input-ID allocation moves strictly downwards and, once the counter reaches
/// zero (after issuing `isize::MIN`), never issues an ID again.
pub proof fn law_input_allocation_is_fresh_and_exhausts(id: isize)
    ensures
        next_input_counter(id) matches Some(n) ==> n < id || (n == 0 && id == isize::MIN),
        next_input_counter(id) is Some <==> id < 0,
        next_input_counter(0) is None,
{
}

/// Output-ID allocation moves strictly upwards and, once the counter reaches
/// zero (after issuing `isize::MAX`), never issues an ID again.
pub proof fn law_output_allocation_is_fresh_and_exhausts(id: isize)
    ensures
        next_output_counter(id) matches Some(n) ==> n > id || (n == 0 && id == isize::MAX),
        next_output_counter(id) is Some <==> id > 0,
        next_output_counter(0) is None,
{
}

/// Steps only ever record well-formed port IDs.
pub open spec fn model_ids_valid(m: PortsModel) -> bool {
    &&& forall|id: InputPortId| #[trigger] m.inputs.contains_key(id) ==> id.0 < 0
    &&& forall|id: OutputPortId| #[trigger] m.outputs.contains_key(id) ==> id.0 > 0
}

proof fn lemma_apply_step_keeps_ids_valid(m: PortsModel, s: ValidationStep)
    requires
        model_ids_valid(m),
    ensures
        apply_step(m, s) matches Ok(m2) ==> model_ids_valid(m2),
{
}

proof fn lemma_run_steps_keeps_ids_valid(m: PortsModel, steps: Seq<ValidationStep>)
    requires
        model_ids_valid(m),
    ensures
        run_steps(m, steps) matches Ok(m2) ==> model_ids_valid(m2),
    decreases steps.len(),
{
    if steps.len() > 0 {
        lemma_run_steps_keeps_ids_valid(m, steps.drop_last());
        if let Ok(m1) = run_steps(m, steps.drop_last()) {
            lemma_apply_step_keeps_ids_valid(m1, steps.last());
        }
    }
}

/// A definition that validates declares only well-formed IDs: inputs negative,
/// outputs positive.
pub proof fn law_validated_ports_are_well_formed(def: SystemDefinition)
    ensures
        validation_outcome(def) matches Ok(m) ==> model_ids_valid(m),
{
    lemma_run_steps_keeps_ids_valid(empty_model(), validation_steps(def));
}

/// The empty system is valid.
pub proof fn law_empty_system_is_valid(def: SystemDefinition)
    requires
        def.is_empty_definition(),
    ensures
        validation_outcome(def) is Ok,
{
    assert(def.registered_inputs.sorted_items().len() == 0) by {
        let s = def.registered_inputs.items().entries_seq();
        if s.len() > 0 {
            assert(entries_map(s).contains_key(s[0].0));
        }
    }
    assert(def.registered_outputs.sorted_items().len() == 0) by {
        let s = def.registered_outputs.items().entries_seq();
        if s.len() > 0 {
            assert(entries_map(s).contains_key(s[0].0));
        }
    }
    assert(def.inputs.entries_seq().len() == 0) by {
        let s = def.inputs.entries_seq();
        if s.len() > 0 {
            assert(entries_map(s).contains_key(s[0].0));
        }
    }
    assert(def.outputs.entries_seq().len() == 0) by {
        let s = def.outputs.entries_seq();
        if s.len() > 0 {
            assert(entries_map(s).contains_key(s[0].0));
        }
    }
    assert(def.cardinalities.entries_seq().len() == 0) by {
        let s = def.cardinalities.entries_seq();
        if s.len() > 0 {
            assert(entries_map(s).contains_key(s[0].0));
        }
    }
    assert(def.connections.entries_seq().len() == 0) by {
        let s = def.connections.entries_seq();
        if s.len() > 0 {
            assert(entries_map(s).contains_key(s[0].0));
        }
    }
    assert(validation_steps(def) =~= Seq::<ValidationStep>::empty());
    assert(run_steps(empty_model(), validation_steps(def)) == Ok::<PortsModel, crate::model::SystemValidationError>(empty_model()));
}

/// A producer's projected range lies within its own bounds, and its maximum
/// leaves every other producer its minimum within the merged input's maximum.
pub proof fn law_projection_respects_bounds(
    total: Cardinality,
    sources: Seq<(OutputPortId, Cardinality)>,
    i: int,
)
    requires
        0 <= i < sources.len(),
    ensures
        projection_of(total, sources, i) matches Some(b) ==> {
            &&& valid_bounds(b)
            &&& b.0 >= sources[i].1@.0
            &&& sources[i].1@.1 matches Some(own) ==> (b.1 matches Some(m) && m <= own)
            &&& total@.1 matches Some(t) ==> (b.1 matches Some(m) && m + sum_mins(
                source_cards(sources).remove(i),
            ) <= t)
        },
{
}

/// A merged input reserves every producer's projected minimum before extras:
/// the minimums fit within its maximum, and the spare budget is what remains.
pub proof fn law_fan_in_reserves_minimums(total: Cardinality, sources: Seq<(OutputPortId, Cardinality)>)
    requires
        fan_in_feasible(total, sources),
    ensures
        total@.1 matches Some(t) ==> {
            let minimums = sum_mins(projected_cards(total, sources));
            &&& minimums <= t
            &&& spare_budget(total@, minimums as usize) == Some(Some((t - minimums) as usize))
        },
        total@.1 is None ==> spare_budget(total@, sum_mins(projected_cards(total, sources)) as usize)
            == Some(None::<usize>),
{
    lemma_sum_mins_nonneg(projected_cards(total, sources));
}

/// Once a stream has carried its maximum, every further message is refused
/// with that maximum; a producer below its own minimum is never refused by a
/// shared budget; an ordinary unconstrained connection refuses nothing.
pub proof fn law_quota_refuses_past_maximum(
    bounds: (usize, Option<usize>),
    sent: usize,
    group: Option<GroupReading>,
)
    ensures
        bounds.1 is Some && sent >= bounds.1->0 ==> quota_verdict(bounds, sent, group) == Err::<(), SendError>(
            SendError::CardinalityExceeded { maximum: bounds.1->0 },
        ),
        sent < bounds.0 && !(bounds.1 matches Some(m) && sent >= m) ==> quota_verdict(bounds, sent, group) is Ok,
        bounds.1 is None && group is None ==> quota_verdict(bounds, sent, group) is Ok,
{
}

/// Connect events neither count nor end a stream; a disconnect marker always ends it.
pub proof fn law_control_events_do_not_count<T>(bounds: (usize, Option<usize>), received: usize)
    ensures
        !ends_stream(bounds, received, Some(PortEvent::<T>::Connect)),
        ends_stream(bounds, received, Some(PortEvent::<T>::Disconnect)),
{
}

/// Reaching the maximum ends the stream and returns the last message.
pub proof fn law_maximum_returns_last_message<T>(bounds: (usize, Option<usize>), received: usize, m: T)
    requires
        valid_bounds(bounds),
        bounds.1 matches Some(max) && received + 1 == max,
    ensures
        count_after_message(bounds, received) == bounds.1->0,
        ends_stream(bounds, bounds.1->0, Some(PortEvent::Message(m))),
        end_report(bounds, bounds.1->0, Some(PortEvent::Message(m))) == Ok::<Option<PortEvent<T>>, RecvError>(
            Some(PortEvent::Message(m)),
        ),
{
}

/// A stream that ends below its minimum, by EOF or by a disconnect marker,
/// reports the shortfall instead.
pub proof fn law_premature_end_reports_shortfall<T>(bounds: (usize, Option<usize>), received: usize)
    requires
        received < bounds.0,
    ensures
        ends_stream(bounds, received, None::<PortEvent<T>>),
        end_report(bounds, received, None::<PortEvent<T>>) == Err::<Option<PortEvent<T>>, RecvError>(
            RecvError::CardinalityUnderflow { minimum: bounds.0, received },
        ),
        end_report(bounds, received, Some(PortEvent::<T>::Disconnect)) == Err::<
            Option<PortEvent<T>>,
            RecvError,
        >(RecvError::CardinalityUnderflow { minimum: bounds.0, received }),
{
}

/// The count after `n` messages on a fresh stream with these bounds.
pub open spec fn messages_counted(bounds: (usize, Option<usize>), n: nat) -> usize
    decreases n,
{
    if n == 0 {
        0
    } else {
        count_after_message(bounds, messages_counted(bounds, (n - 1) as nat))
    }
}

/// A stream with a maximum counts every message below it: one more message
/// raises the count by one, and the message that reaches the maximum, and no
/// earlier one, ends the stream.
pub proof fn law_bounded_streams_count_every_message<T>(
    bounds: (usize, Option<usize>),
    received: usize,
    m: T,
)
    requires
        bounds.1 matches Some(max) && received < max,
    ensures
        count_after_message(bounds, received) == received + 1,
        ends_stream(bounds, count_after_message(bounds, received), Some(PortEvent::Message(m)))
            <==> received + 1 == bounds.1->0,
{
}

/// On a fresh stream with a maximum, the count after `n` messages, up to the
/// maximum, is `n`; the stream ends exactly with the message that reaches it.
pub proof fn law_bounded_streams_count_from_zero<T>(bounds: (usize, Option<usize>), n: nat, m: T)
    requires
        bounds.1 matches Some(max) && n <= max,
    ensures
        messages_counted(bounds, n) == n,
        n > 0 ==> (ends_stream(bounds, messages_counted(bounds, n), Some(PortEvent::Message(m)))
            <==> n == bounds.1->0),
    decreases n,
{
    if n > 0 {
        law_bounded_streams_count_from_zero(bounds, (n - 1) as nat, m);
    }
}

/// A definition that validates lists every block port once: a port listed
/// twice, by one block or by two, is refused.
pub proof fn law_validated_block_ports_are_distinct(def: SystemDefinition)
    requires
        validation_outcome(def) is Ok,
    ensures
        block_ports(def.blocks@).no_duplicates(),
{
    lemma_validated_block_ports_distinct(def);
}

/// A definition that validates connects each output to at most one input:
/// fan-out from one output is refused.
pub proof fn law_validated_outputs_feed_one_input(def: SystemDefinition, o: OutputPortId, i1: InputPortId, i2: InputPortId)
    requires
        validation_outcome(def) is Ok,
        def.connections@.contains_key((o, i1)),
        def.connections@.contains_key((o, i2)),
    ensures
        i1 == i2,
{
    lemma_validated_outputs_connected_once(def);
}

/// A stream without a maximum counts messages only up to its minimum.
pub proof fn law_unbounded_streams_count_up_to_minimum(bounds: (usize, Option<usize>), received: usize)
    requires
        bounds.1 is None,
        received <= bounds.0,
    ensures
        count_after_message(bounds, received) == if received < bounds.0 {
            received + 1
        } else {
            bounds.0 as int
        },
{
}

proof fn lemma_filter_no_duplicates(s: Seq<int>, p: spec_fn(int) -> bool)
    requires
        s.no_duplicates(),
    ensures
        s.filter(p).no_duplicates(),
    decreases s.len(),
{
    reveal(Seq::filter);
    if s.len() > 0 {
        let t = s.drop_last();
        assert(t.no_duplicates()) by {
            assert forall|i: int, j: int| 0 <= i < t.len() && 0 <= j < t.len() && i != j implies t[i] != t[j] by {
                assert(t[i] == s[i] && t[j] == s[j]);
            }
        }
        lemma_filter_no_duplicates(t, p);
        if p(s.last()) {
            let f = t.filter(p);
            if f.contains(s.last()) {
                t.lemma_filter_contains_rev(p, s.last());
                let k = choose|k: int| 0 <= k < t.len() && t[k] == s.last();
                assert(s[k] == s[s.len() - 1]);
            }
            assert forall|i: int, j: int|
                0 <= i < f.push(s.last()).len() && 0 <= j < f.push(s.last()).len() && i != j implies f.push(
                s.last(),
            )[i] != f.push(s.last())[j] by {
                if i < f.len() && j < f.len() {
                } else if i == f.len() {
                    assert(f.contains(f[j]));
                } else {
                    assert(f.contains(f[i]));
                }
            }
        }
    }
}

/// Polling visits every unfinished source exactly once per receive, starting
/// with the source at the cursor when it is unfinished.
pub proof fn law_poll_order_visits_each_live_source_once(done: Seq<bool>, next: int)
    requires
        0 <= next < done.len(),
    ensures
        forall|i: int| 0 <= i < done.len() ==> (poll_sequence(done, next).contains(i) <==> !done[i]),
        poll_sequence(done, next).no_duplicates(),
        !done[next] ==> poll_sequence(done, next)[0] == next,
{
    let n = done.len() as int;
    let all = Seq::new(done.len(), |k: int| (next + k) % n);
    let pred = |i: int| !done[i];
    assert forall|k: int| 0 <= k < n implies #[trigger] all[k] == if next + k < n {
        next + k
    } else {
        next + k - n
    } by {
        let a = next + k;
        assert(a % n == if a < n { a } else { a - n }) by (nonlinear_arith)
            requires
                0 <= a < 2 * n,
                n > 0,
        ;
    }
    assert(all.no_duplicates());
    all.filter_lemma(pred);
    lemma_filter_no_duplicates(all, pred);
    assert forall|i: int| 0 <= i < n implies (poll_sequence(done, next).contains(i) <==> !done[i]) by {
        if !done[i] {
            let k = if i >= next { i - next } else { i - next + n };
            assert(all[k] == i);
        }
        if poll_sequence(done, next).contains(i) {
            let j = choose|j: int| 0 <= j < all.filter(pred).len() && all.filter(pred)[j] == i;
            assert(pred(all.filter(pred)[j]));
        }
    }
    if !done[next] {
        reveal(Seq::filter);
        assert(all[0] == next);
        lemma_filter_first(all, pred);
    }
}

proof fn lemma_filter_first(s: Seq<int>, p: spec_fn(int) -> bool)
    requires
        s.len() > 0,
        p(s[0]),
    ensures
        s.filter(p).len() > 0,
        s.filter(p)[0] == s[0],
    decreases s.len(),
{
    reveal(Seq::filter);
    if s.len() > 1 {
        lemma_filter_first(s.drop_last(), p);
        assert(s.drop_last()[0] == s[0]);
    }
}

/// An endpoint is handed out at most once: after a successful claim, every
/// further claim fails with [`PortBindingError::AlreadyClaimed`].
pub proof fn law_endpoint_claimed_once<P>(
    slot: PortSlot<P>,
    claimed_type: TypeId,
    bounds: Cardinality,
    port: PortId,
    requested_type: TypeId,
    requested: Cardinality,
)
    ensures
        slot.claimed_with(claimed_type, bounds).binding(port, requested_type, requested) == Err::<
            Cardinality,
            PortBindingError,
        >(PortBindingError::AlreadyClaimed(port)),
{
}

proof fn lemma_check_passes_from(
    entries: Seq<((OutputPortId, InputPortId), TypeId)>,
    message_type: TypeId,
    j: int,
    k: int,
)
    requires
        0 <= j <= k < entries.len(),
        connection_check(entries, message_type, j) is Ok,
    ensures
        entry_error(entries, k, message_type) is None,
    decreases k - j,
{
    if j < k {
        lemma_check_passes_from(entries, message_type, j + 1, k);
    }
}

/// A definition that preparation accepts has at most one producer per input,
/// all carrying the prepared message type: fan-in is refused, never overwritten.
pub proof fn law_prepared_connections_have_one_producer_per_input(
    entries: Seq<((OutputPortId, InputPortId), TypeId)>,
    message_type: TypeId,
)
    requires
        connection_check(entries, message_type, 0) is Ok,
    ensures
        forall|j: int, k: int|
            0 <= j < k < entries.len() ==> (#[trigger] entries[j]).0.1 != (#[trigger] entries[k]).0.1,
        forall|k: int| 0 <= k < entries.len() ==> (#[trigger] entries[k]).1 == message_type,
{
    assert forall|j: int, k: int| 0 <= j < k < entries.len() implies (#[trigger] entries[j]).0.1 != (
    #[trigger] entries[k]).0.1 by {
        lemma_check_passes_from(entries, message_type, 0, k);
    }
    assert forall|k: int| 0 <= k < entries.len() implies (#[trigger] entries[k]).1 == message_type by {
        lemma_check_passes_from(entries, message_type, 0, k);
    }
}

} // verus!
