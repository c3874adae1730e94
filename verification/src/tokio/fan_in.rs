//! Planning a merged input: how the total budget of an input with several
//! producers is projected onto each producer's own connection.

use vstd::prelude::*;
use crate::io::{max_usize, min_usize, valid_bounds, Cardinality, CardinalityBounds, PortEvent};
use crate::model::{
    has_unbounded, lemma_sum_mins_nonneg, lemma_sum_mins_prefix_monotone, sum_maxes, sum_mins,
    OutputPortId,
};
use std::sync::Arc;
use super::inputs::Inputs;
use super::merged_inputs::MergedInputs;
use super::outputs::Outputs;
use super::quota::{spare_budget, GroupBudget, Quota};
use super::sync::{max_channel_buffer, mpsc_channel, share};
use super::system_prepare_error::SystemPrepareError;

verus! {

broadcast use {Cardinality::lemma_from_bounds_view, Cardinality::lemma_view_injective};

/// The sum of the maximums, or `None` when one is unlimited or the sum overflows `usize`.
pub open spec fn finite_total(s: Seq<Cardinality>) -> Option<usize> {
    if has_unbounded(s) || sum_maxes(s) > usize::MAX {
        None
    } else {
        Some(sum_maxes(s) as usize)
    }
}

/// The bounds of one producer with bounds `own` on a merged input with bounds
/// `total`, when the other producers send at least `other_min` messages and
/// at most `other_max` (`None`: no finite limit).
///
/// The producer must send whatever the others cannot make up of the total's
/// minimum, and may send at most what the total's maximum leaves after the
/// others' minimums. `None` when nothing is left or the bounds contradict.
pub open spec fn project_bounds(
    total: CardinalityBounds,
    own: CardinalityBounds,
    other_min: usize,
    other_max: Option<usize>,
) -> Option<CardinalityBounds> {
    let floor: usize = match other_max {
        Some(m) => if total.0 > m {
            (total.0 - m) as usize
        } else {
            0usize
        },
        None => 0usize,
    };
    let minimum = max_usize(own.0, floor);
    let maximum: Option<Option<usize>> = match total.1 {
        None => Some(own.1),
        Some(t) => if other_min > t {
            None
        } else {
            let available = (t - other_min) as usize;
            Some(
                Some(
                    match own.1 {
                        Some(o) => min_usize(o, available),
                        None => available,
                    },
                ),
            )
        },
    };
    match maximum {
        None => None,
        Some(max) => if valid_bounds((minimum, max)) {
            Some((minimum, max))
        } else {
            None
        },
    }
}

/// The projected bounds of a producer with bounds `own` whose fellow
/// producers have the bounds `others`, or `None` when they cannot be projected.
pub open spec fn projected_range(
    total: CardinalityBounds,
    own: CardinalityBounds,
    others: Seq<Cardinality>,
) -> Option<CardinalityBounds> {
    if sum_mins(others) > usize::MAX {
        None
    } else {
        project_bounds(total, own, sum_mins(others) as usize, finite_total(others))
    }
}

/// The bounds of each producer, in order.
pub open spec fn source_cards(sources: Seq<(OutputPortId, Cardinality)>) -> Seq<Cardinality> {
    sources.map_values(|p: (OutputPortId, Cardinality)| p.1)
}

/// The projected bounds of the producer at `i`.
pub open spec fn projection_of(
    total: Cardinality,
    sources: Seq<(OutputPortId, Cardinality)>,
    i: int,
) -> Option<CardinalityBounds> {
    projected_range(total@, sources[i].1@, source_cards(sources).remove(i))
}

proof fn lemma_has_unbounded_push(s: Seq<Cardinality>, c: Cardinality)
    ensures
        has_unbounded(s.push(c)) == (has_unbounded(s) || c@.1 is None),
{
    let t = s.push(c);
    if c@.1 is None {
        assert(t[s.len() as int] == c);
    }
    if has_unbounded(s) {
        let k = choose|k: int| 0 <= k < s.len() && (#[trigger] s[k])@.1 is None;
        assert(t[k] == s[k]);
    }
    if has_unbounded(t) && !(c@.1 is None) {
        let k = choose|k: int| 0 <= k < t.len() && (#[trigger] t[k])@.1 is None;
        assert(k < s.len());
        assert(s[k] == t[k]);
    }
}

proof fn lemma_sums_push(s: Seq<Cardinality>, c: Cardinality)
    ensures
        sum_mins(s.push(c)) == sum_mins(s) + c@.0,
        sum_maxes(s.push(c)) == sum_maxes(s) + match c@.1 {
            Some(m) => m as int,
            None => 0,
        },
{
    assert(s.push(c).drop_last() =~= s);
}

proof fn lemma_sum_maxes_nonneg(s: Seq<Cardinality>)
    ensures
        sum_maxes(s) >= 0,
    decreases s.len(),
{
    if s.len() > 0 {
        lemma_sum_maxes_nonneg(s.drop_last());
    }
}

/// The number of fellow producers of `i` among the first `j` producers.
spec fn fellows_before(i: int, j: int) -> int {
    if j <= i {
        j
    } else {
        j - 1
    }
}

/// The minimum and the finite maximum, if any, of the producers other than `i`.
fn other_totals(cards: &Vec<Cardinality>, i: usize) -> (r: Option<(usize, Option<usize>)>)
    requires
        i < cards@.len(),
    ensures
        r is None <==> sum_mins(cards@.remove(i as int)) > usize::MAX,
        r matches Some(t) ==> t.0 == sum_mins(cards@.remove(i as int)) && t.1 == finite_total(
            cards@.remove(i as int),
        ),
{
    let ghost others = cards@.remove(i as int);
    let mut other_min: usize = 0;
    let mut other_max: Option<usize> = Some(0);
    let mut j: usize = 0;
    assert(others.take(0) =~= Seq::<Cardinality>::empty());
    while j < cards.len()
        invariant
            i < cards@.len(),
            j <= cards@.len(),
            others == cards@.remove(i as int),
            other_min == sum_mins(others.take(fellows_before(i as int, j as int))),
            other_max == finite_total(others.take(fellows_before(i as int, j as int))),
        decreases cards@.len() - j,
    {
        if j != i {
            let c = cards[j];
            let ghost k = fellows_before(i as int, j as int);
            proof {
                let prev = others.take(k);
                assert(others[k] == cards@[j as int]);
                assert(others.take(k + 1) =~= prev.push(c));
                lemma_sums_push(prev, c);
                lemma_has_unbounded_push(prev, c);
                lemma_sum_mins_nonneg(prev);
                lemma_sum_maxes_nonneg(prev);
            }
            match other_min.checked_add(c.min()) {
                Some(sum) => other_min = sum,
                None => {
                    proof {
                        lemma_sum_mins_prefix_monotone(others, k + 1);
                    }
                    return None;
                },
            }
            other_max =
            match (other_max, c.max()) {
                (Some(a), Some(b)) => a.checked_add(b),
                _ => None,
            };
        }
        j = j + 1;
    }
    assert(others.take(fellows_before(i as int, j as int)) =~= others);
    Some((other_min, other_max))
}

/// Projects the bounds of one producer, as [`project_bounds`] defines it.
fn project(total: Cardinality, own: Cardinality, other_min: usize, other_max: Option<usize>) -> (r:
    Option<Cardinality>)
    ensures
        r is None <==> project_bounds(total@, own@, other_min, other_max) is None,
        r matches Some(c) ==> c@ == project_bounds(total@, own@, other_min, other_max)->0,
{
    let floor: usize = match other_max {
        Some(m) => if total.min() > m {
            total.min() - m
        } else {
            0
        },
        None => 0,
    };
    let minimum = if own.min() >= floor {
        own.min()
    } else {
        floor
    };
    let maximum = match total.max() {
        None => own.max(),
        Some(t) => {
            if other_min > t {
                return None;
            }
            let available = t - other_min;
            Some(
                match own.max() {
                    Some(o) => if o <= available {
                        o
                    } else {
                        available
                    },
                    None => available,
                },
            )
        },
    };
    Cardinality::new(minimum, maximum)
}

/// Projects the bounds of a merged input onto each of its producers.
///
/// Each producer must send what the others cannot make up of the input's
/// minimum and may send at most what the input's maximum leaves after the
/// others' minimums, within its own bounds.
///
/// # Errors
///
/// [`SystemPrepareError::FanInCardinalityOverflow`] when some producer's
/// projection overflows or leaves no valid range.
pub fn projected_ranges(total: Cardinality, sources: &[(OutputPortId, Cardinality)]) -> (r: Result<
    Vec<Cardinality>,
    SystemPrepareError,
>)
    ensures
        r is Ok <==> forall|i: int|
            0 <= i < sources@.len() ==> #[trigger] projection_of(total, sources@, i) is Some,
        r matches Ok(v) ==> v@.len() == sources@.len() && forall|i: int|
            0 <= i < sources@.len() ==> (#[trigger] v@[i])@ == projection_of(total, sources@, i)->0,
        r matches Err(e) ==> e == SystemPrepareError::FanInCardinalityOverflow,
{
    let mut cards: Vec<Cardinality> = Vec::new();
    let mut k: usize = 0;
    while k < sources.len()
        invariant
            k <= sources@.len(),
            cards@.len() == k,
            forall|j: int| 0 <= j < k ==> cards@[j] == (#[trigger] sources@[j]).1,
        decreases sources@.len() - k,
    {
        cards.push(sources[k].1);
        k = k + 1;
    }
    assert(cards@ =~= source_cards(sources@));
    let mut result: Vec<Cardinality> = Vec::new();
    let mut i: usize = 0;
    while i < sources.len()
        invariant
            i <= sources@.len(),
            cards@ == source_cards(sources@),
            result@.len() == i,
            forall|j: int|
                0 <= j < i ==> #[trigger] projection_of(total, sources@, j) is Some && result@[j]@
                    == projection_of(total, sources@, j)->0,
        decreases sources@.len() - i,
    {
        let own = sources[i].1;
        let totals = other_totals(&cards, i);
        let (other_min, other_max) = match totals {
            Some(t) => t,
            None => {
                assert(projection_of(total, sources@, i as int) is None);
                return Err(SystemPrepareError::FanInCardinalityOverflow);
            },
        };
        match project(total, own, other_min, other_max) {
            Some(range) => result.push(range),
            None => {
                assert(projection_of(total, sources@, i as int) is None);
                return Err(SystemPrepareError::FanInCardinalityOverflow);
            },
        }
        i = i + 1;
    }
    Ok(result)
}

/// The projected bounds of every producer, in order.
pub open spec fn projected_cards(total: Cardinality, sources: Seq<(OutputPortId, Cardinality)>) -> Seq<
    Cardinality,
> {
    Seq::new(sources.len(), |i: int| Cardinality::from_bounds(projection_of(total, sources, i)->0))
}

/// Whether producers with bounds `sources` can feed a merged input with bounds
/// `total`: every projection exists, and the total's maximum covers the sum of
/// the projected minimums, which each producer reserves.
pub open spec fn fan_in_feasible(total: Cardinality, sources: Seq<(OutputPortId, Cardinality)>) -> bool {
    &&& forall|i: int| 0 <= i < sources.len() ==> #[trigger] projection_of(total, sources, i) is Some
    &&& sum_mins(projected_cards(total, sources)) <= usize::MAX
    &&& spare_budget(total@, sum_mins(projected_cards(total, sources)) as usize) is Some
}

/// The endpoints of a merged connection: the merged input and, per producer,
/// its output ID, projected bounds, and sending endpoint.
#[verifier::reject_recursive_types(T)]
pub struct FanInConnection<T> {
    /// The receiving end, merging every producer.
    pub input: MergedInputs<T>,
    /// Each producer's output ID, projected bounds, and sending endpoint.
    pub outputs: Vec<(OutputPortId, Cardinality, Outputs<T>)>,
}

/// Connects several producers to one merged input with bounds `total`.
///
/// Each producer gets its own channel of `buffer` event slots and the bounds
/// [`projected_ranges`] computes; they share one budget that reserves every
/// producer's minimum before extras.
///
/// # Errors
///
/// [`SystemPrepareError::FanInCardinalityOverflow`] when a projection fails or
/// the projected minimums exceed what the total allows.
pub fn connect<T>(buffer: usize, total: Cardinality, sources: &[(OutputPortId, Cardinality)]) -> (r: Result<
    FanInConnection<T>,
    SystemPrepareError,
>)
    requires
        0 < buffer <= max_channel_buffer(),
    ensures
        r is Ok <==> fan_in_feasible(total, sources@),
        r matches Err(e) ==> e == SystemPrepareError::FanInCardinalityOverflow,
        r matches Ok(c) ==> {
            &&& c.outputs@.len() == sources@.len()
            &&& c.input.total() == total
            &&& c.input.received() == 0
            &&& !c.input.is_closed()
            &&& c.input.next() == 0
            &&& c.input.done() == Seq::new(sources@.len(), |i: int| false)
            &&& c.input.sources().len() == sources@.len()
            &&& forall|i: int|
                0 <= i < sources@.len() ==> {
                    &&& (#[trigger] c.outputs@[i]).0 == sources@[i].0
                    &&& c.outputs@[i].1@ == projection_of(total, sources@, i)->0
                    &&& c.outputs@[i].2.bounds() == c.outputs@[i].1
                    &&& c.input.sources()[i].0 == sources@[i].0
                    &&& c.input.sources()[i].1.bounds() == c.outputs@[i].1
                    &&& c.input.sources()[i].1.received() == 0
                }
            &&& exists|g: Arc<GroupBudget>|
                {
                    &&& g.spec_maximum() == total@.1
                    &&& Some(g.spec_extra_limit()) == spare_budget(
                        total@,
                        sum_mins(projected_cards(total, sources@)) as usize,
                    )
                    &&& c.input.spec_changed() == g.spec_changed()
                    &&& forall|i: int|
                        0 <= i < sources@.len() ==> {
                            &&& (#[trigger] c.outputs@[i]).2.spec_quota() == c.input.sources()[i].1.spec_quota()
                            &&& c.outputs@[i].2.spec_quota().spec_group() == Some(g)
                        }
                }
        },
{
    let ranges = match projected_ranges(total, sources) {
        Ok(ranges) => ranges,
        Err(e) => return Err(e),
    };
    assert forall|i: int| 0 <= i < ranges@.len() implies #[trigger] ranges@[i] == projected_cards(
        total,
        sources@,
    )[i] by {
        let b = projection_of(total, sources@, i)->0;
        Cardinality::lemma_from_bounds_view(b);
        Cardinality::lemma_view_injective(ranges@[i], Cardinality::from_bounds(b));
    }
    assert(ranges@ =~= projected_cards(total, sources@));
    let mut minimums: usize = 0;
    let mut k: usize = 0;
    while k < ranges.len()
        invariant
            k <= ranges@.len(),
            ranges@ == projected_cards(total, sources@),
            minimums == sum_mins(ranges@.take(k as int)),
        decreases ranges@.len() - k,
    {
        proof {
            assert(ranges@.take(k + 1).drop_last() =~= ranges@.take(k as int));
            lemma_sum_mins_nonneg(ranges@.take(k as int));
        }
        match minimums.checked_add(ranges[k].min()) {
            Some(sum) => minimums = sum,
            None => {
                proof {
                    lemma_sum_mins_prefix_monotone(ranges@, k + 1);
                }
                return Err(SystemPrepareError::FanInCardinalityOverflow);
            },
        }
        k = k + 1;
    }
    assert(ranges@.take(k as int) =~= ranges@);
    let group = match GroupBudget::new(total, minimums) {
        Some(group) => group,
        None => return Err(SystemPrepareError::FanInCardinalityOverflow),
    };
    let mut inputs: Vec<(OutputPortId, Inputs<T>)> = Vec::new();
    let mut outputs: Vec<(OutputPortId, Cardinality, Outputs<T>)> = Vec::new();
    let mut i: usize = 0;
    while i < sources.len()
        invariant
            0 < buffer <= max_channel_buffer(),
            i <= sources@.len(),
            ranges@.len() == sources@.len(),
            forall|j: int| 0 <= j < sources@.len() ==> (#[trigger] ranges@[j])@ == projection_of(total, sources@, j)->0,
            inputs@.len() == i,
            outputs@.len() == i,
            group.spec_maximum() == total@.1,
            Some(group.spec_extra_limit()) == spare_budget(total@, sum_mins(projected_cards(total, sources@)) as usize),
            forall|j: int|
                0 <= j < i ==> {
                    &&& outputs@[j].2.spec_quota() == inputs@[j].1.spec_quota()
                    &&& outputs@[j].2.spec_quota().spec_group() == Some(group)
                    &&& (#[trigger] outputs@[j]).0 == sources@[j].0
                    &&& outputs@[j].1 == ranges@[j]
                    &&& outputs@[j].2.bounds() == ranges@[j]
                    &&& inputs@[j].0 == sources@[j].0
                    &&& inputs@[j].1.bounds() == ranges@[j]
                    &&& inputs@[j].1.received() == 0
                },
        decreases sources@.len() - i,
    {
        let id = sources[i].0;
        let bounds = ranges[i];
        let quota = Quota::grouped(bounds, share(&group));
        let (tx, rx) = mpsc_channel::<PortEvent<T>>(buffer);
        outputs.push((id, bounds, Outputs::with_sender(tx, share(&quota))));
        inputs.push((id, Inputs::with_receiver(rx, quota)));
        i = i + 1;
    }
    let changed = share(group.changed());
    let c = FanInConnection { input: MergedInputs::new(inputs, changed, total), outputs };
    assert(c.input.spec_changed() == group.spec_changed());
    Ok(c)
}

} // verus!
