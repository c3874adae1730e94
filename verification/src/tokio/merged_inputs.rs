//! Fair merging of the connections of several producers into one input.

use vstd::prelude::*;
use std::sync::Arc;
use crate::error::RecvError;
use crate::io::{Cardinality, PortDirection, PortEvent, PortState};
use crate::model::OutputPortId;
use super::inputs::{count_after_message, end_report, ends_stream, receives, shortfall, tally, Inputs};

verus! {

/// A receiving port that fairly merges the connections of several producers.
///
/// Each producer has its own bounded queue and FIFO order; sources are polled
/// round-robin. Source-local disconnect markers are consumed by the merger;
/// they close only that source. The merged port reports EOF when all sources
/// finish or its maximum is read, and checks its total minimum as an input
/// does. A source's cardinality error is reported as the producer's.
#[verifier::reject_recursive_types(T)]
pub struct MergedInputs<T> {
    sources: Vec<(OutputPortId, Inputs<T>)>,
    done: Vec<bool>,
    next: usize,
    changed: Arc<::tokio::sync::Notify>,
    total: Cardinality,
    received: usize,
    ended: bool,
    closed: bool,
}

/// The indices of the sources still merged, in polling order: starting at
/// `next` and wrapping around, skipping finished sources.
pub open spec fn poll_sequence(done: Seq<bool>, next: int) -> Seq<int> {
    Seq::new(done.len(), |k: int| (next + k) % (done.len() as int)).filter(|i: int| !done[i])
}

/// The total of the capacities that are known; saturating, `None` when none is.
pub open spec fn capacity_total(caps: Seq<Option<usize>>) -> Option<usize>
    decreases caps.len(),
{
    if caps.len() == 0 {
        None
    } else {
        let rest = capacity_total(caps.drop_last());
        match caps.last() {
            None => rest,
            Some(c) => {
                let base: int = match rest {
                    Some(r) => r as int,
                    None => 0,
                };
                Some(if base + c > usize::MAX { usize::MAX } else { (base + c) as usize })
            },
        }
    }
}

/// The first source below its own minimum, reported as a producer shortfall.
pub open spec fn first_shortfall<T>(sources: Seq<(OutputPortId, Inputs<T>)>) -> Result<(), RecvError>
    decreases sources.len(),
{
    if sources.len() == 0 {
        Ok(())
    } else {
        let (output, input) = sources[0];
        if input.received() < input.bounds()@.0 {
            Err(
                RecvError::ProducerCardinalityUnderflow {
                    output,
                    minimum: input.bounds()@.0,
                    received: input.received(),
                },
            )
        } else {
            first_shortfall(sources.drop_first())
        }
    }
}

proof fn lemma_filter_push(s: Seq<int>, p: spec_fn(int) -> bool, x: int)
    ensures
        s.push(x).filter(p) == (if p(x) {
            s.filter(p).push(x)
        } else {
            s.filter(p)
        }),
{
    reveal(Seq::filter);
    assert(s.push(x).drop_last() =~= s);
}

/// The saturating sum of the known capacities, as [`capacity_total`] defines it.
pub fn sum_capacities(caps: &Vec<Option<usize>>) -> (r: Option<usize>)
    ensures
        r == capacity_total(caps@),
{
    let mut total: Option<usize> = None;
    let mut k: usize = 0;
    while k < caps.len()
        invariant
            k <= caps@.len(),
            total == capacity_total(caps@.take(k as int)),
        decreases caps@.len() - k,
    {
        proof {
            assert(caps@.take(k + 1).drop_last() =~= caps@.take(k as int));
        }
        if let Some(c) = caps[k] {
            let base = match total {
                Some(t) => t,
                None => 0,
            };
            total = Some(base.saturating_add(c));
        }
        k = k + 1;
    }
    assert(caps@.take(k as int) =~= caps@);
    total
}

impl<T> MergedInputs<T> {
    /// The merged sources and their producing outputs, in order.
    pub closed spec fn sources(self) -> Seq<(OutputPortId, Inputs<T>)> {
        self.sources@
    }

    /// Which sources have finished.
    pub closed spec fn done(self) -> Seq<bool> {
        self.done@
    }

    /// The source polled first on the next receive.
    pub closed spec fn next(self) -> usize {
        self.next
    }

    /// The notifier woken when the producers' shared budget changes.
    pub closed spec fn spec_changed(self) -> Arc<::tokio::sync::Notify> {
        self.changed
    }

    /// The bounds of the merged stream.
    pub closed spec fn total(self) -> Cardinality {
        self.total
    }

    /// The messages of the merged stream counted so far.
    pub closed spec fn received(self) -> usize {
        self.received
    }

    /// Whether the merged stream has ended.
    pub closed spec fn ended(self) -> bool {
        self.ended
    }

    /// Whether the merged input was closed.
    pub closed spec fn is_closed(self) -> bool {
        self.closed
    }

    /// One finished flag per source and a cursor among the sources.
    #[verifier::type_invariant]
    closed spec fn wf(self) -> bool {
        &&& self.done@.len() == self.sources@.len()
        &&& (self.sources@.len() == 0 ==> self.next == 0)
        &&& (self.sources@.len() > 0 ==> self.next < self.sources@.len())
    }

    /// Merges `sources` into a stream with bounds `total`, none finished,
    /// polling the first one first; `changed` is woken when their shared
    /// budget changes. A zero maximum creates an already-ended stream.
    pub fn new(sources: Vec<(OutputPortId, Inputs<T>)>, changed: Arc<::tokio::sync::Notify>, total: Cardinality) -> (r: Self)
        ensures
            r.sources() == sources@,
            r.done() == Seq::new(sources@.len(), |i: int| false),
            r.next() == 0,
            r.total() == total,
            r.received() == 0,
            r.ended() == (total@.1 == Some(0usize)),
            !r.is_closed(),
            r.spec_changed() == changed,
    {
        let mut done: Vec<bool> = Vec::new();
        let mut k: usize = 0;
        while k < sources.len()
            invariant
                k <= sources@.len(),
                done@ == Seq::new(k as nat, |i: int| false),
            decreases sources@.len() - k,
        {
            done.push(false);
            k = k + 1;
        }
        let ended = total.max() == Some(0);
        Self { sources, done, next: 0, changed, total, received: 0, ended, closed: false }
    }

    /// The notifier woken when the shared budget changes.
    pub fn changed(&self) -> (r: &Arc<::tokio::sync::Notify>)
        ensures
            *r == self.spec_changed(),
    {
        &self.changed
    }

    /// The number of merged sources.
    pub fn len(&self) -> (r: usize)
        ensures
            r == self.sources().len(),
    {
        self.sources.len()
    }

    /// Reports whether every source has finished.
    #[verifier::loop_isolation(false)]
    pub fn all_done(&self) -> (r: bool)
        ensures
            r == (forall|i: int| 0 <= i < self.done().len() ==> #[trigger] self.done()[i]),
    {
        let mut k: usize = 0;
        while k < self.done.len()
            invariant
                k <= self.done@.len(),
                forall|i: int| 0 <= i < k ==> #[trigger] self.done@[i],
            decreases self.done@.len() - k,
        {
            if !self.done[k] {
                assert(!self.done()[k as int]);
                return false;
            }
            k = k + 1;
        }
        true
    }

    /// The sources to poll, in round-robin order from the cursor, skipping finished ones.
    pub fn poll_order(&self) -> (r: Vec<usize>)
        ensures
            r@.map_values(|i: usize| i as int) == poll_sequence(self.done(), self.next() as int),
    {
        proof {
            use_type_invariant(self);
        }
        let count = self.sources.len();
        let mut order: Vec<usize> = Vec::new();
        let mut offset: usize = 0;
        let ghost all = Seq::new(count as nat, |k: int| (self.next + k) % (count as int));
        while offset < count
            invariant
                self.wf(),
                count == self.sources@.len(),
                offset <= count,
                all == Seq::new(count as nat, |k: int| (self.next + k) % (count as int)),
                order@.map_values(|i: usize| i as int) == all.take(offset as int).filter(
                    |i: int| !self.done@[i],
                ),
            decreases count - offset,
        {
            let rest = count - self.next;
            let index = if offset < rest {
                self.next + offset
            } else {
                offset - rest
            };
            proof {
                let n = count as int;
                let a = self.next + offset;
                assert(index as int == a % n) by (nonlinear_arith)
                    requires
                        0 <= self.next < n,
                        0 <= offset < n,
                        a == self.next + offset,
                        index as int == if a < n { a } else { a - n },
                ;
                assert(all.take(offset + 1) =~= all.take(offset as int).push(index as int));
                lemma_filter_push(all.take(offset as int), |i: int| !self.done@[i], index as int);
            }
            if !self.done[index] {
                order.push(index);
                assert(order@.map_values(|i: usize| i as int) =~= all.take(offset as int).filter(
                    |i: int| !self.done@[i],
                ).push(index as int));
            } else {
                assert(order@.map_values(|i: usize| i as int) =~= all.take(offset + 1).filter(
                    |i: int| !self.done@[i],
                ));
            }
            offset = offset + 1;
        }
        assert(all.take(count as int) =~= all);
        order
    }
}


/// Whether two merged inputs agree on the merged stream's bounds, count, and lifecycle.
pub open spec fn same_stream<T>(a: MergedInputs<T>, b: MergedInputs<T>) -> bool {
    &&& a.total() == b.total()
    &&& a.received() == b.received()
    &&& a.ended() == b.ended()
    &&& a.is_closed() == b.is_closed()
}

/// Whether a poll outcome finishes its source: the source ended or sent a
/// disconnect marker.
pub open spec fn retires<T>(polled: Option<Result<Option<PortEvent<T>>, RecvError>>) -> bool {
    match polled {
        Some(Ok(None)) => true,
        Some(Ok(Some(PortEvent::Disconnect))) => true,
        _ => false,
    }
}

/// Whether a poll outcome delivers an event of its source to the merged input.
pub open spec fn delivers<T>(polled: Option<Result<Option<PortEvent<T>>, RecvError>>) -> bool {
    match polled {
        Some(Ok(Some(PortEvent::Disconnect))) => false,
        Some(Ok(Some(_))) => true,
        _ => false,
    }
}

/// What the merged input reports for a poll outcome of the source fed by
/// `output`: `None` to go on polling; a source's shortfall is reported as the
/// producer's.
pub open spec fn settled_report<T>(
    output: OutputPortId,
    polled: Option<Result<Option<PortEvent<T>>, RecvError>>,
) -> Option<Result<Option<PortEvent<T>>, RecvError>> {
    match polled {
        None => None,
        Some(Ok(event)) => if retires(polled) {
            None
        } else {
            Some(Ok(event))
        },
        Some(Err(RecvError::CardinalityUnderflow { minimum, received })) => Some(
            Err(RecvError::ProducerCardinalityUnderflow { output, minimum, received }),
        ),
        Some(Err(e)) => Some(Err(e)),
    }
}

proof fn lemma_capacity_total_none(caps: Seq<Option<usize>>)
    requires
        forall|i: int| 0 <= i < caps.len() ==> (#[trigger] caps[i]) is None,
    ensures
        capacity_total(caps) is None,
    decreases caps.len(),
{
    if caps.len() > 0 {
        let rest = caps.drop_last();
        assert forall|i: int| 0 <= i < rest.len() implies (#[trigger] rest[i]) is None by {
            assert(rest[i] == caps[i]);
        }
        lemma_capacity_total_none(rest);
        assert(caps.last() == caps[caps.len() - 1]);
    }
}

proof fn lemma_capacity_total_some(caps: Seq<Option<usize>>, i: int)
    requires
        0 <= i < caps.len(),
        caps[i] is Some,
    ensures
        capacity_total(caps) is Some,
    decreases caps.len(),
{
    if i < caps.len() - 1 {
        lemma_capacity_total_some(caps.drop_last(), i);
    }
}

impl<T> MergedInputs<T> {
    /// Returns the bounds of the merged stream.
    pub fn cardinality(&self) -> (r: Cardinality)
        ensures
            r == self.total(),
    {
        self.total
    }

    /// Returns the number of merged messages counted so far.
    pub fn received_count(&self) -> (r: usize)
        ensures
            r == self.received(),
    {
        self.received
    }

    /// Returns [`PortDirection::Input`].
    pub fn direction(&self) -> (r: PortDirection)
        ensures
            r is Input,
    {
        PortDirection::Input
    }

    /// Resolves a receive that needs no polling: an ended or closed merged
    /// input reports EOF; otherwise `None`, and the sources must be polled.
    pub fn recv_without_channel(&self) -> (r: Option<Result<Option<PortEvent<T>>, RecvError>>)
        ensures
            (self.ended() || self.is_closed()) ==> r == Some(Ok::<Option<PortEvent<T>>, RecvError>(None)),
            !(self.ended() || self.is_closed()) ==> r is None,
    {
        if self.ended || self.closed {
            Some(Ok(None))
        } else {
            None
        }
    }

    /// Accounts for a merged event (`None`: every source finished) against the
    /// merged stream's bounds, as [`Inputs::complete_recv`] does for one channel.
    pub fn complete_recv(&mut self, event: Option<PortEvent<T>>) -> (r: Result<Option<PortEvent<T>>, RecvError>)
        ensures
            ({
                let b = old(self).total()@;
                let n = if event matches Some(PortEvent::Message(_)) {
                    count_after_message(b, old(self).received())
                } else {
                    old(self).received()
                };
                &&& final(self).total() == old(self).total()
                &&& final(self).received() == n
                &&& final(self).is_closed() == old(self).is_closed()
                &&& final(self).sources() == old(self).sources()
                &&& final(self).done() == old(self).done()
                &&& final(self).next() == old(self).next()
                &&& ends_stream(b, n, event) ==> final(self).ended() && r == end_report(b, n, event)
                &&& !ends_stream(b, n, event) ==> final(self).ended() == old(self).ended() && r == Ok::<
                    Option<PortEvent<T>>,
                    RecvError,
                >(event)
            }),
    {
        proof {
            use_type_invariant(&*self);
        }
        let (count, ends) = tally(self.total, self.received, &event);
        self.received = count;
        if ends {
            self.ended = true;
            if count < self.total.min() {
                Err(RecvError::CardinalityUnderflow { minimum: self.total.min(), received: count })
            } else {
                Ok(event)
            }
        } else {
            Ok(event)
        }
    }

    /// Mutable access to the source at `index`.
    pub fn source_mut(&mut self, index: usize) -> (r: &mut Inputs<T>)
        requires
            index < old(self).sources().len(),
        ensures
            *r == old(self).sources()[index as int].1,
            final(self).sources() == old(self).sources().update(
                index as int,
                (old(self).sources()[index as int].0, *final(r)),
            ),
            final(self).done() == old(self).done(),
            final(self).next() == old(self).next(),
            same_stream(*old(self), *final(self)),
    {
        proof {
            use_type_invariant(&*self);
        }
        &mut self.sources[index].1
    }

    /// Closes every source, discarding their buffered events.
    fn close_sources(&mut self)
        ensures
            same_stream(*old(self), *final(self)),
            final(self).sources().len() == old(self).sources().len(),
            forall|i: int|
                0 <= i < old(self).sources().len() ==> {
                    &&& (#[trigger] final(self).sources()[i]).0 == old(self).sources()[i].0
                    &&& final(self).sources()[i].1.stage() is Closed
                    &&& final(self).sources()[i].1.bounds() == old(self).sources()[i].1.bounds()
                    &&& final(self).sources()[i].1.received() == old(self).sources()[i].1.received()
                },
            final(self).done() == old(self).done(),
            final(self).next() == old(self).next(),
    {
        proof {
            use_type_invariant(&*self);
        }
        let ghost before = self.sources@;
        let mut k: usize = 0;
        while k < self.sources.len()
            invariant
                self.wf(),
                k <= self.sources@.len(),
                self.sources@.len() == before.len(),
                self.done@ == old(self).done@,
                self.next == old(self).next,
                self.total == old(self).total,
                self.received == old(self).received,
                self.ended == old(self).ended,
                self.closed == old(self).closed,
                before == old(self).sources@,
                forall|i: int|
                    k <= i < before.len() ==> #[trigger] self.sources@[i] == before[i],
                forall|i: int|
                    0 <= i < k ==> {
                        &&& (#[trigger] self.sources@[i]).0 == before[i].0
                        &&& self.sources@[i].1.stage() is Closed
                        &&& self.sources@[i].1.bounds() == before[i].1.bounds()
                        &&& self.sources@[i].1.received() == before[i].1.received()
                    },
            decreases before.len() - k,
        {
            self.sources[k].1.close();
            k = k + 1;
        }
    }

    /// Closes the merged input and every source, discarding their buffered events.
    pub fn close(&mut self)
        ensures
            final(self).is_closed(),
            final(self).total() == old(self).total(),
            final(self).received() == old(self).received(),
            final(self).ended() == old(self).ended(),
            final(self).sources().len() == old(self).sources().len(),
            forall|i: int|
                0 <= i < old(self).sources().len() ==> {
                    &&& (#[trigger] final(self).sources()[i]).0 == old(self).sources()[i].0
                    &&& final(self).sources()[i].1.stage() is Closed
                    &&& final(self).sources()[i].1.bounds() == old(self).sources()[i].1.bounds()
                    &&& final(self).sources()[i].1.received() == old(self).sources()[i].1.received()
                },
            final(self).done() == old(self).done(),
            final(self).next() == old(self).next(),
    {
        self.close_sources();
        proof {
            use_type_invariant(&*self);
        }
        self.closed = true;
    }

    /// Stops new sends on every source while keeping their buffered events.
    pub fn disconnect(&mut self)
        ensures
            same_stream(*old(self), *final(self)),
            final(self).sources().len() == old(self).sources().len(),
            forall|i: int|
                0 <= i < old(self).sources().len() ==> {
                    let a = old(self).sources()[i].1;
                    let b = (#[trigger] final(self).sources()[i]).1;
                    &&& final(self).sources()[i].0 == old(self).sources()[i].0
                    &&& (a.stage() is Connected ==> b.stage() is Disconnected)
                    &&& (!(a.stage() is Connected) ==> b.stage() == a.stage())
                    &&& b.bounds() == a.bounds()
                    &&& b.received() == a.received()
                },
            final(self).done() == old(self).done(),
            final(self).next() == old(self).next(),
    {
        proof {
            use_type_invariant(&*self);
        }
        let ghost before = self.sources@;
        let mut k: usize = 0;
        while k < self.sources.len()
            invariant
                self.wf(),
                k <= self.sources@.len(),
                self.sources@.len() == before.len(),
                self.done@ == old(self).done@,
                self.next == old(self).next,
                self.total == old(self).total,
                self.received == old(self).received,
                self.ended == old(self).ended,
                self.closed == old(self).closed,
                before == old(self).sources@,
                forall|i: int|
                    k <= i < before.len() ==> #[trigger] self.sources@[i] == before[i],
                forall|i: int|
                    0 <= i < k ==> {
                        let a = before[i].1;
                        let b = (#[trigger] self.sources@[i]).1;
                        &&& self.sources@[i].0 == before[i].0
                        &&& (a.stage() is Connected ==> b.stage() is Disconnected)
                        &&& (!(a.stage() is Connected) ==> b.stage() == a.stage())
                        &&& b.bounds() == a.bounds()
                        &&& b.received() == a.received()
                    },
            decreases before.len() - k,
        {
            self.sources[k].1.disconnect();
            k = k + 1;
        }
    }

    /// `Closed` once closed; otherwise `Connected` while the stream has not
    /// ended and some source is connected, and `Disconnected` else.
    #[verifier::loop_isolation(false)]
    pub fn state(&self) -> (r: PortState)
        ensures
            self.is_closed() ==> r is Closed,
            !self.is_closed() ==> (r is Connected || r is Disconnected),
            !self.is_closed() && self.ended() ==> r is Disconnected,
            !self.is_closed() && (forall|i: int|
                0 <= i < self.sources().len() ==> !receives((#[trigger] self.sources()[i]).1.stage())
                    && !((self.sources()[i]).1.stage() is Unconnected))
                ==> r is Disconnected,
    {
        if self.closed {
            return PortState::Closed;
        }
        if self.ended {
            return PortState::Disconnected;
        }
        let mut k: usize = 0;
        while k < self.sources.len()
            invariant
                k <= self.sources@.len(),
            decreases self.sources@.len() - k,
        {
            let ghost source = self.sources()[k as int];
            if self.sources[k].1.state() == PortState::Connected {
                return PortState::Connected;
            }
            k = k + 1;
        }
        PortState::Disconnected
    }

    /// Reports whether no source has buffered events; an ended or closed
    /// merged input is empty.
    #[verifier::loop_isolation(false)]
    pub fn is_empty(&self) -> (r: bool)
        ensures
            self.ended() || self.is_closed() ==> r,
            (forall|i: int|
                0 <= i < self.sources().len() ==> !receives((#[trigger] self.sources()[i]).1.stage()))
                ==> r,
    {
        if self.ended || self.closed {
            return true;
        }
        let mut k: usize = 0;
        while k < self.sources.len()
            invariant
                k <= self.sources@.len(),
            decreases self.sources@.len() - k,
        {
            let ghost source = self.sources()[k as int];
            if !self.sources[k].1.is_empty() {
                return false;
            }
            k = k + 1;
        }
        true
    }

    /// The saturating total of the sources' remaining (or, with `maximum`,
    /// total) buffer capacities; `None` when the stream ended or was closed,
    /// or no source retains a receiver.
    #[verifier::loop_isolation(false)]
    pub fn capacity(&self, maximum: bool) -> (r: Option<usize>)
        ensures
            self.ended() || self.is_closed() ==> r is None,
            (forall|i: int|
                0 <= i < self.sources().len() ==> !receives((#[trigger] self.sources()[i]).1.stage()))
                ==> r is None,
            !(self.ended() || self.is_closed()) && (exists|i: int|
                0 <= i < self.sources().len() && receives((#[trigger] self.sources()[i]).1.stage()))
                ==> r is Some,
    {
        if self.ended || self.closed {
            return None;
        }
        let mut caps: Vec<Option<usize>> = Vec::new();
        let mut k: usize = 0;
        while k < self.sources.len()
            invariant
                k <= self.sources@.len(),
                caps@.len() == k,
                forall|i: int|
                    0 <= i < k ==> (!receives((#[trigger] self.sources@[i]).1.stage()) ==> caps@[i] is None),
                forall|i: int|
                    0 <= i < k ==> (receives((#[trigger] self.sources@[i]).1.stage()) ==> caps@[i] is Some),
            decreases self.sources@.len() - k,
        {
            let ghost source = self.sources()[k as int];
            let c = if maximum {
                self.sources[k].1.max_capacity()
            } else {
                self.sources[k].1.capacity()
            };
            caps.push(c);
            k = k + 1;
        }
        proof {
            if forall|i: int|
                0 <= i < self.sources().len() ==> !receives((#[trigger] self.sources()[i]).1.stage()) {
                assert forall|i: int| 0 <= i < caps@.len() implies (#[trigger] caps@[i]) is None by {
                    assert(self.sources()[i] == self.sources@[i]);
                    assert(!receives(self.sources@[i].1.stage()));
                }
                lemma_capacity_total_none(caps@);
            }
            if exists|i: int|
                0 <= i < self.sources().len() && receives((#[trigger] self.sources()[i]).1.stage()) {
                let i = choose|i: int|
                    0 <= i < self.sources().len() && receives((#[trigger] self.sources()[i]).1.stage());
                assert(self.sources()[i] == self.sources@[i]);
                lemma_capacity_total_some(caps@, i);
            }
        }
        sum_capacities(&caps)
    }

    /// The first source that received fewer messages than its own minimum.
    pub fn check_minima(&self) -> (r: Result<(), RecvError>)
        ensures
            r == first_shortfall(self.sources()),
    {
        let mut k: usize = 0;
        assert(self.sources@.skip(0) =~= self.sources@);
        while k < self.sources.len()
            invariant
                k <= self.sources@.len(),
                first_shortfall(self.sources@) == first_shortfall(self.sources@.skip(k as int)),
            decreases self.sources@.len() - k,
        {
            let output = self.sources[k].0;
            let minimum = self.sources[k].1.cardinality().min();
            let received = self.sources[k].1.received_count();
            proof {
                let rest = self.sources@.skip(k as int);
                assert(rest[0] == self.sources@[k as int]);
                assert(rest.drop_first() =~= self.sources@.skip(k + 1));
            }
            if received < minimum {
                return Err(RecvError::ProducerCardinalityUnderflow { output, minimum, received });
            }
            k = k + 1;
        }
        Ok(())
    }

    /// Applies the outcome of polling the source at `index` (`None`: not ready).
    ///
    /// A source that ended or sent a disconnect marker is retired and closed:
    /// the marker is local to that source. A delivered event moves the cursor
    /// past the source, so the next receive starts with the following one. A
    /// source's error ends the merged stream and closes every source; it is
    /// reported once. Returns what the merged input reports, or `None` to go
    /// on polling.
    pub fn settle(&mut self, index: usize, polled: Option<Result<Option<PortEvent<T>>, RecvError>>) -> (r:
        Option<Result<Option<PortEvent<T>>, RecvError>>)
        requires
            index < old(self).sources().len(),
        ensures
            r == settled_report(old(self).sources()[index as int].0, polled),
            final(self).sources().len() == old(self).sources().len(),
            !(polled matches Some(Err(_))) ==> same_stream(*old(self), *final(self)),
            polled matches Some(Err(_)) ==> {
                &&& final(self).ended()
                &&& final(self).total() == old(self).total()
                &&& final(self).received() == old(self).received()
                &&& final(self).is_closed() == old(self).is_closed()
                &&& final(self).done() == old(self).done()
                &&& final(self).next() == old(self).next()
                &&& forall|i: int|
                    0 <= i < old(self).sources().len() ==> {
                        &&& (#[trigger] final(self).sources()[i]).0 == old(self).sources()[i].0
                        &&& final(self).sources()[i].1.stage() is Closed
                    }
            },
            retires(polled) ==> {
                &&& final(self).done() == old(self).done().update(index as int, true)
                &&& final(self).next() == old(self).next()
                &&& final(self).sources()[index as int].0 == old(self).sources()[index as int].0
                &&& final(self).sources()[index as int].1.stage() is Closed
                &&& forall|i: int|
                    0 <= i < old(self).sources().len() && i != index ==> #[trigger] final(self).sources()[i]
                        == old(self).sources()[i]
            },
            delivers(polled) ==> final(self).next() == (index + 1) % (old(self).sources().len() as int)
                && final(self).done() == old(self).done() && final(self).sources() == old(self).sources(),
            polled is None ==> final(self).next() == old(self).next() && final(self).done() == old(
                self,
            ).done() && final(self).sources() == old(self).sources(),
    {
        proof {
            use_type_invariant(&*self);
        }
        let output = self.sources[index].0;
        match polled {
            None => None,
            Some(Ok(event)) => {
                let retired = match &event {
                    None => true,
                    Some(PortEvent::Disconnect) => true,
                    _ => false,
                };
                if retired {
                    self.done[index] = true;
                    self.sources[index].1.close();
                    None
                } else {
                    let count = self.sources.len();
                    assert(index < count);
                    self.next = (index + 1) % count;
                    Some(Ok(event))
                }
            },
            Some(Err(e)) => {
                self.ended = true;
                self.close_sources();
                match e {
                    RecvError::CardinalityUnderflow { minimum, received } => Some(
                        Err(RecvError::ProducerCardinalityUnderflow { output, minimum, received }),
                    ),
                    other => Some(Err(other)),
                }
            },
        }
    }
}

} // verus!
