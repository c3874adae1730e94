//! Message-count budgets shared by the endpoints of a connection.

use vstd::prelude::*;
use core::sync::atomic::{AtomicUsize, Ordering};
use std::sync::Arc;
use crate::error::SendError;
use crate::io::Cardinality;
use super::sync::{new_gate, new_notify, notify_waiters};

verus! {

/// What a shared budget of a merged input reads: the limit on messages beyond
/// the producers' reserved minimums, the extras already sent, and the input's maximum.
pub struct GroupReading {
    pub extra_limit: Option<usize>,
    pub extras: usize,
    pub maximum: Option<usize>,
}

/// Whether one more message may be sent on a connection with these bounds,
/// given the messages already sent and, for a merged input, its shared budget.
///
/// The maximum is checked first; past its own minimum a producer of a merged
/// input also needs a spare message of the shared budget.
pub open spec fn quota_verdict(bounds: (usize, Option<usize>), sent: usize, group: Option<GroupReading>) -> Result<
    (),
    SendError,
> {
    match bounds.1 {
        Some(maximum) if sent >= maximum => Err(SendError::CardinalityExceeded { maximum }),
        _ => match group {
            Some(g) => if sent >= bounds.0 && g.extra_limit is Some && g.extras
                >= g.extra_limit->0 {
                Err(SendError::FanInBudgetExhausted { maximum: g.maximum->0 })
            } else {
                Ok(())
            },
            None => Ok(()),
        },
    }
}

/// The verdict of [`quota_verdict`] for plain values.
pub fn check_counts(bounds: Cardinality, sent: usize, group: Option<GroupReading>) -> (r: Result<(), SendError>)
    requires
        group matches Some(g) ==> (g.extra_limit is Some ==> g.maximum is Some),
    ensures
        r == quota_verdict(bounds@, sent, group),
{
    if let Some(maximum) = bounds.max() {
        if sent >= maximum {
            return Err(SendError::CardinalityExceeded { maximum });
        }
    }
    if let Some(g) = group {
        if sent >= bounds.min() {
            if let Some(limit) = g.extra_limit {
                if g.extras >= limit {
                    return Err(SendError::FanInBudgetExhausted {
                        maximum: match g.maximum {
                            Some(m) => m,
                            None => 0,
                        },
                    });
                }
            }
        }
    }
    Ok(())
}

/// The spare budget of a merged input after reserving every producer's minimum:
/// `None` when the minimums exceed a finite maximum, `Some(None)` when unlimited.
pub open spec fn spare_budget(bounds: (usize, Option<usize>), minimums: usize) -> Option<Option<usize>> {
    match bounds.1 {
        Some(maximum) => if minimums > maximum {
            None
        } else {
            Some(Some((maximum - minimums) as usize))
        },
        None => Some(None),
    }
}

/// Finite shared input budgets reserve every producer's minimum before extras.
pub struct GroupBudget {
    maximum: Option<usize>,
    extra_limit: Option<usize>,
    extras: AtomicUsize,
    gate: ::tokio::sync::Mutex<()>,
    changed: Arc<::tokio::sync::Notify>,
}

impl GroupBudget {
    /// The lock the producers hold while they count and enqueue a message.
    pub closed spec fn spec_gate(self) -> ::tokio::sync::Mutex<()> {
        self.gate
    }

    /// The notifier woken when the budget changes.
    pub closed spec fn spec_changed(self) -> Arc<::tokio::sync::Notify> {
        self.changed
    }

    /// The merged input's maximum.
    pub closed spec fn spec_maximum(self) -> Option<usize> {
        self.maximum
    }

    /// The limit on messages beyond the reserved minimums.
    pub closed spec fn spec_extra_limit(self) -> Option<usize> {
        self.extra_limit
    }

    #[verifier::type_invariant]
    pub open spec fn inv(self) -> bool {
        self.spec_extra_limit() is Some ==> self.spec_maximum() is Some
    }

    /// Creates the shared budget of a merged input with bounds `bounds` whose
    /// producers reserve `minimums` messages in total.
    pub fn new(bounds: Cardinality, minimums: usize) -> (r: Option<Arc<Self>>)
        ensures
            r is None <==> spare_budget(bounds@, minimums) is None,
            r matches Some(g) ==> g.spec_maximum() == bounds@.1 && Some(g.spec_extra_limit())
                == spare_budget(bounds@, minimums),
    {
        let extra_limit = match bounds.max() {
            Some(maximum) => {
                if minimums > maximum {
                    return None;
                }
                Some(maximum - minimums)
            },
            None => None,
        };
        Some(
            Arc::new(
                Self {
                    maximum: bounds.max(),
                    extra_limit,
                    extras: AtomicUsize::new(0),
                    gate: new_gate(),
                    changed: Arc::new(new_notify()),
                },
            ),
        )
    }

    /// Reads the budget: its limit, the extras sent so far, and the maximum.
    fn reading(&self) -> (r: GroupReading)
        ensures
            r.extra_limit == self.spec_extra_limit(),
            r.maximum == self.spec_maximum(),
            r.extra_limit is Some ==> r.maximum is Some,
    {
        proof { use_type_invariant(self); }
        GroupReading {
            extra_limit: self.extra_limit,
            extras: self.extras.load(Ordering::Acquire),
            maximum: self.maximum,
        }
    }

    /// Fails when the spare budget is used up.
    pub fn check_extra(&self) -> (r: Result<(), SendError>)
        ensures
            self.spec_extra_limit() is None ==> r is Ok,
            r matches Err(e) ==> e == (SendError::FanInBudgetExhausted {
                maximum: self.spec_maximum()->0,
            }),
    {
        let g = self.reading();
        if let Some(limit) = g.extra_limit {
            if g.extras >= limit {
                return Err(SendError::FanInBudgetExhausted {
                    maximum: match g.maximum {
                        Some(m) => m,
                        None => 0,
                    },
                });
            }
        }
        Ok(())
    }

    /// The lock of the shared budget.
    pub fn gate(&self) -> (r: &::tokio::sync::Mutex<()>)
        ensures
            *r == self.spec_gate(),
    {
        &self.gate
    }

    /// The notifier woken when the budget changes.
    pub fn changed(&self) -> (r: &Arc<::tokio::sync::Notify>)
        ensures
            *r == self.spec_changed(),
    {
        &self.changed
    }
}

/// Shared by both endpoints and every cloned output of a guarded connection.
pub struct Quota {
    bounds: Cardinality,
    sent: AtomicUsize,
    exhausted: ::tokio::sync::Notify,
    group: Option<Arc<GroupBudget>>,
}

impl Quota {
    /// The notifier woken when the quota is exhausted: the shared budget's
    /// for a producer of a merged input, otherwise the connection's own.
    pub closed spec fn spec_notifier(self) -> ::tokio::sync::Notify {
        match self.group {
            Some(group) => *group.spec_changed(),
            None => self.exhausted,
        }
    }

    /// The shared budget of a producer of a merged input.
    pub closed spec fn spec_group(self) -> Option<Arc<GroupBudget>> {
        self.group
    }

    /// The connection's effective bounds.
    pub closed spec fn spec_bounds(self) -> Cardinality {
        self.bounds
    }

    /// Whether the connection is one producer of a merged input.
    pub closed spec fn spec_grouped(self) -> bool {
        self.group is Some
    }

    /// Creates the budget of an ordinary connection.
    pub fn new(bounds: Cardinality) -> (r: Arc<Self>)
        ensures
            r.spec_bounds() == bounds,
            !r.spec_grouped(),
    {
        Arc::new(Self { bounds, sent: AtomicUsize::new(0), exhausted: new_notify(), group: None })
    }

    /// Creates the budget of one producer of a merged input.
    pub fn grouped(bounds: Cardinality, group: Arc<GroupBudget>) -> (r: Arc<Self>)
        ensures
            r.spec_bounds() == bounds,
            r.spec_grouped(),
            r.spec_group() == Some(group),
            r.spec_notifier() == *group.spec_changed(),
    {
        Arc::new(
            Self { bounds, sent: AtomicUsize::new(0), exhausted: new_notify(), group: Some(group) },
        )
    }

    /// Returns the connection's effective bounds.
    pub fn bounds(&self) -> (r: Cardinality)
        ensures
            r == self.spec_bounds(),
    {
        self.bounds
    }

    /// Reports whether the connection is one producer of a merged input.
    pub fn is_grouped(&self) -> (r: bool)
        ensures
            r == self.spec_grouped(),
    {
        self.group.is_some()
    }

    /// The shared budget, for a producer of a merged input.
    pub fn group(&self) -> (r: Option<&Arc<GroupBudget>>)
        ensures
            r is Some == self.spec_grouped(),
            r matches Some(g) ==> *g == self.spec_group()->0,
    {
        match &self.group {
            Some(group) => Some(group),
            None => None,
        }
    }

    /// The notifier woken when the quota is exhausted: the shared budget's for
    /// a producer of a merged input, otherwise the connection's own.
    pub fn notifier(&self) -> (r: &::tokio::sync::Notify)
        ensures
            *r == self.spec_notifier(),
    {
        match &self.group {
            Some(group) => group.changed(),
            None => &self.exhausted,
        }
    }

    fn group_reading(&self) -> (r: Option<GroupReading>)
        ensures
            r is Some == self.spec_grouped(),
            r matches Some(g) ==> (g.extra_limit is Some ==> g.maximum is Some),
    {
        match &self.group {
            Some(group) => Some(group.reading()),
            None => None,
        }
    }

    /// Whether one more message may be sent now.
    ///
    /// The counters are shared with concurrent senders; the verdict is
    /// [`quota_verdict`] for the counts read.
    pub fn check(&self) -> (r: Result<(), SendError>)
        ensures
            r matches Err(SendError::CardinalityExceeded { maximum }) ==> self.spec_bounds()@.1
                == Some(maximum),
            r matches Err(SendError::FanInBudgetExhausted { .. }) ==> self.spec_grouped(),
            r matches Err(e) ==> (e is CardinalityExceeded || e is FanInBudgetExhausted),
            self.spec_bounds()@.1 is None && !self.spec_grouped() ==> r is Ok,
    {
        let sent = self.sent.load(Ordering::Acquire);
        let group = self.group_reading();
        check_counts(self.bounds, sent, group)
    }

    /// Counts one message; called with a transport permit in hand, immediately
    /// before sending.
    pub fn commit(&self) -> (r: Result<(), SendError>)
        ensures
            r matches Err(SendError::CardinalityExceeded { maximum }) ==> self.spec_bounds()@.1
                == Some(maximum),
            r matches Err(SendError::FanInBudgetExhausted { .. }) ==> self.spec_grouped(),
            r matches Err(e) ==> (e is CardinalityExceeded || e is FanInBudgetExhausted),
            self.spec_bounds()@.1 is None && !self.spec_grouped() ==> r is Ok,
    {
        match &self.group {
            Some(group) => {
                self.check()?;
                let sent = self.sent.load(Ordering::Acquire);
                let g = group.reading();
                if sent >= self.bounds.min() && g.extra_limit.is_some() {
                    group.extras.fetch_add(1, Ordering::AcqRel);
                }
                if self.bounds.max().is_some() || sent < self.bounds.min() {
                    if sent < usize::MAX {
                        self.sent.store(sent + 1, Ordering::Release);
                    }
                }
                Ok(())
            },
            None => {
                if let Some(maximum) = self.bounds.max() {
                    match fetch_increment_below(&self.sent, maximum) {
                        Ok(_) => Ok(()),
                        Err(_) => Err(SendError::CardinalityExceeded { maximum }),
                    }
                } else {
                    Ok(())
                }
            },
        }
    }

    /// Wakes the waiters when no further message may be sent.
    pub fn notify_if_exhausted(&self) {
        if self.check().is_err() {
            notify_waiters(self.notifier());
        }
    }
}

/// The step of a capped counter: one more, unless the cap is reached.
pub open spec fn increment_below(sent: usize, maximum: usize) -> Option<usize> {
    if sent < maximum {
        Some((sent + 1) as usize)
    } else {
        None
    }
}

fn increment_below_exec(sent: usize, maximum: usize) -> (r: Option<usize>)
    ensures
        r == increment_below(sent, maximum),
{
    if sent < maximum {
        Some(sent + 1)
    } else {
        None
    }
}

/// Calls `AtomicUsize::fetch_update` with the step [`increment_below`].
///
/// As std documents, the result is `Ok(previous)` when the step returned
/// `Some` for the value read (which was then stored) and `Err(previous)`
/// otherwise. Which value is read depends on concurrent senders.
#[verifier::external_body]
fn fetch_increment_below(counter: &AtomicUsize, maximum: usize) -> (r: Result<usize, usize>)
    ensures
        r matches Ok(previous) ==> previous < maximum,
        r matches Err(previous) ==> previous >= maximum,
{
    counter.fetch_update(Ordering::AcqRel, Ordering::Acquire, |sent| increment_below_exec(sent, maximum))
}

} // verus!
