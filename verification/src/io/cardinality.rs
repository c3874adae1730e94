use vstd::prelude::*;
use core::ops::Bound;

verus! {

/// Inclusive message-count bounds as plain values: a minimum and an optional maximum.
pub type CardinalityBounds = (usize, Option<usize>);

/// Bounds are well formed when a finite maximum is not below the minimum.
pub open spec fn valid_bounds(b: CardinalityBounds) -> bool {
    b.1 matches Some(max) ==> b.0 <= max
}

pub open spec fn max_usize(a: usize, b: usize) -> usize {
    if a >= b { a } else { b }
}

pub open spec fn min_usize(a: usize, b: usize) -> usize {
    if a <= b { a } else { b }
}

/// The common part of two ranges, or `None` when they are disjoint.
pub open spec fn meet_bounds(a: CardinalityBounds, b: CardinalityBounds) -> Option<CardinalityBounds> {
    let min = max_usize(a.0, b.0);
    let max = match (a.1, b.1) {
        (Some(x), Some(y)) => Some(min_usize(x, y)),
        (x, None) => x,
        (None, y) => y,
    };
    if valid_bounds((min, max)) {
        Some((min, max))
    } else {
        None
    }
}

/// The range of a sum of two counts, or `None` when a bound overflows `usize`.
pub open spec fn sum_bounds(a: CardinalityBounds, b: CardinalityBounds) -> Option<CardinalityBounds> {
    if a.0 + b.0 > usize::MAX {
        None
    } else {
        match (a.1, b.1) {
            (Some(x), Some(y)) => if x + y > usize::MAX {
                None
            } else {
                Some(((a.0 + b.0) as usize, Some((x + y) as usize)))
            },
            _ => Some(((a.0 + b.0) as usize, None)),
        }
    }
}

/// Inclusive bounds on the total number of message payloads in a stream.
///
/// Control events and buffer slots are not messages for cardinality purposes.
/// Bounds are validated on construction. Connected port constraints are combined
/// by intersection; a finite maximum of zero describes an empty stream.
#[derive(Clone, Copy, Debug, Eq, Hash, PartialEq, Structural)]
pub struct Cardinality {
    min: usize,
    max: Option<usize>,
}

impl View for Cardinality {
    type V = CardinalityBounds;

    closed spec fn view(&self) -> CardinalityBounds {
        (self.min, self.max)
    }
}

impl Cardinality {
    #[verifier::type_invariant]
    pub open spec fn wf(self) -> bool {
        valid_bounds(self@)
    }

    /// The constraint whose bounds are `b` (meaningful when `b` is valid).
    pub closed spec fn from_bounds(b: CardinalityBounds) -> Cardinality {
        Cardinality { min: b.0, max: b.1 }
    }

    pub broadcast proof fn lemma_from_bounds_view(b: CardinalityBounds)
        ensures
            #[trigger] Cardinality::from_bounds(b)@ == b,
    {
    }

    pub broadcast proof fn lemma_view_injective(a: Cardinality, b: Cardinality)
        ensures
            #[trigger] a@ == #[trigger] b@ ==> a == b,
    {
    }

    /// The intersection of two constraints, as a spec value.
    pub open spec fn meet(self, other: Cardinality) -> Option<Cardinality> {
        match meet_bounds(self@, other@) {
            Some(b) => Some(Cardinality::from_bounds(b)),
            None => None,
        }
    }

    /// Zero or more messages, with no message-count constraint.
    pub fn unlimited() -> (r: Self)
        ensures
            r@ == (0usize, None::<usize>),
    {
        Self { min: 0, max: None }
    }

    /// Zero or one message.
    pub fn oneshot() -> (r: Self)
        ensures
            r@ == (0usize, Some(1usize)),
    {
        Self { min: 0, max: Some(1) }
    }

    /// Creates inclusive bounds, returning `None` if the minimum exceeds the maximum.
    pub fn new(min: usize, max: Option<usize>) -> (r: Option<Self>)
        ensures
            r is Some <==> valid_bounds((min, max)),
            r matches Some(c) ==> c@ == (min, max),
    {
        if let Some(max) = max {
            if min > max {
                return None;
            }
        }
        Some(Self { min, max })
    }

    /// Converts signed limits into validated bounds.
    ///
    /// `max == -1` means unlimited. The argument order matches port generics.
    pub fn from_limits(max: isize, min: isize) -> (r: Self)
        requires
            min >= 0,
            max >= -1,
            max == -1 || min <= max,
        ensures
            r@.0 == min,
            max == -1 ==> r@.1 is None,
            max != -1 ==> r@.1 == Some(max as usize),
    {
        Self {
            min: min as usize,
            max: if max == -1 { None } else { Some(max as usize) },
        }
    }

    /// Returns the inclusive minimum message count.
    pub fn min(self) -> (r: usize)
        ensures
            r == self@.0,
            self@.1 matches Some(max) ==> r <= max,
    {
        proof { use_type_invariant(self); }
        self.min
    }

    /// Returns the inclusive maximum message count, or `None` if unlimited.
    pub fn max(self) -> (r: Option<usize>)
        ensures
            r == self@.1,
            r matches Some(max) ==> self@.0 <= max,
    {
        proof { use_type_invariant(self); }
        self.max
    }

    /// Reports whether neither a positive minimum nor a finite maximum is imposed.
    pub fn is_unconstrained(self) -> (r: bool)
        ensures
            r <==> (self@.0 == 0 && self@.1 is None),
    {
        self.min == 0 && self.max.is_none()
    }

    /// Returns the equivalent standard-library bounds.
    pub fn bounds(self) -> (r: (Bound<usize>, Bound<usize>))
        ensures
            r.0 == Bound::Included(self@.0),
            r.1 == match self@.1 {
                Some(max) => Bound::Included(max),
                None => Bound::<usize>::Unbounded,
            },
    {
        (
            Bound::Included(self.min),
            match self.max {
                Some(max) => Bound::Included(max),
                None => Bound::Unbounded,
            },
        )
    }

    /// Intersects two constraints, returning `None` for disjoint ranges.
    pub fn intersection(self, other: Self) -> (r: Option<Self>)
        ensures
            r == self.meet(other),
            r matches Some(c) ==> c@ == meet_bounds(self@, other@)->0,
    {
        let max = match (self.max, other.max) {
            (Some(a), Some(b)) => Some(if a <= b { a } else { b }),
            (a, None) => a,
            (None, b) => b,
        };
        let min = if self.min >= other.min { self.min } else { other.min };
        let r = Self::new(min, max);
        proof {
            if let Some(c) = r {
                assert(c == Cardinality::from_bounds(meet_bounds(self@, other@)->0));
            }
        }
        r
    }

    /// Adds producer ranges for fan-in, returning `None` on arithmetic overflow.
    ///
    /// An unlimited producer makes the aggregate maximum unlimited.
    pub fn checked_add(self, other: Self) -> (r: Option<Self>)
        ensures
            r is Some <==> sum_bounds(self@, other@) is Some,
            r matches Some(c) ==> c@ == sum_bounds(self@, other@)->0,
    {
        proof {
            use_type_invariant(self);
            use_type_invariant(other);
        }
        let min = match self.min.checked_add(other.min) {
            Some(m) => m,
            None => return None,
        };
        let max = match (self.max, other.max) {
            (Some(a), Some(b)) => match a.checked_add(b) {
                Some(s) => Some(s),
                None => return None,
            },
            _ => None,
        };
        Some(Self { min, max })
    }
}

impl Default for Cardinality {
    fn default() -> (r: Self)
        ensures
            r@ == (0usize, None::<usize>),
    {
        Self::unlimited()
    }
}

} // verus!
