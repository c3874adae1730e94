use vstd::prelude::*;
use core::ops::RangeInclusive;
use super::port_id_map::{entry_keys, is_greatest, is_least, lemma_entries_map_len, PortIdMap};
use super::port_key::PortKey;

verus! {

/// A set of port IDs, kept in increasing order.
#[derive(Debug)]
pub struct PortIdSet<T: PortKey> {
    items: PortIdMap<T, ()>,
}

impl<T: PortKey> View for PortIdSet<T> {
    type V = Set<T>;

    open spec fn view(&self) -> Set<T> {
        self.items()@.dom()
    }
}

impl<T: PortKey> PortIdSet<T> {
    /// The underlying map from each member to `()`.
    pub closed spec fn items(self) -> PortIdMap<T, ()> {
        self.items
    }

    /// The members in increasing order.
    pub open spec fn sorted_items(self) -> Seq<T> {
        entry_keys(self.items().entries_seq())
    }

    /// Creates an empty set.
    pub fn new() -> (r: Self)
        ensures
            r@ == Set::<T>::empty(),
            r.sorted_items() == Seq::<T>::empty(),
    {
        let r = Self { items: PortIdMap::new() };
        assert(r@ =~= Set::<T>::empty());
        assert(r.sorted_items() =~= Seq::<T>::empty());
        r
    }

    /// Returns the smallest member, if any.
    pub fn first(&self) -> (r: Option<&T>)
        ensures
            r is None <==> self@.is_empty(),
            r matches Some(k) ==> self@.contains(*k) && is_least(self.items().entries_seq(), *k),
    {
        self.items.first()
    }

    /// Returns the largest member, if any.
    pub fn last(&self) -> (r: Option<&T>)
        ensures
            r is None <==> self@.is_empty(),
            r matches Some(k) ==> self@.contains(*k) && is_greatest(self.items().entries_seq(), *k),
    {
        self.items.last()
    }

    /// Adds `id`, returning `true` when it was not a member before.
    pub fn insert(&mut self, id: T) -> (r: bool)
        ensures
            final(self)@ == old(self)@.insert(id),
            r == !old(self)@.contains(id),
            final(self)@.finite(),
            final(self)@.len() == old(self)@.len() + if r {
                1nat
            } else {
                0nat
            },
            final(self).sorted_items().len() == final(self)@.len(),
    {
        proof {
            use_type_invariant(&self.items);
            lemma_entries_map_len(self.items().entries_seq());
        }
        let r = self.items.insert(id, ());
        assert(self@ =~= old(self)@.insert(id));
        proof {
            use_type_invariant(&self.items);
            lemma_entries_map_len(self.items().entries_seq());
        }
        r
    }

    /// Checks whether `id` is a member.
    pub fn contains(&self, id: T) -> (r: bool)
        ensures
            r == self@.contains(id),
    {
        self.items.contains(id)
    }

    /// Returns the number of members.
    pub fn len(&self) -> (r: usize)
        ensures
            r == self@.len(),
            r == self.sorted_items().len(),
    {
        self.items.len()
    }

    /// Checks whether the set has no members.
    pub fn is_empty(&self) -> (r: bool)
        ensures
            r == self@.is_empty(),
    {
        proof {
            use_type_invariant(&self.items);
            lemma_entries_map_len(self.items().entries_seq());
        }
        let r = self.items.is_empty();
        proof {
            if !r {
                let k = choose|k: T| self.items()@.contains_key(k);
                assert(self@.contains(k));
            }
        }
        r
    }

    /// Returns the members in increasing order.
    pub fn iter(&self) -> (r: Vec<&T>)
        ensures
            r@.len() == self.sorted_items().len(),
            forall|i: int| 0 <= i < r@.len() ==> *r@[i] == self.sorted_items()[i],
    {
        let mut r: Vec<&T> = Vec::new();
        let n = self.items.len();
        let mut i: usize = 0;
        while i < n
            invariant
                n == self.items().entries_seq().len(),
                i <= n,
                r@.len() == i,
                forall|j: int| 0 <= j < i ==> *r@[j] == self.sorted_items()[j],
            decreases n - i,
        {
            let (k, _) = self.items.entry(i);
            r.push(k);
            i = i + 1;
        }
        r
    }
}

impl<T: PortKey + Copy> PortIdSet<T> {
    /// Returns the inclusive range from the smallest to the largest member, if any.
    pub fn range(&self) -> (r: Option<RangeInclusive<T>>)
        ensures
            r is None <==> self@.is_empty(),
            r matches Some(range) ==> {
                &&& self@.contains(range@.start)
                &&& self@.contains(range@.end)
                &&& is_least(self.items().entries_seq(), range@.start)
                &&& is_greatest(self.items().entries_seq(), range@.end)
                &&& !range@.exhausted
            },
    {
        self.items.range()
    }
}

impl<T: PortKey + Copy> Clone for PortIdSet<T> {
    fn clone(&self) -> (r: Self)
        ensures
            r.sorted_items() == self.sorted_items(),
            r@ == self@,
    {
        Self { items: self.items.clone() }
    }
}

impl<T: PortKey> Default for PortIdSet<T> {
    fn default() -> (r: Self)
        ensures
            r@ == Set::<T>::empty(),
    {
        Self::new()
    }
}

} // verus!
