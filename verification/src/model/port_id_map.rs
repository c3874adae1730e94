use vstd::prelude::*;
use core::ops::RangeInclusive;
use super::port_key::{key_less, key_lt, KeyTriple, PortKey};

verus! {

/// Entries are strictly increasing by key, so no key occurs twice.
pub open spec fn sorted_entries<K: PortKey, V>(s: Seq<(K, V)>) -> bool {
    forall|i: int, j: int| 0 <= i < j < s.len() ==> key_lt(s[i].0.key_of(), s[j].0.key_of())
}

/// Whether some entry of `s` has key `k`.
pub open spec fn has_key<K, V>(s: Seq<(K, V)>, k: K) -> bool {
    exists|i: int| 0 <= i < s.len() && s[i].0 == k
}

/// The map that a sequence of entries with distinct keys describes.
pub open spec fn entries_map<K, V>(s: Seq<(K, V)>) -> Map<K, V> {
    Map::new(
        |k: K| has_key(s, k),
        |k: K| s[choose|i: int| 0 <= i < s.len() && s[i].0 == k].1,
    )
}

/// The keys of a sequence of entries, in order.
pub open spec fn entry_keys<K, V>(s: Seq<(K, V)>) -> Seq<K> {
    s.map_values(|e: (K, V)| e.0)
}

/// The key triple of `k` is not above any key of `s`.
pub open spec fn is_least<K: PortKey, V>(s: Seq<(K, V)>, k: K) -> bool {
    forall|i: int| 0 <= i < s.len() ==> !key_lt(s[i].0.key_of(), k.key_of())
}

/// The key triple of `k` is not below any key of `s`.
pub open spec fn is_greatest<K: PortKey, V>(s: Seq<(K, V)>, k: K) -> bool {
    forall|i: int| 0 <= i < s.len() ==> !key_lt(k.key_of(), s[i].0.key_of())
}

/// Each entry of a sorted sequence is found in its map with its own value.
pub proof fn lemma_entries_map_at<K: PortKey, V>(s: Seq<(K, V)>, i: int)
    requires
        sorted_entries(s),
        0 <= i < s.len(),
    ensures
        entries_map(s).contains_key(s[i].0),
        entries_map(s)[s[i].0] == s[i].1,
{
    assert(has_key(s, s[i].0));
    let j = choose|j: int| 0 <= j < s.len() && s[j].0 == s[i].0;
    if j < i {
        assert(key_lt(s[j].0.key_of(), s[i].0.key_of()));
    } else if i < j {
        assert(key_lt(s[i].0.key_of(), s[j].0.key_of()));
    }
}

/// The map of a sorted sequence has exactly as many keys as the sequence has entries.
pub proof fn lemma_entries_map_len<K: PortKey, V>(s: Seq<(K, V)>)
    requires
        sorted_entries(s),
    ensures
        entries_map(s).dom() == entry_keys(s).to_set(),
        entries_map(s).dom().finite(),
        entries_map(s).len() == s.len(),
{
    let ks = entry_keys(s);
    assert(entries_map(s).dom() =~= ks.to_set()) by {
        assert forall|k: K| entries_map(s).dom().contains(k) implies ks.to_set().contains(k) by {
            let i = choose|i: int| 0 <= i < s.len() && s[i].0 == k;
            assert(ks[i] == k);
        }
        assert forall|k: K| ks.to_set().contains(k) implies entries_map(s).dom().contains(k) by {
            let i = choose|i: int| 0 <= i < ks.len() && ks[i] == k;
            assert(s[i].0 == k);
        }
    }
    assert(ks.no_duplicates()) by {
        assert forall|i: int, j: int| 0 <= i < ks.len() && 0 <= j < ks.len() && i != j implies ks[i]
            != ks[j] by {
            if i < j {
                assert(key_lt(s[i].0.key_of(), s[j].0.key_of()));
            } else {
                assert(key_lt(s[j].0.key_of(), s[i].0.key_of()));
            }
        }
    }
    ks.unique_seq_to_set();
    vstd::seq_lib::seq_to_set_is_finite(ks);
}

/// A map of port IDs to arbitrary values, kept in increasing order of its keys.
///
/// The entries are a vector sorted by each key's [`KeyTriple`], so contracts can
/// speak of them in key order ([`PortIdMap::entries_seq`]), of the first and
/// last key, and of the entry at a position. That order is stated here over
/// integers rather than taken from the keys' derived `Ord`, which the proofs
/// cannot read; the triple also keeps an input and an output with the same
/// raw ID apart.
#[derive(Debug)]
pub struct PortIdMap<K: PortKey, V> {
    entries: Vec<(K, V)>,
}

impl<K: PortKey, V> View for PortIdMap<K, V> {
    type V = Map<K, V>;

    open spec fn view(&self) -> Map<K, V> {
        entries_map(self.entries_seq())
    }
}

impl<K: PortKey, V> PortIdMap<K, V> {
    /// The entries in increasing key order.
    pub closed spec fn entries_seq(self) -> Seq<(K, V)> {
        self.entries@
    }

    /// The entries are strictly increasing by key.
    #[verifier::type_invariant]
    pub open spec fn inv(self) -> bool {
        sorted_entries(self.entries_seq())
    }

    /// Creates an empty map.
    pub fn new() -> (r: Self)
        ensures
            r@ == Map::<K, V>::empty(),
            r.entries_seq() == Seq::<(K, V)>::empty(),
    {
        let r = Self { entries: Vec::new() };
        assert(r@ =~= Map::<K, V>::empty());
        r
    }

    /// Finds the position of `id`: the number of entries with smaller keys,
    /// and whether the entry at that position has key `id`.
    fn search(&self, id: &K) -> (r: (usize, bool))
        ensures
            r.0 <= self.entries_seq().len(),
            forall|i: int| 0 <= i < r.0 ==> key_lt(self.entries_seq()[i].0.key_of(), id.key_of()),
            r.1 <==> (r.0 < self.entries_seq().len() && self.entries_seq()[r.0 as int].0 == *id),
            r.0 < self.entries_seq().len() && !r.1 ==> key_lt(
                id.key_of(),
                self.entries_seq()[r.0 as int].0.key_of(),
            ),
    {
        proof { use_type_invariant(self); }
        let key: KeyTriple = id.key();
        let mut i: usize = 0;
        while i < self.entries.len()
            invariant
                i <= self.entries@.len(),
                key == id.key_of(),
                forall|j: int| 0 <= j < i ==> key_lt(self.entries@[j].0.key_of(), key),
            decreases self.entries@.len() - i,
        {
            let k: KeyTriple = self.entries[i].0.key();
            if !key_less(k, key) {
                proof { K::lemma_key_injective(self.entries@[i as int].0, *id); }
                if k.0 == key.0 && k.1 == key.1 && k.2 == key.2 {
                    return (i, true);
                }
                return (i, false);
            }
            i = i + 1;
        }
        (i, false)
    }

    /// Returns the smallest key, if any.
    pub fn first(&self) -> (r: Option<&K>)
        ensures
            r is None <==> self@.is_empty(),
            r matches Some(k) ==> self@.contains_key(*k) && is_least(self.entries_seq(), *k),
    {
        proof {
            use_type_invariant(self);
            lemma_entries_map_len(self.entries@);
        }
        if self.entries.len() == 0 {
            assert(self@.dom() =~= Set::<K>::empty());
            None
        } else {
            proof {
                lemma_entries_map_at(self.entries@, 0);
                assert forall|i: int| #![trigger self.entries@[i]] 0 <= i < self.entries@.len() implies !key_lt(
                    self.entries@[i].0.key_of(),
                    self.entries@[0].0.key_of(),
                ) by {
                    if i > 0 {
                        assert(key_lt(self.entries@[0].0.key_of(), self.entries@[i].0.key_of()));
                    }
                }
            }
            Some(&self.entries[0].0)
        }
    }

    /// Returns the largest key, if any.
    pub fn last(&self) -> (r: Option<&K>)
        ensures
            r is None <==> self@.is_empty(),
            r matches Some(k) ==> self@.contains_key(*k) && is_greatest(self.entries_seq(), *k),
    {
        proof {
            use_type_invariant(self);
            lemma_entries_map_len(self.entries@);
        }
        let n = self.entries.len();
        if n == 0 {
            assert(self@.dom() =~= Set::<K>::empty());
            None
        } else {
            proof {
                lemma_entries_map_at(self.entries@, n - 1);
                assert forall|i: int| #![trigger self.entries@[i]] 0 <= i < self.entries@.len() implies !key_lt(
                    self.entries@[n - 1].0.key_of(),
                    self.entries@[i].0.key_of(),
                ) by {
                    if i < n - 1 {
                        assert(key_lt(self.entries@[i].0.key_of(), self.entries@[n - 1].0.key_of()));
                    }
                }
            }
            Some(&self.entries[n - 1].0)
        }
    }

    /// Removes every entry.
    pub fn clear(&mut self)
        ensures
            final(self)@ == Map::<K, V>::empty(),
    {
        self.entries = Vec::new();
        assert(entries_map(self.entries@) =~= Map::<K, V>::empty());
    }

    /// Removes `id` and returns its value, if it was present.
    pub fn remove(&mut self, id: &K) -> (r: Option<V>)
        ensures
            final(self)@ == old(self)@.remove(*id),
            r is Some <==> old(self)@.contains_key(*id),
            r matches Some(v) ==> v == old(self)@[*id],
    {
        proof { use_type_invariant(&*self); }
        let (pos, found) = self.search(id);
        let ghost old_s = self.entries@;
        if !found {
            proof {
                assert(!has_key(old_s, *id)) by {
                    if has_key(old_s, *id) {
                        let i = choose|i: int| 0 <= i < old_s.len() && old_s[i].0 == *id;
                        if i < pos {
                            assert(key_lt(old_s[i].0.key_of(), id.key_of()));
                        } else if i > pos {
                            assert(key_lt(id.key_of(), old_s[pos as int].0.key_of()));
                            assert(key_lt(old_s[pos as int].0.key_of(), old_s[i].0.key_of()));
                        }
                    }
                }
                assert(entries_map(old_s).remove(*id) =~= entries_map(old_s));
            }
            return None;
        }
        let mut entries: Vec<(K, V)> = Vec::new();
        core::mem::swap(&mut entries, &mut self.entries);
        let removed = entries.remove(pos);
        proof {
            let s = entries@;
            assert(s =~= old_s.remove(pos as int));
            lemma_entries_map_at(old_s, pos as int);
            assert(sorted_entries(s)) by {
                assert forall|i: int, j: int| 0 <= i < j < s.len() implies key_lt(
                    s[i].0.key_of(),
                    s[j].0.key_of(),
                ) by {
                    let oi = if i < pos { i } else { i + 1 };
                    let oj = if j < pos { j } else { j + 1 };
                    assert(s[i] == old_s[oi] && s[j] == old_s[oj]);
                }
            }
            assert(entries_map(s) =~= entries_map(old_s).remove(*id)) by {
                assert forall|k: K| #[trigger] entries_map(s).contains_key(k) <==> entries_map(
                    old_s,
                ).remove(*id).contains_key(k) by {
                    if has_key(s, k) {
                        let i = choose|i: int| 0 <= i < s.len() && s[i].0 == k;
                        let oi = if i < pos { i } else { i + 1 };
                        assert(old_s[oi].0 == k);
                        if k == *id {
                            if oi < pos {
                                assert(key_lt(old_s[oi].0.key_of(), old_s[pos as int].0.key_of()));
                            } else {
                                assert(key_lt(old_s[pos as int].0.key_of(), old_s[oi].0.key_of()));
                            }
                        }
                    }
                    if has_key(old_s, k) && k != *id {
                        let i = choose|i: int| 0 <= i < old_s.len() && old_s[i].0 == k;
                        assert(i != pos);
                        let si = if i < pos { i } else { i - 1 };
                        assert(s[si].0 == k);
                    }
                }
                assert forall|k: K| #[trigger] entries_map(s).contains_key(k) implies entries_map(
                    s,
                )[k] == entries_map(old_s).remove(*id)[k] by {
                    let i = choose|i: int| 0 <= i < s.len() && s[i].0 == k;
                    lemma_entries_map_at(s, i);
                    let oi = if i < pos { i } else { i + 1 };
                    lemma_entries_map_at(old_s, oi);
                }
            }
        }
        self.entries = entries;
        Some(removed.1)
    }

    /// Associates `value` with `id`, replacing any previous value.
    ///
    /// Returns `true` when `id` was not present before.
    pub fn insert(&mut self, id: K, value: V) -> (r: bool)
        ensures
            final(self)@ == old(self)@.insert(id, value),
            r == !old(self)@.contains_key(id),
    {
        proof { use_type_invariant(&*self); }
        let (pos, found) = self.search(&id);
        let ghost old_s = self.entries@;
        let mut entries: Vec<(K, V)> = Vec::new();
        core::mem::swap(&mut entries, &mut self.entries);
        if found {
            entries.set(pos, (id, value));
            proof {
                let s = entries@;
                assert(sorted_entries(s)) by {
                    assert forall|i: int, j: int| 0 <= i < j < s.len() implies key_lt(
                        s[i].0.key_of(),
                        s[j].0.key_of(),
                    ) by {
                        assert(old_s[i].0 == s[i].0 && old_s[j].0 == s[j].0);
                    }
                }
                lemma_entries_map_at(old_s, pos as int);
                assert(entries_map(s) =~= entries_map(old_s).insert(id, value)) by {
                    assert forall|k: K| #[trigger] entries_map(s).contains_key(k) <==> entries_map(
                        old_s,
                    ).insert(id, value).contains_key(k) by {
                        if has_key(s, k) {
                            let i = choose|i: int| 0 <= i < s.len() && s[i].0 == k;
                            assert(old_s[i].0 == k);
                        }
                        if has_key(old_s, k) {
                            let i = choose|i: int| 0 <= i < old_s.len() && old_s[i].0 == k;
                            assert(s[i].0 == k);
                        }
                    }
                    assert forall|k: K| #[trigger] entries_map(s).contains_key(k) implies entries_map(
                        s,
                    )[k] == entries_map(old_s).insert(id, value)[k] by {
                        let i = choose|i: int| 0 <= i < s.len() && s[i].0 == k;
                        lemma_entries_map_at(s, i);
                        assert(s[pos as int] == (id, value));
                        if i != pos {
                            lemma_entries_map_at(old_s, i);
                            assert(old_s[i] == s[i]);
                            if i < pos {
                                assert(key_lt(s[i].0.key_of(), s[pos as int].0.key_of()));
                            } else {
                                assert(key_lt(s[pos as int].0.key_of(), s[i].0.key_of()));
                            }
                            assert(k != id);
                        } else {
                            assert(k == id);
                        }
                    }
                }
            }
            self.entries = entries;
            false
        } else {
            entries.insert(pos, (id, value));
            proof {
                let s = entries@;
                assert(s == old_s.insert(pos as int, (id, value)));
                assert(!has_key(old_s, id)) by {
                    if has_key(old_s, id) {
                        let i = choose|i: int| 0 <= i < old_s.len() && old_s[i].0 == id;
                        if i < pos {
                            assert(key_lt(old_s[i].0.key_of(), id.key_of()));
                        } else if i > pos {
                            assert(key_lt(id.key_of(), old_s[pos as int].0.key_of()));
                            assert(key_lt(old_s[pos as int].0.key_of(), old_s[i].0.key_of()));
                        }
                    }
                }
                assert(sorted_entries(s)) by {
                    assert forall|i: int, j: int| 0 <= i < j < s.len() implies key_lt(
                        s[i].0.key_of(),
                        s[j].0.key_of(),
                    ) by {
                        if j < pos {
                        } else if j == pos {
                        } else if i < pos {
                            assert(s[j] == old_s[j - 1]);
                            if pos < old_s.len() {
                                assert(key_lt(id.key_of(), old_s[pos as int].0.key_of()));
                                if j - 1 > pos {
                                    assert(key_lt(old_s[pos as int].0.key_of(), old_s[j - 1].0.key_of()));
                                }
                            }
                        } else if i == pos {
                            assert(s[j] == old_s[j - 1]);
                            assert(key_lt(id.key_of(), old_s[pos as int].0.key_of()));
                            if j - 1 > pos {
                                assert(key_lt(old_s[pos as int].0.key_of(), old_s[j - 1].0.key_of()));
                            }
                        } else {
                            assert(s[i] == old_s[i - 1] && s[j] == old_s[j - 1]);
                        }
                    }
                }
                assert(entries_map(s) =~= entries_map(old_s).insert(id, value)) by {
                    assert forall|k: K| #[trigger] entries_map(s).contains_key(k) <==> entries_map(
                        old_s,
                    ).insert(id, value).contains_key(k) by {
                        if has_key(s, k) {
                            let i = choose|i: int| 0 <= i < s.len() && s[i].0 == k;
                            if i < pos {
                                assert(old_s[i].0 == k);
                            } else if i > pos {
                                assert(old_s[i - 1].0 == k);
                            }
                        }
                        if has_key(old_s, k) {
                            let i = choose|i: int| 0 <= i < old_s.len() && old_s[i].0 == k;
                            if i < pos {
                                assert(s[i].0 == k);
                            } else {
                                assert(s[i + 1].0 == k);
                            }
                        }
                        if k == id {
                            assert(s[pos as int].0 == k);
                        }
                    }
                    assert forall|k: K| #[trigger] entries_map(s).contains_key(k) implies entries_map(
                        s,
                    )[k] == entries_map(old_s).insert(id, value)[k] by {
                        let i = choose|i: int| 0 <= i < s.len() && s[i].0 == k;
                        lemma_entries_map_at(s, i);
                        if i < pos {
                            lemma_entries_map_at(old_s, i);
                        } else if i > pos {
                            lemma_entries_map_at(old_s, i - 1);
                        }
                    }
                }
            }
            self.entries = entries;
            true
        }
    }

    /// Checks whether `id` is a key of the map.
    pub fn contains(&self, id: K) -> (r: bool)
        ensures
            r == self@.contains_key(id),
    {
        let (pos, found) = self.search(&id);
        proof {
            use_type_invariant(self);
            if found {
                lemma_entries_map_at(self.entries@, pos as int);
            } else if has_key(self.entries@, id) {
                let s = self.entries@;
                let i = choose|i: int| 0 <= i < s.len() && s[i].0 == id;
                if i < pos {
                    assert(key_lt(s[i].0.key_of(), id.key_of()));
                } else if i > pos {
                    assert(key_lt(id.key_of(), s[pos as int].0.key_of()));
                    assert(key_lt(s[pos as int].0.key_of(), s[i].0.key_of()));
                }
            }
        }
        found
    }

    /// Returns the value associated with `id`, if any.
    pub fn get(&self, id: &K) -> (r: Option<&V>)
        ensures
            r is Some <==> self@.contains_key(*id),
            r matches Some(v) ==> *v == self@[*id],
    {
        let (pos, found) = self.search(id);
        proof {
            use_type_invariant(self);
            if found {
                lemma_entries_map_at(self.entries@, pos as int);
            } else if has_key(self.entries@, *id) {
                let s = self.entries@;
                let i = choose|i: int| 0 <= i < s.len() && s[i].0 == *id;
                if i < pos {
                    assert(key_lt(s[i].0.key_of(), id.key_of()));
                } else if i > pos {
                    assert(key_lt(id.key_of(), s[pos as int].0.key_of()));
                    assert(key_lt(s[pos as int].0.key_of(), s[i].0.key_of()));
                }
            }
        }
        if found {
            Some(&self.entries[pos].1)
        } else {
            None
        }
    }

    /// Returns the number of entries.
    pub fn len(&self) -> (r: usize)
        ensures
            r == self@.len(),
            r == self.entries_seq().len(),
    {
        proof {
            use_type_invariant(self);
            lemma_entries_map_len(self.entries@);
        }
        self.entries.len()
    }

    /// Checks whether the map has no entries.
    pub fn is_empty(&self) -> (r: bool)
        ensures
            r == self@.is_empty(),
    {
        proof {
            use_type_invariant(self);
            lemma_entries_map_len(self.entries@);
            if self.entries@.len() > 0 {
                lemma_entries_map_at(self.entries@, 0);
            } else {
                assert(self@.dom() =~= Set::<K>::empty());
            }
        }
        self.entries.len() == 0
    }

    /// Returns the entry at position `i` in increasing key order.
    pub fn entry(&self, i: usize) -> (r: (&K, &V))
        requires
            i < self.entries_seq().len(),
        ensures
            (*r.0, *r.1) == self.entries_seq()[i as int],
    {
        (&self.entries[i].0, &self.entries[i].1)
    }

    /// Returns the entries in increasing key order.
    pub fn iter(&self) -> (r: Vec<(&K, &V)>)
        ensures
            r@.len() == self.entries_seq().len(),
            forall|i: int| 0 <= i < r@.len() ==> (*r@[i].0, *r@[i].1) == self.entries_seq()[i],
    {
        let mut r: Vec<(&K, &V)> = Vec::new();
        let mut i: usize = 0;
        while i < self.entries.len()
            invariant
                i <= self.entries@.len(),
                r@.len() == i,
                forall|j: int| 0 <= j < i ==> (*r@[j].0, *r@[j].1) == self.entries@[j],
            decreases self.entries@.len() - i,
        {
            r.push((&self.entries[i].0, &self.entries[i].1));
            i = i + 1;
        }
        r
    }

}

impl<K: PortKey + Copy, V> PortIdMap<K, V> {
    /// Returns the inclusive range from the smallest to the largest key, if any.
    pub fn range(&self) -> (r: Option<RangeInclusive<K>>)
        ensures
            r is None <==> self@.is_empty(),
            r matches Some(range) ==> {
                &&& self@.contains_key(range@.start)
                &&& self@.contains_key(range@.end)
                &&& is_least(self.entries_seq(), range@.start)
                &&& is_greatest(self.entries_seq(), range@.end)
                &&& !range@.exhausted
            },
    {
        match self.first() {
            None => None,
            Some(min) => match self.last() {
                Some(max) => Some(RangeInclusive::new(*min, *max)),
                None => None,
            },
        }
    }
}

impl<K: PortKey + Copy, V: Clone> Clone for PortIdMap<K, V> {
    /// Copies the keys and clones the values, keeping the key order.
    fn clone(&self) -> (r: Self)
        ensures
            entry_keys(r.entries_seq()) == entry_keys(self.entries_seq()),
            r@.dom() == self@.dom(),
    {
        proof { use_type_invariant(self); }
        let mut entries: Vec<(K, V)> = Vec::new();
        let mut i: usize = 0;
        while i < self.entries.len()
            invariant
                i <= self.entries@.len(),
                entries@.len() == i,
                sorted_entries(self.entries@),
                forall|j: int| 0 <= j < i ==> #[trigger] entries@[j].0 == self.entries@[j].0,
            decreases self.entries@.len() - i,
        {
            let key = self.entries[i].0;
            let value = self.entries[i].1.clone();
            entries.push((key, value));
            i = i + 1;
        }
        assert(sorted_entries(entries@)) by {
            assert forall|a: int, b: int| 0 <= a < b < entries@.len() implies key_lt(
                entries@[a].0.key_of(),
                entries@[b].0.key_of(),
            ) by {
                assert(entries@[a].0 == self.entries@[a].0);
                assert(entries@[b].0 == self.entries@[b].0);
            }
        }
        let r = Self { entries };
        assert(entry_keys(r.entries_seq()) =~= entry_keys(self.entries_seq()));
        proof {
            lemma_entries_map_len(r.entries_seq());
            lemma_entries_map_len(self.entries_seq());
        }
        r
    }
}

impl<K: PortKey, V> Default for PortIdMap<K, V> {
    fn default() -> (r: Self)
        ensures
            r@ == Map::<K, V>::empty(),
    {
        Self::new()
    }
}

} // verus!
