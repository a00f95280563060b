//! A map from names to values that keeps the order in which the names came.

use vstd::prelude::*;

verus! {

/// A map keyed by strings whose entries stay in the order of their first
/// insertion.
///
/// A map that is only changed through [`OrderedMap::insert`] holds every key once.
#[derive(Debug, PartialEq)]
pub struct OrderedMap<V> {
    /// The entries, oldest first.
    pub entries: Vec<(String, V)>,
}

/// The index of the first entry of `entries`, at or after `from`, whose key is
/// `key`; the length of `entries` if there is none.
pub open spec fn position_from<V>(entries: Seq<(Seq<char>, V)>, key: Seq<char>, from: int) -> int
    decreases entries.len() - from,
{
    if from < 0 || from >= entries.len() {
        entries.len() as int
    } else if entries[from].0 == key {
        from
    } else {
        position_from(entries, key, from + 1)
    }
}

/// The index of the first entry whose key is `key`; the length of `entries`
/// if there is none.
pub open spec fn position<V>(entries: Seq<(Seq<char>, V)>, key: Seq<char>) -> int {
    position_from(entries, key, 0)
}

/// The entries after `key` has been given `value`: the first entry with that
/// key takes the value and keeps its place; without such an entry a new one
/// comes last.
pub open spec fn inserted<V>(entries: Seq<(Seq<char>, V)>, key: Seq<char>, value: V) -> Seq<
    (Seq<char>, V),
> {
    let i = position(entries, key);
    if i < entries.len() {
        entries.update(i, (key, value))
    } else {
        entries.push((key, value))
    }
}

/// The entries of the map that takes the first `n` of `pairs` one after the
/// other, starting empty.
pub open spec fn collected<V>(pairs: Seq<(Seq<char>, V)>, n: int) -> Seq<(Seq<char>, V)>
    decreases n,
{
    if n <= 0 || n > pairs.len() {
        Seq::empty()
    } else {
        inserted(collected(pairs, n - 1), pairs[n - 1].0, pairs[n - 1].1)
    }
}

/// Whether no two entries have the same key.
pub open spec fn distinct_keys<V>(entries: Seq<(Seq<char>, V)>) -> bool {
    forall|i: int, j: int|
        0 <= i < j < entries.len() ==> (#[trigger] entries[i]).0 != (#[trigger] entries[j]).0
}

/// The entries of a vector of pairs, each key by its characters.
pub open spec fn pairs_view<V>(pairs: Seq<(String, V)>) -> Seq<(Seq<char>, V)> {
    Seq::new(pairs.len(), |i: int| (pairs[i].0@, pairs[i].1))
}

impl<V> View for OrderedMap<V> {
    type V = Seq<(Seq<char>, V)>;

    open spec fn view(&self) -> Seq<(Seq<char>, V)> {
        pairs_view(self.entries@)
    }
}

/// The position of a key is an index of an entry with that key, or the length.
pub proof fn position_from_bounds<V>(entries: Seq<(Seq<char>, V)>, key: Seq<char>, from: int)
    requires
        0 <= from <= entries.len(),
    ensures
        from <= position_from(entries, key, from) <= entries.len(),
        position_from(entries, key, from) < entries.len() ==> entries[position_from(
            entries,
            key,
            from,
        )].0 == key,
        forall|j: int|
            from <= j < position_from(entries, key, from) ==> (#[trigger] entries[j]).0 != key,
    decreases entries.len() - from,
{
    if from < entries.len() && entries[from].0 != key {
        position_from_bounds(entries, key, from + 1);
    }
}

/// Giving a key a value keeps the keys distinct.
pub proof fn inserted_keeps_distinct<V>(entries: Seq<(Seq<char>, V)>, key: Seq<char>, value: V)
    requires
        distinct_keys(entries),
    ensures
        distinct_keys(inserted(entries, key, value)),
{
    position_from_bounds(entries, key, 0);
    let r = inserted(entries, key, value);
    let p = position(entries, key);
    assert forall|i: int, j: int| 0 <= i < j < r.len() implies (#[trigger] r[i]).0 != (
    #[trigger] r[j]).0 by {
        if p < entries.len() {
            if i != p {
                assert(r[i] == entries[i]);
            }
            if j != p {
                assert(r[j] == entries[j]);
            }
            assert(entries[p].0 == key);
            assert(entries[i].0 != entries[j].0);
        } else {
            if j < entries.len() {
                assert(entries[i].0 != entries[j].0);
            } else {
                assert(entries[i].0 != key);
            }
        }
    }
}

/// Every key after an insertion is the key that was inserted or a key that
/// was there before.
pub proof fn inserted_keys<V>(entries: Seq<(Seq<char>, V)>, key: Seq<char>, value: V)
    ensures
        forall|i: int|
            0 <= i < inserted(entries, key, value).len() ==> (#[trigger] inserted(
                entries,
                key,
                value,
            )[i]).0 == key || (0 <= i < entries.len() && entries[i].0 == inserted(
                entries,
                key,
                value,
            )[i].0),
{
    position_from_bounds(entries, key, 0);
}

/// What is collected holds every key once, whatever the pairs are.
pub proof fn collected_keeps_distinct<V>(pairs: Seq<(Seq<char>, V)>, n: int)
    ensures
        distinct_keys(collected(pairs, n)),
    decreases n,
{
    if n > 0 && n <= pairs.len() {
        collected_keeps_distinct(pairs, n - 1);
        inserted_keeps_distinct(collected(pairs, n - 1), pairs[n - 1].0, pairs[n - 1].1);
    }
}

/// Pairs with distinct keys are collected as they stand: in their order, each
/// with its value.
pub proof fn collected_of_distinct<V>(pairs: Seq<(Seq<char>, V)>, n: int)
    requires
        distinct_keys(pairs),
        0 <= n <= pairs.len(),
    ensures
        collected(pairs, n) == pairs.take(n),
    decreases n,
{
    if n > 0 {
        collected_of_distinct(pairs, n - 1);
        let before = pairs.take(n - 1);
        position_from_bounds(before, pairs[n - 1].0, 0);
        let p = position(before, pairs[n - 1].0);
        if p < before.len() {
            assert(before[p] == pairs[p]);
            assert(pairs[p].0 != pairs[n - 1].0);
        }
        assert(before.push(pairs[n - 1]) =~= pairs.take(n));
    } else {
        assert(pairs.take(0) =~= Seq::<(Seq<char>, V)>::empty());
    }
}

impl<V> OrderedMap<V> {
    /// Whether the map holds every key once.
    pub open spec fn well_formed(self) -> bool {
        distinct_keys(self@)
    }

    /// The map without entries.
    pub fn new() -> (r: Self)
        ensures
            r@ == Seq::<(Seq<char>, V)>::empty(),
            r.well_formed(),
    {
        let r = OrderedMap { entries: Vec::new() };
        assert(r@ =~= Seq::<(Seq<char>, V)>::empty());
        r
    }

    /// The number of entries.
    pub fn len(&self) -> (r: usize)
        ensures
            r == self@.len(),
    {
        self.entries.len()
    }

    /// Whether the map has no entry.
    pub fn is_empty(&self) -> (r: bool)
        ensures
            r == (self@.len() == 0),
    {
        self.entries.len() == 0
    }

    /// The index of the entry of `key`, if there is one.
    pub fn find(&self, key: &String) -> (r: Option<usize>)
        ensures
            match r {
                Some(i) => i < self@.len() && i == position(self@, key@),
                None => position(self@, key@) == self@.len(),
            },
    {
        let mut i: usize = 0;
        while i < self.entries.len()
            invariant
                i <= self.entries.len(),
                position(self@, key@) == position_from(self@, key@, i as int),
            decreases self.entries.len() - i,
        {
            if self.entries[i].0 == *key {
                return Some(i);
            }
            i = i + 1;
        }
        None
    }

    /// The value of `key`, if the map holds the key.
    pub fn get(&self, key: &String) -> (r: Option<&V>)
        ensures
            match r {
                Some(v) => position(self@, key@) < self@.len() && *v == self@[position(
                    self@,
                    key@,
                )].1,
                None => position(self@, key@) == self@.len(),
            },
    {
        match self.find(key) {
            Some(i) => Some(&self.entries[i].1),
            None => None,
        }
    }

    /// Gives `key` the value `value`: in place where the map holds the key, as
    /// a new last entry where it does not.
    pub fn insert(&mut self, key: String, value: V)
        ensures
            final(self)@ == inserted(old(self)@, key@, value),
            old(self).well_formed() ==> final(self).well_formed(),
    {
        proof {
            if old(self).well_formed() {
                inserted_keeps_distinct(old(self)@, key@, value);
            }
        }
        match self.find(&key) {
            Some(i) => {
                self.entries.set(i, (key, value));
                assert(self@ =~= inserted(old(self)@, key@, value));
            },
            None => {
                self.entries.push((key, value));
                assert(self@ =~= inserted(old(self)@, key@, value));
            },
        }
    }

    /// The map that takes the pairs one after the other, starting empty.
    pub fn from_pairs(pairs: Vec<(String, V)>) -> (r: Self)
        ensures
            r@ == collected(pairs_view(pairs@), pairs@.len() as int),
            r.well_formed(),
    {
        let ghost all = pairs_view(pairs@);
        proof {
            collected_keeps_distinct(all, pairs@.len() as int);
        }
        let mut map = OrderedMap::new();
        for pair in it: pairs
            invariant
                all == pairs_view(it.seq()),
                map@ == collected(all, it.index() as int),
        {
            let (key, value) = pair;
            map.insert(key, value);
        }
        map
    }
}

impl<V> Default for OrderedMap<V> {
    fn default() -> (r: Self)
        ensures
            r@ == Seq::<(Seq<char>, V)>::empty(),
            r.well_formed(),
    {
        OrderedMap::new()
    }
}

} // verus!
