//! A map from strings to values that keeps its entries in the order in
//! which their keys first came.

use vstd::prelude::*;

verus! {

/// The keys and the viewed values of `entries[..upto]`; of two entries that
/// share a key, the later stays.
pub open spec fn pairs_map<W>(pairs: Seq<(Seq<char>, W)>, upto: nat) -> Map<Seq<char>, W>
    decreases upto,
{
    if upto == 0 || upto > pairs.len() {
        Map::empty()
    } else {
        pairs_map(pairs, (upto - 1) as nat).insert(pairs[upto - 1].0, pairs[upto - 1].1)
    }
}

/// Whether no key stands twice among `pairs`.
pub open spec fn distinct_keys<W>(pairs: Seq<(Seq<char>, W)>) -> bool {
    forall|i: int, j: int|
        0 <= i < j < pairs.len() ==> (#[trigger] pairs[i]).0 != (#[trigger] pairs[j]).0
}

/// A map reads only the entries that it is asked for.
pub proof fn pairs_map_prefix<W>(a: Seq<(Seq<char>, W)>, b: Seq<(Seq<char>, W)>, upto: nat)
    requires
        upto <= a.len(),
        upto <= b.len(),
        forall|i: int| 0 <= i < upto ==> a[i] == b[i],
    ensures
        pairs_map(a, upto) == pairs_map(b, upto),
    decreases upto,
{
    if upto > 0 {
        pairs_map_prefix(a, b, (upto - 1) as nat);
    }
}

/// The keys of the map are those of the entries.
pub proof fn pairs_map_dom<W>(pairs: Seq<(Seq<char>, W)>, upto: nat, key: Seq<char>)
    requires
        upto <= pairs.len(),
    ensures
        pairs_map(pairs, upto).dom().contains(key) <==> exists|i: int|
            0 <= i < upto && (#[trigger] pairs[i]).0 == key,
    decreases upto,
{
    if upto > 0 {
        pairs_map_dom(pairs, (upto - 1) as nat, key);
        if pairs[upto - 1].0 == key {
            assert(pairs[upto - 1].0 == key);
        } else if pairs_map(pairs, upto).dom().contains(key) {
            let i = choose|i: int| 0 <= i < upto - 1 && (#[trigger] pairs[i]).0 == key;
            assert(pairs[i].0 == key);
        }
    }
}

/// Where no key stands twice, each entry is what the map holds under its
/// key.
pub proof fn pairs_map_at<W>(pairs: Seq<(Seq<char>, W)>, upto: nat, i: int)
    requires
        upto <= pairs.len(),
        0 <= i < upto,
        distinct_keys(pairs),
    ensures
        pairs_map(pairs, upto).dom().contains(pairs[i].0),
        pairs_map(pairs, upto)[pairs[i].0] == pairs[i].1,
    decreases upto,
{
    if i < upto - 1 {
        pairs_map_at(pairs, (upto - 1) as nat, i);
        assert(pairs[i].0 != pairs[upto - 1].0);
    }
}

/// Where no key stands twice, to replace the value of an entry is to insert
/// its key with the new value.
pub proof fn pairs_map_update<W>(pairs: Seq<(Seq<char>, W)>, upto: nat, i: int, value: W)
    requires
        upto <= pairs.len(),
        0 <= i < pairs.len(),
        distinct_keys(pairs),
    ensures
        pairs_map(pairs.update(i, (pairs[i].0, value)), upto) == if i < upto {
            pairs_map(pairs, upto).insert(pairs[i].0, value)
        } else {
            pairs_map(pairs, upto)
        },
    decreases upto,
{
    let updated = pairs.update(i, (pairs[i].0, value));
    if upto > 0 {
        pairs_map_update(pairs, (upto - 1) as nat, i, value);
        if i < upto - 1 {
            assert(pairs[i].0 != pairs[upto - 1].0);
            assert(pairs_map(updated, upto) =~= pairs_map(pairs, upto).insert(pairs[i].0, value));
        } else if i == upto - 1 {
            assert(pairs_map(updated, upto) =~= pairs_map(pairs, upto).insert(pairs[i].0, value));
        }
    }
}

/// A map from strings to values, kept as a list of entries without
/// repeated keys.
#[derive(Debug)]
pub struct StrMap<V> {
    entries: Vec<(String, V)>,
}

impl<V: View> StrMap<V> {
    /// The entries as mathematics: each key with the view of its value.
    pub closed spec fn pairs(&self) -> Seq<(Seq<char>, V::V)> {
        Seq::new(self.entries@.len(), |i: int| (self.entries@[i].0@, self.entries@[i].1@))
    }

    /// The invariant of the map: no key stands twice.
    pub closed spec fn wf(&self) -> bool {
        distinct_keys(self.pairs())
    }

    /// What the map holds: the view of each value under its key.
    pub open spec fn model(&self) -> Map<Seq<char>, V::V> {
        pairs_map(self.pairs(), self.pairs().len())
    }

    /// An empty map.
    pub fn new() -> (r: Self)
        ensures
            r.wf(),
            r.model() == Map::<Seq<char>, V::V>::empty(),
            r.pairs().len() == 0,
    {
        StrMap { entries: Vec::new() }
    }

    /// The number of entries.
    pub fn len(&self) -> (r: usize)
        ensures
            r == self.pairs().len(),
    {
        self.entries.len()
    }

    /// The entry at `index`, in the order in which the keys first came.
    pub fn entry(&self, index: usize) -> (r: (&String, &V))
        requires
            index < self.pairs().len(),
        ensures
            (r.0@, r.1@) == self.pairs()[index as int],
    {
        (&self.entries[index].0, &self.entries[index].1)
    }

    fn position(&self, key: &str) -> (r: Option<usize>)
        ensures
            match r {
                Some(i) => i < self.pairs().len() && self.pairs()[i as int].0 == key@,
                None => forall|i: int|
                    0 <= i < self.pairs().len() ==> (#[trigger] self.pairs()[i]).0 != key@,
            },
    {
        let wanted = key.to_owned();
        let mut i: usize = 0;
        while i < self.entries.len()
            invariant
                i <= self.entries@.len(),
                wanted@ == key@,
                forall|j: int| 0 <= j < i ==> (#[trigger] self.pairs()[j]).0 != key@,
            decreases self.entries@.len() - i,
        {
            if self.entries[i].0 == wanted {
                assert(self.pairs()[i as int].0 == key@);
                return Some(i);
            }
            assert(self.pairs()[i as int].0 != key@);
            i += 1;
        }
        None
    }

    /// Whether the map holds `key`.
    pub fn contains_key(&self, key: &str) -> (r: bool)
        requires
            self.wf(),
        ensures
            r == self.model().dom().contains(key@),
    {
        proof {
            pairs_map_dom(self.pairs(), self.pairs().len(), key@);
        }
        self.position(key).is_some()
    }

    /// The value under `key`, if the map holds it.
    pub fn get(&self, key: &str) -> (r: Option<&V>)
        requires
            self.wf(),
        ensures
            match r {
                Some(value) => self.model().dom().contains(key@) && self.model()[key@] == value@,
                None => !self.model().dom().contains(key@),
            },
    {
        proof {
            pairs_map_dom(self.pairs(), self.pairs().len(), key@);
        }
        match self.position(key) {
            Some(i) => {
                proof {
                    pairs_map_at(self.pairs(), self.pairs().len(), i as int);
                }
                Some(&self.entries[i].1)
            },
            None => None,
        }
    }

    /// Puts `value` under `key`. An entry that held the key keeps its place
    /// and takes the new value; a new key goes to the end.
    pub fn insert(&mut self, key: String, value: V)
        requires
            old(self).wf(),
        ensures
            final(self).wf(),
            final(self).model() == old(self).model().insert(key@, value@),
            final(self).pairs().len() == old(self).pairs().len() + (if old(
                self,
            ).model().dom().contains(key@) {
                0int
            } else {
                1int
            }),
    {
        let ghost before = self.pairs();
        proof {
            pairs_map_dom(before, before.len(), key@);
        }
        match self.position(key.as_str()) {
            Some(i) => {
                let ghost v = value@;
                self.entries.set(i, (key, value));
                proof {
                    assert(self.pairs() =~= before.update(i as int, (before[i as int].0, v)));
                    pairs_map_update(before, before.len(), i as int, v);
                    assert forall|a: int, b: int| 0 <= a < b < self.pairs().len() implies (
                    #[trigger] self.pairs()[a]).0 != (#[trigger] self.pairs()[b]).0 by {
                        assert(before[a].0 != before[b].0);
                    }
                }
            },
            None => {
                let ghost k = key@;
                let ghost v = value@;
                self.entries.push((key, value));
                proof {
                    assert(self.pairs() =~= before.push((k, v)));
                    pairs_map_prefix(self.pairs(), before, before.len());
                    assert forall|a: int, b: int| 0 <= a < b < self.pairs().len() implies (
                    #[trigger] self.pairs()[a]).0 != (#[trigger] self.pairs()[b]).0 by {
                        if b < before.len() {
                            assert(before[a].0 != before[b].0);
                        } else {
                            assert(before[a].0 != k);
                        }
                    }
                }
            },
        }
    }
}

} // verus!
