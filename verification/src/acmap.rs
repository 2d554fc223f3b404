//! The snapshot map: one entry per aircraft, keyed by the record's own hex
//! identifier. Keys are unique, insertion order is irrelevant, and a later
//! insertion under an existing key replaces the earlier record.

use vstd::prelude::*;

use crate::util::AircraftData;
use crate::util::AircraftView;

verus! {

/// A mapping from hex identifier to aircraft record, rebuilt from scratch
/// on every call; its mathematical value is a `Map` from the key's
/// characters to the record's view.
#[derive(Debug)]
pub struct AircraftMap {
    entries: Vec<(String, AircraftData)>,
}

/// The map an entry list denotes: entries are inserted in order, so a later
/// entry under the same key wins.
pub open spec fn map_of(entries: Seq<(String, AircraftData)>) -> Map<Seq<char>, AircraftView>
    decreases entries.len(),
{
    if entries.len() == 0 {
        Map::empty()
    } else {
        map_of(entries.drop_last()).insert(entries.last().0@, entries.last().1@)
    }
}

/// No two entries share a key.
pub open spec fn keys_distinct(entries: Seq<(String, AircraftData)>) -> bool {
    forall|i: int, j: int|
        0 <= i < j < entries.len() ==> (#[trigger] entries[i]).0@ != (#[trigger] entries[j]).0@
}

/// A key is in the denoted map exactly when some entry carries it.
proof fn lemma_map_of_dom(entries: Seq<(String, AircraftData)>, k: Seq<char>)
    ensures
        map_of(entries).contains_key(k) <==> (exists|i: int|
            0 <= i < entries.len() && (#[trigger] entries[i]).0@ == k),
    decreases entries.len(),
{
    if entries.len() > 0 {
        lemma_map_of_dom(entries.drop_last(), k);
        if entries.last().0@ == k {
            assert(entries[entries.len() - 1].0@ == k);
        } else {
            if map_of(entries).contains_key(k) {
                let i = choose|i: int|
                    0 <= i < entries.drop_last().len() && (#[trigger] entries.drop_last()[i]).0@
                        == k;
                assert(entries[i].0@ == k);
            }
            if exists|i: int| 0 <= i < entries.len() && (#[trigger] entries[i]).0@ == k {
                let i = choose|i: int| 0 <= i < entries.len() && (#[trigger] entries[i]).0@ == k;
                assert(entries.drop_last()[i].0@ == k);
            }
        }
    }
}

/// A denoted map is always finite.
proof fn lemma_map_of_finite(entries: Seq<(String, AircraftData)>)
    ensures
        map_of(entries).dom().finite(),
    decreases entries.len(),
{
    if entries.len() > 0 {
        lemma_map_of_finite(entries.drop_last());
    }
}

/// With distinct keys the denoted map has exactly one entry per list entry.
proof fn lemma_map_of_len(entries: Seq<(String, AircraftData)>)
    requires
        keys_distinct(entries),
    ensures
        map_of(entries).len() == entries.len(),
    decreases entries.len(),
{
    if entries.len() > 0 {
        let prefix = entries.drop_last();
        assert(keys_distinct(prefix));
        lemma_map_of_len(prefix);
        lemma_map_of_dom(prefix, entries.last().0@);
        assert(forall|i: int|
            0 <= i < prefix.len() ==> (#[trigger] prefix[i]).0@ != entries.last().0@);
        assert(!map_of(prefix).contains_key(entries.last().0@));
        lemma_map_of_finite(prefix);
        assert(map_of(entries).dom() =~= map_of(prefix).dom().insert(entries.last().0@));
        vstd::set::axiom_set_insert_len(map_of(prefix).dom(), entries.last().0@);
    }
}

/// With distinct keys the entry that carries a key gives its value in the
/// denoted map.
proof fn lemma_map_of_get(entries: Seq<(String, AircraftData)>, j: int)
    requires
        keys_distinct(entries),
        0 <= j < entries.len(),
    ensures
        map_of(entries).contains_key(entries[j].0@),
        map_of(entries)[entries[j].0@] == entries[j].1@,
    decreases entries.len(),
{
    lemma_map_of_dom(entries, entries[j].0@);
    if j < entries.len() - 1 {
        let prefix = entries.drop_last();
        assert(keys_distinct(prefix));
        assert(prefix[j] == entries[j]);
        lemma_map_of_get(prefix, j);
        assert(entries[j].0@ != entries.last().0@);
    }
}

/// Removing the one entry that carries a key and then inserting that key
/// denotes the same map as inserting over the original list.
proof fn lemma_map_of_remove_insert(
    entries: Seq<(String, AircraftData)>,
    j: int,
    k: Seq<char>,
    v: AircraftView,
)
    requires
        keys_distinct(entries),
        0 <= j < entries.len(),
        entries[j].0@ == k,
    ensures
        map_of(entries.remove(j)).insert(k, v) == map_of(entries).insert(k, v),
    decreases entries.len(),
{
    if j == entries.len() - 1 {
        assert(entries.remove(j) =~= entries.drop_last());
        assert(map_of(entries.drop_last()).insert(k, entries.last().1@).insert(k, v)
            =~= map_of(entries.drop_last()).insert(k, v));
    } else {
        let prefix = entries.drop_last();
        assert(keys_distinct(prefix));
        assert(prefix[j] == entries[j]);
        lemma_map_of_remove_insert(prefix, j, k, v);
        assert(entries.remove(j).drop_last() =~= prefix.remove(j));
        assert(entries.remove(j).last() == entries.last());
        let last_k = entries.last().0@;
        let last_v = entries.last().1@;
        assert(last_k != k);
        // Both sides are the prefix map with the last entry and (k, v)
        // inserted, in either order; distinct keys commute.
        assert(map_of(prefix.remove(j)).insert(last_k, last_v).insert(k, v) =~= map_of(
            prefix.remove(j),
        ).insert(k, v).insert(last_k, last_v));
        assert(map_of(prefix).insert(last_k, last_v).insert(k, v) =~= map_of(prefix).insert(
            k,
            v,
        ).insert(last_k, last_v));
    }
}

impl AircraftMap {
    /// Keys are pairwise distinct; holds for every map this module hands
    /// out and is required by every method that reads one.
    pub closed spec fn wf(&self) -> bool {
        keys_distinct(self.entries@)
    }

    /// A fresh, empty snapshot.
    pub fn new() -> (r: AircraftMap)
        ensures
            r.wf(),
            r@ == Map::<Seq<char>, AircraftView>::empty(),
    {
        AircraftMap { entries: Vec::new() }
    }

    /// The number of aircraft in the snapshot.
    pub fn len(&self) -> (r: usize)
        requires
            self.wf(),
        ensures
            r == self@.len(),
    {
        proof {
            lemma_map_of_len(self.entries@);
        }
        self.entries.len()
    }

    /// The index of the entry that carries `key`, or the length when none
    /// does.
    fn find(&self, key: &String) -> (r: usize)
        requires
            self.wf(),
        ensures
            r <= self.entries@.len(),
            r < self.entries@.len() ==> self.entries@[r as int].0@ == key@,
            r == self.entries@.len() ==> forall|t: int|
                0 <= t < self.entries@.len() ==> (#[trigger] self.entries@[t]).0@ != key@,
    {
        let n = self.entries.len();
        let mut i: usize = 0;
        while i < n
            invariant
                n == self.entries@.len(),
                i <= n,
                forall|t: int| 0 <= t < i ==> (#[trigger] self.entries@[t]).0@ != key@,
            decreases n - i,
        {
            let e = &self.entries[i];
            if e.0 == *key {
                return i;
            }
            i = i + 1;
        }
        n
    }

    /// Inserts a record under a key; an existing record under the same key
    /// is replaced.
    pub fn insert(&mut self, key: String, value: AircraftData)
        requires
            old(self).wf(),
        ensures
            final(self).wf(),
            final(self)@ == old(self)@.insert(key@, value@),
    {
        let n = self.entries.len();
        let idx = self.find(&key);
        if idx < n {
            proof {
                lemma_map_of_remove_insert(self.entries@, idx as int, key@, value@);
                assert(forall|t: int|
                    0 <= t < self.entries@.remove(idx as int).len() ==> (
                    #[trigger] self.entries@.remove(idx as int)[t]).0@ != key@);
            }
            self.entries.remove(idx);
        }
        let ghost pruned = self.entries@;
        self.entries.push((key, value));
        proof {
            assert(self.entries@.drop_last() =~= pruned);
            assert(self.entries@.last() == (key, value));
        }
    }

    /// The record under a key, when the snapshot holds one.
    pub fn get(&self, key: &str) -> (r: Option<&AircraftData>)
        requires
            self.wf(),
        ensures
            match r {
                Some(a) => self@.contains_key(key@) && a@ == self@[key@],
                None => !self@.contains_key(key@),
            },
    {
        let k = key.to_owned();
        let idx = self.find(&k);
        proof {
            lemma_map_of_dom(self.entries@, key@);
        }
        if idx < self.entries.len() {
            proof {
                lemma_map_of_get(self.entries@, idx as int);
            }
            Some(&self.entries[idx].1)
        } else {
            None
        }
    }
}

impl View for AircraftMap {
    type V = Map<Seq<char>, AircraftView>;

    closed spec fn view(&self) -> Map<Seq<char>, AircraftView> {
        map_of(self.entries@)
    }
}

} // verus!
