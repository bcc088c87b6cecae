//! A small map from strings to values, kept as a list in which no key occurs
//! twice.

use vstd::prelude::*;

verus! {

/// A map keyed by strings.
pub struct StringMap<T: View> {
    entries: Vec<(String, T)>,
}

/// The map that a list of entries stands for.
pub open spec fn map_of<T>(entries: Seq<(Seq<char>, T)>) -> Map<Seq<char>, T>
    decreases entries.len(),
{
    if entries.len() == 0 {
        Map::empty()
    } else {
        map_of(entries.drop_last()).insert(entries.last().0, entries.last().1)
    }
}

/// No key occurs twice in `entries`.
pub open spec fn distinct_keys<T>(entries: Seq<(Seq<char>, T)>) -> bool {
    forall|i: int, j: int|
        0 <= i < j < entries.len() ==> (#[trigger] entries[i]).0 != (#[trigger] entries[j]).0
}

/// Every entry of a list without repeated keys is what its map holds under its key,
/// and the map has no other key.
pub proof fn lemma_map_of<T>(entries: Seq<(Seq<char>, T)>)
    requires
        distinct_keys(entries),
    ensures
        forall|i: int|
            0 <= i < entries.len() ==> {
                &&& map_of(entries).dom().contains((#[trigger] entries[i]).0)
                &&& map_of(entries)[entries[i].0] == entries[i].1
            },
        forall|k: Seq<char>| #[trigger]
            map_of(entries).dom().contains(k) ==> exists|i: int|
                0 <= i < entries.len() && (#[trigger] entries[i]).0 == k,
    decreases entries.len(),
{
    if entries.len() > 0 {
        let init = entries.drop_last();
        lemma_map_of(init);
        assert forall|i: int| 0 <= i < entries.len() implies {
            &&& map_of(entries).dom().contains((#[trigger] entries[i]).0)
            &&& map_of(entries)[entries[i].0] == entries[i].1
        } by {
            if i < init.len() {
                assert(init[i] == entries[i]);
            }
        }
        assert forall|k: Seq<char>| #[trigger]
            map_of(entries).dom().contains(k) implies exists|i: int|
            0 <= i < entries.len() && (#[trigger] entries[i]).0 == k by {
            if k != entries.last().0 {
                assert(map_of(init).dom().contains(k));
                let i = choose|i: int| 0 <= i < init.len() && (#[trigger] init[i]).0 == k;
                assert(entries[i].0 == k);
            } else {
                assert(entries[entries.len() - 1].0 == k);
            }
        }
    }
}

/// The map of a list without repeated keys has as many keys as the list has entries.
proof fn lemma_map_of_len<T>(entries: Seq<(Seq<char>, T)>)
    requires
        distinct_keys(entries),
    ensures
        map_of(entries).dom().finite(),
        map_of(entries).dom().len() == entries.len(),
    decreases entries.len(),
{
    if entries.len() > 0 {
        let init = entries.drop_last();
        lemma_map_of(init);
        lemma_map_of_len(init);
        assert(!map_of(init).dom().contains(entries.last().0));
        assert(map_of(entries).dom() =~= map_of(init).dom().insert(entries.last().0));
    }
}

/// Replacing the value of one entry replaces it in the map.
proof fn lemma_map_of_update<T>(entries: Seq<(Seq<char>, T)>, i: int, value: T)
    requires
        distinct_keys(entries),
        0 <= i < entries.len(),
    ensures
        distinct_keys(entries.update(i, (entries[i].0, value))),
        map_of(entries.update(i, (entries[i].0, value))) == map_of(entries).insert(
            entries[i].0,
            value,
        ),
{
    let updated = entries.update(i, (entries[i].0, value));
    let expected = map_of(entries).insert(entries[i].0, value);
    assert(distinct_keys(updated));
    lemma_map_of(entries);
    lemma_map_of(updated);
    assert forall|k: Seq<char>| #[trigger]
        map_of(updated).dom().contains(k) == expected.dom().contains(k) by {
        if map_of(updated).dom().contains(k) {
            let j = choose|j: int| 0 <= j < updated.len() && (#[trigger] updated[j]).0 == k;
            assert(entries[j].0 == k);
        }
        if map_of(entries).dom().contains(k) {
            let j = choose|j: int| 0 <= j < entries.len() && (#[trigger] entries[j]).0 == k;
            assert(updated[j].0 == k);
        }
        assert(updated[i].0 == entries[i].0);
    }
    assert forall|k: Seq<char>| #[trigger]
        map_of(updated).dom().contains(k) implies map_of(updated)[k] == expected[k] by {
        let j = choose|j: int| 0 <= j < updated.len() && (#[trigger] updated[j]).0 == k;
        assert(entries[j].0 == k);
    }
    assert(map_of(updated) =~= expected);
}

impl<T: View> StringMap<T> {
    /// The entries in the order in which their keys were first inserted.
    pub closed spec fn entries(&self) -> Seq<(Seq<char>, T::V)> {
        Self::listed(self.entries@)
    }

    spec fn listed(entries: Seq<(String, T)>) -> Seq<(Seq<char>, T::V)> {
        Seq::new(entries.len(), |i: int| (entries[i].0@, entries[i].1@))
    }

    #[verifier::type_invariant]
    spec fn inv(&self) -> bool {
        distinct_keys(self.entries())
    }

    /// An empty map.
    pub fn new() -> (r: Self)
        ensures
            r@ == Map::<Seq<char>, T::V>::empty(),
            r.entries() == Seq::<(Seq<char>, T::V)>::empty(),
    {
        StringMap { entries: Vec::new() }
    }

    /// How many keys the map has.
    pub fn len(&self) -> (n: usize)
        ensures
            n == self@.dom().len(),
            n == self.entries().len(),
            distinct_keys(self.entries()),
    {
        proof {
            use_type_invariant(self);
            lemma_map_of_len(self.entries());
        }
        self.entries.len()
    }

    /// The entry at a position.
    pub fn entry(&self, i: usize) -> (r: (&String, &T))
        requires
            i < self.entries().len(),
        ensures
            (r.0@, r.1@) == self.entries()[i as int],
    {
        let e = &self.entries[i];
        (&e.0, &e.1)
    }

    /// The position of `key` among the entries, or their number where it is not there.
    fn position(&self, key: &str) -> (i: usize)
        ensures
            i <= self.entries().len(),
            i < self.entries().len() ==> self.entries()[i as int].0 == key@,
            forall|j: int| 0 <= j < i ==> (#[trigger] self.entries()[j]).0 != key@,
    {
        let key = key.to_owned();
        let n: usize = self.entries.len();
        let mut i: usize = 0;
        while i < n && self.entries[i].0 != key
            invariant
                n == self.entries@.len(),
                i <= n,
                forall|j: int| 0 <= j < i ==> (#[trigger] self.entries()[j]).0 != key@,
            decreases n - i,
        {
            i = i + 1;
        }
        i
    }

    /// The value under `key`, where there is one.
    pub fn get(&self, key: &str) -> (r: Option<&T>)
        ensures
            match r {
                Some(v) => self@.dom().contains(key@) && v@ == self@[key@],
                None => !self@.dom().contains(key@),
            },
    {
        proof {
            use_type_invariant(self);
            lemma_map_of(self.entries());
        }
        let i = self.position(key);
        if i < self.entries.len() {
            assert(self.entries()[i as int].0 == key@);
            Some(&self.entries[i].1)
        } else {
            None
        }
    }

    /// Puts `value` under `key`: in place of the value that was there, or behind all
    /// other entries.
    pub fn insert(&mut self, key: String, value: T)
        ensures
            final(self)@ == old(self)@.insert(key@, value@),
            old(self)@.dom().contains(key@) ==> exists|i: int|
                0 <= i < old(self).entries().len() && (#[trigger] old(self).entries()[i]).0 == key@
                    && final(self).entries() == old(self).entries().update(i, (key@, value@)),
            !old(self)@.dom().contains(key@) ==> final(self).entries() == old(self).entries().push(
                (key@, value@),
            ),
    {
        proof {
            use_type_invariant(&*self);
            lemma_map_of(self.entries());
        }
        let i = self.position(key.as_str());
        let ghost before = self.entries();
        let mut entries: Vec<(String, T)> = Vec::new();
        std::mem::swap(&mut entries, &mut self.entries);
        if i < entries.len() {
            proof {
                lemma_map_of_update(before, i as int, value@);
            }
            entries.set(i, (key, value));
            assert(Self::listed(entries@) =~= before.update(i as int, (key@, value@)));
            self.entries = entries;
        } else {
            entries.push((key, value));
            assert(Self::listed(entries@) =~= before.push((key@, value@)));
            assert(before.push((key@, value@)).drop_last() =~= before);
            self.entries = entries;
        }
    }
}

impl<T: View> View for StringMap<T> {
    type V = Map<Seq<char>, T::V>;

    open spec fn view(&self) -> Map<Seq<char>, T::V> {
        map_of(self.entries())
    }
}

} // verus!
