//! A map from texts to values that remembers the order of its keys.

use vstd::prelude::*;
use vstd::string::*;
use crate::text::same_text;

verus! {

/// Whether `key` is one of the keys of `pairs`.
pub open spec fn has_key<V>(pairs: Seq<(Seq<char>, V)>, key: Seq<char>) -> bool {
    exists|i: int| 0 <= i < pairs.len() && (#[trigger] pairs[i]).0 == key
}

/// No key stands twice.
pub open spec fn distinct_keys<V>(pairs: Seq<(Seq<char>, V)>) -> bool {
    forall|i: int, j: int|
        0 <= i < j < pairs.len() ==> (#[trigger] pairs[i]).0 != (#[trigger] pairs[j]).0
}

/// The map that `pairs` lists.
pub open spec fn map_of<V>(pairs: Seq<(Seq<char>, V)>) -> Map<Seq<char>, V>
    decreases pairs.len(),
{
    if pairs.len() == 0 {
        Map::empty()
    } else {
        map_of(pairs.drop_last()).insert(pairs.last().0, pairs.last().1)
    }
}

/// `pairs` with `value` under `key`: in the place of the key where it is
/// there, else at the end.
pub open spec fn upsert<V>(pairs: Seq<(Seq<char>, V)>, key: Seq<char>, value: V) -> Seq<
    (Seq<char>, V),
> {
    if has_key(pairs, key) {
        pairs.map_values(
            |p: (Seq<char>, V)|
                if p.0 == key {
                    (key, value)
                } else {
                    p
                },
        )
    } else {
        pairs.push((key, value))
    }
}

/// What a map without repeated keys holds under each key.
pub proof fn map_of_pairs<V>(pairs: Seq<(Seq<char>, V)>)
    requires
        distinct_keys(pairs),
    ensures
        forall|key: Seq<char>| #[trigger] map_of(pairs).dom().contains(key) == has_key(pairs, key),
        forall|i: int|
            0 <= i < pairs.len() ==> map_of(pairs)[(#[trigger] pairs[i]).0] == pairs[i].1,
    decreases pairs.len(),
{
    if pairs.len() > 0 {
        let front = pairs.drop_last();
        assert(distinct_keys(front)) by {
            assert forall|i: int, j: int| 0 <= i < j < front.len() implies (#[trigger] front[i]).0
                != (#[trigger] front[j]).0 by {
                assert(front[i] == pairs[i] && front[j] == pairs[j]);
            }
        }
        map_of_pairs(front);
        assert forall|key: Seq<char>| #[trigger]
            map_of(pairs).dom().contains(key) == has_key(pairs, key) by {
            assert(map_of(front).dom().contains(key) == has_key(front, key));
            if has_key(front, key) {
                let i = choose|i: int| 0 <= i < front.len() && (#[trigger] front[i]).0 == key;
                assert(pairs[i].0 == key);
            }
            if has_key(pairs, key) && key != pairs.last().0 {
                let i = choose|i: int| 0 <= i < pairs.len() && (#[trigger] pairs[i]).0 == key;
                assert(front[i].0 == key);
            }
            if key == pairs.last().0 {
                assert(pairs[pairs.len() - 1].0 == key);
            }
        }
        assert forall|i: int| 0 <= i < pairs.len() implies map_of(pairs)[(#[trigger] pairs[i]).0]
            == pairs[i].1 by {
            if i < pairs.len() - 1 {
                assert(front[i] == pairs[i]);
                assert(pairs[i].0 != pairs[pairs.len() - 1].0);
            }
        }
    }
}

/// Setting a key sets it in the map, and repeats no key.
pub proof fn upsert_sets<V>(pairs: Seq<(Seq<char>, V)>, key: Seq<char>, value: V)
    requires
        distinct_keys(pairs),
    ensures
        distinct_keys(upsert(pairs, key, value)),
        map_of(upsert(pairs, key, value)) == map_of(pairs).insert(key, value),
{
    let after = upsert(pairs, key, value);
    if has_key(pairs, key) {
        assert forall|i: int| 0 <= i < after.len() implies (#[trigger] after[i]).0
            == pairs[i].0 by {}
        assert(distinct_keys(after)) by {
            assert forall|i: int, j: int| 0 <= i < j < after.len() implies (#[trigger] after[i]).0
                != (#[trigger] after[j]).0 by {
                assert(pairs[i].0 != pairs[j].0);
            }
        }
        map_of_pairs(pairs);
        map_of_pairs(after);
        let wanted = map_of(pairs).insert(key, value);
        assert forall|k: Seq<char>| map_of(after).dom().contains(k) == wanted.dom().contains(k) by {
            if has_key(after, k) {
                let i = choose|i: int| 0 <= i < after.len() && (#[trigger] after[i]).0 == k;
                assert(pairs[i].0 == k);
            }
            if has_key(pairs, k) {
                let i = choose|i: int| 0 <= i < pairs.len() && (#[trigger] pairs[i]).0 == k;
                assert(after[i].0 == k);
            }
        }
        assert forall|k: Seq<char>| map_of(after).dom().contains(k) implies map_of(after)[k]
            == wanted[k] by {
            let i = choose|i: int| 0 <= i < after.len() && (#[trigger] after[i]).0 == k;
            assert(pairs[i].0 == k);
        }
        assert(map_of(after) =~= wanted);
    } else {
        assert(after.drop_last() =~= pairs);
        assert forall|i: int, j: int| 0 <= i < j < after.len() implies (#[trigger] after[i]).0 != (
        #[trigger] after[j]).0 by {
            assert(after[i] == pairs[i]);
            if j < pairs.len() {
                assert(after[j] == pairs[j]);
            }
        }
    }
}

/// `pairs` with `f` applied to each value.
pub open spec fn values_mapped<V, W>(pairs: Seq<(Seq<char>, V)>, f: spec_fn(V) -> W) -> Seq<
    (Seq<char>, W),
> {
    pairs.map_values(|p: (Seq<char>, V)| (p.0, f(p.1)))
}

/// Setting a key and mapping the values can change places.
pub proof fn upsert_mapped<V, W>(
    pairs: Seq<(Seq<char>, V)>,
    key: Seq<char>,
    value: V,
    f: spec_fn(V) -> W,
)
    ensures
        values_mapped(upsert(pairs, key, value), f) == upsert(
            values_mapped(pairs, f),
            key,
            f(value),
        ),
{
    let mapped = values_mapped(pairs, f);
    if has_key(pairs, key) {
        let i = choose|i: int| 0 <= i < pairs.len() && (#[trigger] pairs[i]).0 == key;
        assert(mapped[i].0 == key);
    }
    if has_key(mapped, key) {
        let i = choose|i: int| 0 <= i < mapped.len() && (#[trigger] mapped[i]).0 == key;
        assert(pairs[i].0 == key);
    }
    assert(values_mapped(upsert(pairs, key, value), f) =~= upsert(mapped, key, f(value)));
}

/// The keys and values of a list of entries.
pub open spec fn pairs_of<V>(entries: Seq<(String, V)>) -> Seq<(Seq<char>, V)> {
    entries.map_values(|e: (String, V)| (e.0@, e.1))
}

/// A map from texts to values. No key stands in it twice, and its entries keep
/// the order in which their keys came.
pub struct TextMap<V> {
    entries: Vec<(String, V)>,
}

impl<V> TextMap<V> {
    #[verifier::type_invariant]
    spec fn keys_are_distinct(self) -> bool {
        distinct_keys(pairs_of(self.entries@))
    }

    /// The entries, in order.
    pub closed spec fn pairs(self) -> Seq<(Seq<char>, V)> {
        pairs_of(self.entries@)
    }

    /// An empty map.
    pub fn new() -> (r: Self)
        ensures
            r.pairs() == Seq::<(Seq<char>, V)>::empty(),
    {
        let r = TextMap { entries: Vec::new() };
        proof {
            assert(r.pairs() =~= Seq::<(Seq<char>, V)>::empty());
        }
        r
    }

    /// The number of entries.
    pub fn len(&self) -> (r: usize)
        ensures
            r == self.pairs().len(),
            distinct_keys(self.pairs()),
    {
        proof {
            use_type_invariant(self);
        }
        self.entries.len()
    }

    /// The key of the entry at `index`.
    pub fn key_at(&self, index: usize) -> (r: &str)
        requires
            index < self.pairs().len(),
        ensures
            r@ == self.pairs()[index as int].0,
    {
        self.entries[index].0.as_str()
    }

    /// The value of the entry at `index`.
    pub fn value_at(&self, index: usize) -> (r: &V)
        requires
            index < self.pairs().len(),
        ensures
            *r == self.pairs()[index as int].1,
    {
        &self.entries[index].1
    }

    /// The value under `key`.
    pub fn get(&self, key: &str) -> (r: Option<&V>)
        ensures
            match r {
                Some(value) => map_of(self.pairs()).dom().contains(key@) && map_of(
                    self.pairs(),
                )[key@] == *value,
                None => !map_of(self.pairs()).dom().contains(key@),
            },
    {
        proof {
            use_type_invariant(self);
            map_of_pairs(self.pairs());
        }
        let mut i: usize = 0;
        while i < self.entries.len()
            invariant
                i <= self.entries.len(),
                forall|j: int| 0 <= j < i ==> (#[trigger] self.pairs()[j]).0 != key@,
                forall|k: Seq<char>| #[trigger]
                    map_of(self.pairs()).dom().contains(k) == has_key(self.pairs(), k),
                forall|j: int|
                    0 <= j < self.pairs().len() ==> map_of(self.pairs())[(
                    #[trigger] self.pairs()[j]).0] == self.pairs()[j].1,
            decreases self.entries.len() - i,
        {
            if same_text(self.entries[i].0.as_str(), key) {
                proof {
                    assert(self.pairs()[i as int].0 == key@);
                }
                return Some(&self.entries[i].1);
            }
            i = i + 1;
        }
        None
    }

    /// Sets `value` under `key`.
    pub fn insert(&mut self, key: String, value: V)
        ensures
            final(self).pairs() == upsert(old(self).pairs(), key@, value),
            map_of(final(self).pairs()) == map_of(old(self).pairs()).insert(key@, value),
            distinct_keys(final(self).pairs()),
    {
        proof {
            use_type_invariant(&*self);
            upsert_sets(self.pairs(), key@, value);
        }
        let ghost before = self.pairs();
        let mut entries: Vec<(String, V)> = Vec::new();
        std::mem::swap(&mut entries, &mut self.entries);
        let mut at: usize = 0;
        while at < entries.len() && !same_text(entries[at].0.as_str(), key.as_str())
            invariant
                at <= entries.len(),
                before == pairs_of(entries@),
                forall|j: int| 0 <= j < at ==> (#[trigger] before[j]).0 != key@,
            decreases entries.len() - at,
        {
            at = at + 1;
        }
        let ghost kept = entries@;
        if at < entries.len() {
            proof {
                assert(before[at as int].0 == key@);
            }
            entries.set(at, (key, value));
            proof {
                assert(pairs_of(entries@) =~= upsert(before, key@, value));
            }
        } else {
            entries.push((key, value));
            proof {
                assert(pairs_of(entries@) =~= before.push((key@, value)));
            }
        }
        self.entries = entries;
    }
}

} // verus!
