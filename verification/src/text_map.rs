//! A map from texts to values whose entries are walked in the order of their keys.
use vstd::prelude::*;

use crate::text::{
    chars_of, compare_text, lemma_precedes_irreflexive, lemma_precedes_transitive, precedes,
    TextOrder,
};

verus! {

/// A map keyed by text. The view is the mathematical map; `keys` is the order of a walk.
#[derive(Debug)]
pub struct TextMap<V> {
    entries: Vec<(String, V)>,
}

/// The keys of a list of entries, in order.
pub open spec fn keys_of<V>(entries: Seq<(String, V)>) -> Seq<Seq<char>> {
    entries.map_values(|e: (String, V)| e.0@)
}

/// Whether the keys of a list of entries strictly increase.
pub open spec fn increasing(keys: Seq<Seq<char>>) -> bool {
    forall|i: int, j: int|
        0 <= i < j < keys.len() ==> precedes(#[trigger] keys[i], #[trigger] keys[j])
}

spec fn holds<V>(entries: Seq<(String, V)>, key: Seq<char>, i: int) -> bool {
    0 <= i < entries.len() && entries[i].0@ == key
}

spec fn map_of<V>(entries: Seq<(String, V)>) -> Map<Seq<char>, V> {
    Map::new(
        |key: Seq<char>| exists|i: int| holds(entries, key, i),
        |key: Seq<char>| entries[choose|i: int| holds(entries, key, i)].1,
    )
}

impl<V> View for TextMap<V> {
    type V = Map<Seq<char>, V>;

    closed spec fn view(&self) -> Map<Seq<char>, V> {
        map_of(self.entries@)
    }
}

impl<V> TextMap<V> {
    #[verifier::type_invariant]
    spec fn ordered(self) -> bool {
        increasing(keys_of(self.entries@))
    }

    /// The keys in the order of a walk.
    pub closed spec fn keys(&self) -> Seq<Seq<char>> {
        keys_of(self.entries@)
    }

    /// The values in the order of a walk.
    pub closed spec fn values(&self) -> Seq<V> {
        self.entries@.map_values(|e: (String, V)| e.1)
    }

    /// A map without entries.
    pub fn new() -> (map: TextMap<V>)
        ensures
            map@ == Map::<Seq<char>, V>::empty(),
            map.keys() == Seq::<Seq<char>>::empty(),
    {
        let map = TextMap { entries: Vec::new() };
        proof {
            assert forall|key: Seq<char>| !map@.dom().contains(key) by {
                assert forall|i: int| !holds(map.entries@, key, i) by {}
            }
            assert(map@ == Map::<Seq<char>, V>::empty());
            assert(map.keys() == Seq::<Seq<char>>::empty());
        }
        map
    }

    /// The number of entries. A walk meets every key once, in increasing order.
    pub fn len(&self) -> (len: usize)
        ensures
            len == self.keys().len(),
            increasing(self.keys()),
            forall|key: Seq<char>|
                #[trigger] self@.dom().contains(key) <==> self.keys().contains(key),
    {
        proof {
            use_type_invariant(self);
            assert forall|key: Seq<char>| #[trigger] self@.dom().contains(key)
                <==> self.keys().contains(key) by {
                if self@.dom().contains(key) {
                    let i = choose|i: int| holds(self.entries@, key, i);
                    assert(self.keys()[i] == key);
                }
                if self.keys().contains(key) {
                    let i = choose|i: int| 0 <= i < self.keys().len() && self.keys()[i] == key;
                    assert(holds(self.entries@, key, i));
                }
            }
        }
        self.entries.len()
    }

    /// Whether there is no entry.
    pub fn is_empty(&self) -> (empty: bool)
        ensures
            empty <==> self.keys().len() == 0,
    {
        self.entries.len() == 0
    }

    /// The key of the entry at a position of the walk.
    pub fn key_at(&self, index: usize) -> (key: &str)
        requires
            index < self.keys().len(),
        ensures
            key@ == self.keys()[index as int],
    {
        self.entries[index].0.as_str()
    }

    /// The value of the entry at a position of the walk.
    pub fn value_at(&self, index: usize) -> (value: &V)
        requires
            index < self.keys().len(),
        ensures
            *value == self.values()[index as int],
            self.values().len() == self.keys().len(),
            self@.dom().contains(self.keys()[index as int]),
            *value == self@[self.keys()[index as int]],
    {
        proof {
            use_type_invariant(self);
            lemma_map_at(self.entries@, index as int);
        }
        &self.entries[index].1
    }

    /// The position of a key, or where it would have to be put.
    fn search(&self, key: &str) -> (found: (usize, bool))
        ensures
            found.0 <= self.keys().len(),
            found.1 ==> found.0 < self.keys().len() && self.keys()[found.0 as int] == key@,
            forall|i: int| 0 <= i < found.0 ==> precedes(#[trigger] self.keys()[i], key@),
            !found.1 ==> forall|i: int|
                found.0 <= i < self.keys().len() ==> precedes(key@, #[trigger] self.keys()[i]),
    {
        proof {
            use_type_invariant(self);
        }
        let wanted = chars_of(key);
        let mut i: usize = 0;
        while i < self.entries.len()
            invariant
                i <= self.entries.len(),
                wanted@ == key@,
                increasing(self.keys()),
                forall|k: int| 0 <= k < i ==> precedes(#[trigger] self.keys()[k], key@),
            decreases self.entries.len() - i,
        {
            let here = chars_of(self.entries[i].0.as_str());
            proof {
                assert(here@ == self.keys()[i as int]);
            }
            match compare_text(&here, &wanted) {
                TextOrder::Before => {},
                TextOrder::Same => {
                    return (i, true);
                },
                TextOrder::After => {
                    proof {
                        assert forall|k: int| i <= k < self.keys().len() implies precedes(
                            key@,
                            #[trigger] self.keys()[k],
                        ) by {
                            if k > i {
                                lemma_precedes_transitive(
                                    key@,
                                    self.keys()[i as int],
                                    self.keys()[k],
                                );
                            }
                        }
                    }
                    return (i, false);
                },
            }
            i = i + 1;
        }
        (i, false)
    }

    /// The value of a key, where it has one.
    pub fn get(&self, key: &str) -> (value: Option<&V>)
        ensures
            value is Some <==> self@.dom().contains(key@),
            value is Some ==> *value->0 == self@[key@],
    {
        let (index, found) = self.search(key);
        proof {
            use_type_invariant(self);
            if found {
                lemma_map_at(self.entries@, index as int);
            } else {
                lemma_absent(self.entries@, key@, index as int);
            }
        }
        if found {
            Some(&self.entries[index].1)
        } else {
            None
        }
    }

    /// Puts a value under a key; a value that was there is replaced.
    pub fn insert(&mut self, key: String, value: V)
        ensures
            final(self)@ == old(self)@.insert(key@, value),
            old(self)@.dom().contains(key@) ==> final(self).keys() == old(self).keys(),
            !old(self)@.dom().contains(key@) ==> final(self).keys().len() == old(self).keys().len() + 1,
    {
        let (index, found) = self.search(key.as_str());
        let ghost before = self.entries@;
        proof {
            use_type_invariant(&*self);
        }
        let mut entries: Vec<(String, V)> = Vec::new();
        std::mem::swap(&mut entries, &mut self.entries);
        let ghost text = key@;
        if found {
            proof {
                lemma_map_at(before, index as int);
                lemma_replaced(before, index as int, (key, value));
            }
            entries.set(index, (key, value));
            proof {
                assert(keys_of(entries@) == keys_of(before));
            }
        } else {
            proof {
                lemma_absent(before, text, index as int);
                lemma_inserted(before, index as int, (key, value));
            }
            entries.insert(index, (key, value));
        }
        self.entries = entries;
    }
}

proof fn lemma_map_at<V>(entries: Seq<(String, V)>, i: int)
    requires
        increasing(keys_of(entries)),
        0 <= i < entries.len(),
    ensures
        map_of(entries).dom().contains(keys_of(entries)[i]),
        map_of(entries)[keys_of(entries)[i]] == entries[i].1,
{
    let key = keys_of(entries)[i];
    assert(holds(entries, key, i));
    let j = choose|j: int| holds(entries, key, j);
    if j != i {
        let (a, b) = if i < j {
            (i, j)
        } else {
            (j, i)
        };
        assert(precedes(keys_of(entries)[a], keys_of(entries)[b]));
        lemma_precedes_irreflexive(key);
    }
}

proof fn lemma_absent<V>(entries: Seq<(String, V)>, key: Seq<char>, index: int)
    requires
        0 <= index <= entries.len(),
        forall|i: int| 0 <= i < index ==> precedes(#[trigger] keys_of(entries)[i], key),
        forall|i: int|
            index <= i < entries.len() ==> precedes(key, #[trigger] keys_of(entries)[i]),
    ensures
        !map_of(entries).dom().contains(key),
{
    assert forall|i: int| !holds(entries, key, i) by {
        if holds(entries, key, i) {
            assert(keys_of(entries)[i] == key);
            lemma_precedes_irreflexive(key);
        }
    }
}

proof fn lemma_replaced<V>(entries: Seq<(String, V)>, index: int, entry: (String, V))
    requires
        increasing(keys_of(entries)),
        0 <= index < entries.len(),
        keys_of(entries)[index] == entry.0@,
    ensures
        map_of(entries.update(index, entry)) == map_of(entries).insert(entry.0@, entry.1),
{
    let after = entries.update(index, entry);
    assert(keys_of(after) == keys_of(entries));
    lemma_map_at(after, index);
    assert forall|key: Seq<char>| map_of(after).dom().contains(key) == map_of(entries).insert(
        entry.0@,
        entry.1,
    ).dom().contains(key) by {
        if map_of(after).dom().contains(key) {
            let i = choose|i: int| holds(after, key, i);
            assert(holds(entries, key, i));
        }
        if map_of(entries).dom().contains(key) {
            let i = choose|i: int| holds(entries, key, i);
            assert(holds(after, key, i));
        }
    }
    assert forall|key: Seq<char>| #[trigger] map_of(after).dom().contains(key) implies map_of(
        after,
    )[key] == map_of(entries).insert(entry.0@, entry.1)[key] by {
        let i = choose|i: int| holds(after, key, i);
        lemma_map_at(after, i);
        lemma_map_at(entries, i);
        if i == index {
            assert(key == entry.0@);
        } else if key == entry.0@ {
            lemma_map_at(after, index);
            let (a, b) = if i < index {
                (i, index)
            } else {
                (index, i)
            };
            assert(precedes(keys_of(after)[a], keys_of(after)[b]));
            lemma_precedes_irreflexive(key);
        }
    }
    assert(map_of(after) =~= map_of(entries).insert(entry.0@, entry.1));
}

proof fn lemma_inserted<V>(entries: Seq<(String, V)>, index: int, entry: (String, V))
    requires
        increasing(keys_of(entries)),
        0 <= index <= entries.len(),
        forall|i: int| 0 <= i < index ==> precedes(#[trigger] keys_of(entries)[i], entry.0@),
        forall|i: int|
            index <= i < entries.len() ==> precedes(entry.0@, #[trigger] keys_of(entries)[i]),
    ensures
        increasing(keys_of(entries.insert(index, entry))),
        map_of(entries.insert(index, entry)) == map_of(entries).insert(entry.0@, entry.1),
{
    let after = entries.insert(index, entry);
    let keys = keys_of(entries);
    assert forall|i: int, j: int| 0 <= i < j < after.len() implies precedes(
        #[trigger] keys_of(after)[i],
        #[trigger] keys_of(after)[j],
    ) by {
        if i < index {
            assert(keys_of(after)[i] == keys[i]);
        } else if i > index {
            assert(keys_of(after)[i] == keys[i - 1]);
        }
        if j < index {
            assert(keys_of(after)[j] == keys[j]);
        } else if j > index {
            assert(keys_of(after)[j] == keys[j - 1]);
        }
    }
    lemma_absent(entries, entry.0@, index);
    assert forall|key: Seq<char>| map_of(after).dom().contains(key) == map_of(entries).insert(
        entry.0@,
        entry.1,
    ).dom().contains(key) by {
        if map_of(after).dom().contains(key) {
            let i = choose|i: int| holds(after, key, i);
            if i < index {
                assert(holds(entries, key, i));
            } else if i > index {
                assert(holds(entries, key, i - 1));
            }
        }
        if map_of(entries).dom().contains(key) {
            let i = choose|i: int| holds(entries, key, i);
            if i < index {
                assert(holds(after, key, i));
            } else {
                assert(holds(after, key, i + 1));
            }
        }
        assert(holds(after, entry.0@, index));
    }
    assert forall|key: Seq<char>| #[trigger] map_of(after).dom().contains(key) implies map_of(
        after,
    )[key] == map_of(entries).insert(entry.0@, entry.1)[key] by {
        let i = choose|i: int| holds(after, key, i);
        lemma_map_at(after, i);
        if i < index {
            lemma_map_at(entries, i);
            lemma_precedes_irreflexive(key);
            assert(keys[i] == key);
        } else if i > index {
            lemma_map_at(entries, i - 1);
            lemma_precedes_irreflexive(key);
            assert(keys[i - 1] == key);
        }
    }
    assert(map_of(after) =~= map_of(entries).insert(entry.0@, entry.1));
}

/// The order of a walk is determined by which keys there are: two maps with the same keys are
/// walked alike, however they were filled.
pub proof fn law_walk_order_is_determined_by_the_keys(a: Seq<Seq<char>>, b: Seq<Seq<char>>)
    requires
        increasing(a),
        increasing(b),
        forall|key: Seq<char>| #[trigger] a.contains(key) <==> b.contains(key),
    ensures
        a == b,
    decreases a.len(),
{
    if a.len() == 0 {
        if b.len() > 0 {
            assert(b.contains(b[0]));
            assert(a.contains(b[0]));
        }
        assert(a == b);
    } else {
        assert(a.contains(a[0]));
        assert(b.contains(a[0]));
        let j = choose|j: int| 0 <= j < b.len() && b[j] == a[0];
        assert(b.contains(b[0]));
        assert(a.contains(b[0]));
        let i = choose|i: int| 0 <= i < a.len() && a[i] == b[0];
        if j > 0 {
            assert(precedes(b[0], b[j]));
            if i > 0 {
                assert(precedes(a[0], a[i]));
                lemma_precedes_transitive(a[0], b[0], a[0]);
            }
            lemma_precedes_irreflexive(a[0]);
        }
        assert(a[0] == b[0]);
        lemma_tail_increasing(a);
        lemma_tail_increasing(b);
        assert forall|key: Seq<char>| #[trigger] a.skip(1).contains(key) <==> b.skip(1).contains(
            key,
        ) by {
            lemma_tail_contains(a, key);
            lemma_tail_contains(b, key);
            assert(a.contains(key) <==> b.contains(key));
        }
        law_walk_order_is_determined_by_the_keys(a.skip(1), b.skip(1));
        assert(a == seq![a[0]] + a.skip(1));
        assert(b == seq![b[0]] + b.skip(1));
    }
}

proof fn lemma_tail_increasing(a: Seq<Seq<char>>)
    requires
        increasing(a),
        a.len() > 0,
    ensures
        increasing(a.skip(1)),
{
    assert forall|i: int, j: int| 0 <= i < j < a.skip(1).len() implies precedes(
        #[trigger] a.skip(1)[i],
        #[trigger] a.skip(1)[j],
    ) by {
        assert(precedes(a[i + 1], a[j + 1]));
    }
}

proof fn lemma_tail_contains(a: Seq<Seq<char>>, key: Seq<char>)
    requires
        increasing(a),
        a.len() > 0,
    ensures
        a.skip(1).contains(key) <==> a.contains(key) && key != a[0],
{
    if a.skip(1).contains(key) {
        let i = choose|i: int| 0 <= i < a.skip(1).len() && a.skip(1)[i] == key;
        assert(a[i + 1] == key);
        assert(precedes(a[0], a[i + 1]));
        lemma_precedes_irreflexive(key);
    }
    if a.contains(key) && key != a[0] {
        let i = choose|i: int| 0 <= i < a.len() && a[i] == key;
        assert(a.skip(1)[i - 1] == key);
    }
}

} // verus!
