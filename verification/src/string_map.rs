//! A map from strings to values, held as a list of keys in their order, and the values to them.

use crate::text::{place, Place};
use vstd::prelude::*;

verus! {

/// The map that a list of key-value pairs with distinct keys stands for.
pub open spec fn map_of<V>(entries: Seq<(String, V)>) -> Map<Seq<char>, V> {
    Map::new(
        |key: Seq<char>| exists|i: int| 0 <= i < entries.len() && #[trigger] entries[i].0@ == key,
        |key: Seq<char>|
            entries[choose|i: int| 0 <= i < entries.len() && #[trigger] entries[i].0@ == key].1,
    )
}

/// Whether no key occurs twice.
pub open spec fn distinct_keys<V>(entries: Seq<(String, V)>) -> bool {
    forall|i: int, j: int|
        0 <= i < j < entries.len() ==> (#[trigger] entries[i]).0@ != (#[trigger] entries[j]).0@
}

/// With distinct keys, each entry is what the map holds at its key.
proof fn lemma_entry<V>(entries: Seq<(String, V)>, i: int)
    requires
        distinct_keys(entries),
        0 <= i < entries.len(),
    ensures
        map_of(entries).contains_key(entries[i].0@),
        map_of(entries)[entries[i].0@] == entries[i].1,
{
    let key = entries[i].0@;
    let j = choose|j: int| 0 <= j < entries.len() && #[trigger] entries[j].0@ == key;
    assert(j == i) by {
        assert(entries[i].0@ == entries[j].0@);
        if i < j {
            assert(entries[i].0@ != entries[j].0@);
        }
        if j < i {
            assert(entries[j].0@ != entries[i].0@);
        }
    }
}

/// Whether the keys are in the order of texts, so that none occurs twice.
pub open spec fn sorted_keys<V>(entries: Seq<(String, V)>) -> bool {
    forall|i: int, j: int|
        0 <= i < j < entries.len() ==> crate::text::sorts_before(
            (#[trigger] entries[i]).0@,
            (#[trigger] entries[j]).0@,
        )
}

/// Keys in order are distinct.
proof fn lemma_sorted<V>(entries: Seq<(String, V)>)
    requires
        sorted_keys(entries),
    ensures
        distinct_keys(entries),
{
    crate::text::lemma_order_of_texts();
}

/// A map that has each of the entries, and no other, is the one that they stand for.
proof fn lemma_map_of<V>(entries: Seq<(String, V)>, map: Map<Seq<char>, V>)
    requires
        distinct_keys(entries),
        forall|i: int|
            #![trigger entries[i]]
            0 <= i < entries.len() ==> map.contains_key(entries[i].0@) && map[entries[i].0@]
                == entries[i].1,
        forall|key: Seq<char>| #[trigger]
            map.contains_key(key) ==> exists|i: int|
                0 <= i < entries.len() && #[trigger] entries[i].0@ == key,
    ensures
        map_of(entries) == map,
{
    assert forall|key: Seq<char>| #[trigger] map_of(entries).contains_key(key) implies map_of(
        entries,
    )[key] == map[key] by {
        let i = choose|i: int| 0 <= i < entries.len() && #[trigger] entries[i].0@ == key;
        lemma_entry(entries, i);
    }
    assert(map_of(entries) =~= map);
}

/// Where a key has its place among entries in order: those before the place sort before it, and
/// those from the place on after it.
spec fn is_place<V>(entries: Seq<(String, V)>, key: Seq<char>, at: int) -> bool {
    &&& 0 <= at <= entries.len()
    &&& forall|i: int| 0 <= i < at ==> crate::text::sorts_before((#[trigger] entries[i]).0@, key)
    &&& forall|i: int|
        at <= i < entries.len() ==> crate::text::sorts_before(key, (#[trigger] entries[i]).0@)
}

/// A key that has its place beside the entries is not among them.
proof fn lemma_absent<V>(entries: Seq<(String, V)>, key: Seq<char>, at: int)
    requires
        is_place(entries, key, at),
    ensures
        !map_of(entries).contains_key(key),
{
    crate::text::lemma_order_of_texts();
    if map_of(entries).contains_key(key) {
        let i = choose|i: int| 0 <= i < entries.len() && #[trigger] entries[i].0@ == key;
        assert(crate::text::sorts_before(key, key));
    }
}

/// Putting an entry in its place inserts it.
proof fn lemma_insert<V>(entries: Seq<(String, V)>, entry: (String, V), at: int)
    requires
        sorted_keys(entries),
        is_place(entries, entry.0@, at),
    ensures
        sorted_keys(entries.insert(at, entry)),
        map_of(entries.insert(at, entry)) == map_of(entries).insert(entry.0@, entry.1),
{
    let longer = entries.insert(at, entry);
    let map = map_of(entries).insert(entry.0@, entry.1);
    lemma_sorted(entries);
    lemma_absent(entries, entry.0@, at);
    assert forall|i: int, j: int| 0 <= i < j < longer.len() implies crate::text::sorts_before(
        (#[trigger] longer[i]).0@,
        (#[trigger] longer[j]).0@,
    ) by {
        let from_i = if i < at { i } else { i - 1 };
        let from_j = if j < at { j } else { j - 1 };
        if i != at {
            assert(longer[i] == entries[from_i]);
        }
        if j != at {
            assert(longer[j] == entries[from_j]);
        }
    }
    lemma_sorted(longer);
    assert forall|i: int| #![trigger longer[i]] 0 <= i < longer.len() implies map.contains_key(
        longer[i].0@,
    ) && map[longer[i].0@] == longer[i].1 by {
        if i != at {
            let from = if i < at { i } else { i - 1 };
            assert(longer[i] == entries[from]);
            lemma_entry(entries, from);
        }
    }
    assert forall|key: Seq<char>| #[trigger] map.contains_key(key) implies exists|i: int|
        0 <= i < longer.len() && #[trigger] longer[i].0@ == key by {
        if key == entry.0@ {
            assert(longer[at].0@ == key);
        } else {
            let i = choose|i: int| 0 <= i < entries.len() && #[trigger] entries[i].0@ == key;
            assert(longer[if i < at { i } else { i + 1 }].0@ == key);
        }
    }
    lemma_map_of(longer, map);
}

/// Putting an entry in place of the one with its key gives the key another value.
proof fn lemma_update<V>(entries: Seq<(String, V)>, entry: (String, V), at: int)
    requires
        sorted_keys(entries),
        0 <= at < entries.len(),
        entries[at].0@ == entry.0@,
    ensures
        sorted_keys(entries.update(at, entry)),
        map_of(entries.update(at, entry)) == map_of(entries).insert(entry.0@, entry.1),
{
    let changed = entries.update(at, entry);
    let map = map_of(entries).insert(entry.0@, entry.1);
    assert forall|i: int| 0 <= i < changed.len() implies (#[trigger] changed[i]).0@
        == entries[i].0@ by {}
    lemma_sorted(entries);
    lemma_sorted(changed);
    assert forall|i: int| #![trigger changed[i]] 0 <= i < changed.len() implies map.contains_key(
        changed[i].0@,
    ) && map[changed[i].0@] == changed[i].1 by {
        lemma_entry(entries, i);
        if i < at {
            assert(entries[i].0@ != entries[at].0@);
        }
        if at < i {
            assert(entries[at].0@ != entries[i].0@);
        }
    }
    assert forall|key: Seq<char>| #[trigger] map.contains_key(key) implies exists|i: int|
        0 <= i < changed.len() && #[trigger] changed[i].0@ == key by {
        if key == entry.0@ {
            assert(changed[at].0@ == key);
        } else {
            let i = choose|i: int| 0 <= i < entries.len() && #[trigger] entries[i].0@ == key;
            assert(changed[i].0@ == key);
        }
    }
    lemma_map_of(changed, map);
}

/// Deleting an entry from the list removes its key.
proof fn lemma_remove<V>(entries: Seq<(String, V)>, at: int)
    requires
        sorted_keys(entries),
        0 <= at < entries.len(),
    ensures
        sorted_keys(entries.remove(at)),
        map_of(entries.remove(at)) == map_of(entries).remove(entries[at].0@),
{
    let shorter = entries.remove(at);
    let map = map_of(entries).remove(entries[at].0@);
    assert forall|i: int, j: int| 0 <= i < j < shorter.len() implies crate::text::sorts_before(
        (#[trigger] shorter[i]).0@,
        (#[trigger] shorter[j]).0@,
    ) by {
        assert(shorter[i] == entries[if i < at { i } else { i + 1 }]);
        assert(shorter[j] == entries[if j < at { j } else { j + 1 }]);
    }
    lemma_sorted(entries);
    lemma_sorted(shorter);
    assert forall|i: int| #![trigger shorter[i]] 0 <= i < shorter.len() implies map.contains_key(
        shorter[i].0@,
    ) && map[shorter[i].0@] == shorter[i].1 by {
        let from = if i < at { i } else { i + 1 };
        assert(shorter[i] == entries[from]);
        lemma_entry(entries, from);
        if from < at {
            assert(entries[from].0@ != entries[at].0@);
        } else {
            assert(entries[at].0@ != entries[from].0@);
        }
    }
    assert forall|key: Seq<char>| #[trigger] map.contains_key(key) implies exists|i: int|
        0 <= i < shorter.len() && #[trigger] shorter[i].0@ == key by {
        let i = choose|i: int| 0 <= i < entries.len() && #[trigger] entries[i].0@ == key;
        assert(shorter[if i < at { i } else { i - 1 }].0@ == key);
    }
    lemma_map_of(shorter, map);
}

/// Keys and values that are those of entries in order are in order, and stand for the entries.
proof fn lemma_listed<V>(keys: Seq<String>, values: Seq<V>, entries: Seq<(String, V)>)
    requires
        keys.len() == entries.len(),
        forall|i: int|
            #![trigger entries[i]]
            0 <= i < entries.len() ==> keys[i] == entries[i].0 && values[i] == entries[i].1,
        sorted_keys(entries),
    ensures
        pairs(keys, values) == entries,
        forall|i: int, j: int|
            0 <= i < j < keys.len() ==> crate::text::sorts_before(
                (#[trigger] keys[i])@,
                (#[trigger] keys[j])@,
            ),
{
    assert(pairs(keys, values) =~= entries);
    assert forall|i: int, j: int| 0 <= i < j < keys.len() implies crate::text::sorts_before(
        (#[trigger] keys[i])@,
        (#[trigger] keys[j])@,
    ) by {
        assert(entries[i].0 == keys[i] && entries[j].0 == keys[j]);
    }
}

/// Keys and the values to them, as entries.
pub open spec fn pairs<V>(keys: Seq<String>, values: Seq<V>) -> Seq<(String, V)> {
    Seq::new(keys.len(), |i: int| (keys[i], values[i]))
}

/// A map from strings to values.
#[derive(Debug)]
pub struct StringMap<V> {
    keys: Vec<String>,
    values: Vec<V>,
}

impl<V> View for StringMap<V> {
    type V = Map<Seq<char>, V>;

    open spec fn view(&self) -> Map<Seq<char>, V> {
        map_of(self.listing())
    }
}

impl<V> StringMap<V> {
    #[verifier::type_invariant]
    spec fn well_formed(self) -> bool {
        &&& self.keys@.len() == self.values@.len()
        &&& forall|i: int, j: int|
            0 <= i < j < self.keys@.len() ==> crate::text::sorts_before(
                (#[trigger] self.keys@[i])@,
                (#[trigger] self.keys@[j])@,
            )
    }

    /// The entries, in the order of their keys.
    pub closed spec fn listing(&self) -> Seq<(String, V)> {
        pairs(self.keys@, self.values@)
    }

    /// The map without entries.
    pub fn new() -> (map: Self)
        ensures
            map@ == Map::<Seq<char>, V>::empty(),
    {
        let map = StringMap { keys: Vec::new(), values: Vec::new() };
        assert(map@ =~= Map::<Seq<char>, V>::empty());
        map
    }

    /// The number of entries.
    pub fn len(&self) -> (len: usize)
        ensures
            len == self.listing().len(),
            sorted_keys(self.listing()),
    {
        proof {
            use_type_invariant(self);
        }
        self.keys.len()
    }

    /// The entry at a position of the listing.
    pub fn entry_at(&self, position: usize) -> (entry: (&String, &V))
        requires
            position < self.listing().len(),
        ensures
            *entry.0 == self.listing()[position as int].0,
            *entry.1 == self.listing()[position as int].1,
            self@.contains_key(entry.0@),
            self@[entry.0@] == *entry.1,
    {
        proof {
            use_type_invariant(self);
            lemma_sorted(self.listing());
            lemma_entry(self.listing(), position as int);
        }
        (&self.keys[position], &self.values[position])
    }

    /// Where the entry with a key is; without one, the place that it would have.
    fn find(&self, key: &str) -> (found: Result<usize, usize>)
        ensures
            match found {
                Ok(i) => {
                    &&& i < self.listing().len()
                    &&& self.listing()[i as int].0@ == key@
                    &&& self@.contains_key(key@)
                    &&& self@[key@] == self.listing()[i as int].1
                },
                Err(i) => is_place(self.listing(), key@, i as int) && !self@.contains_key(key@),
            },
    {
        let ghost entries = self.listing();
        proof {
            use_type_invariant(self);
            crate::text::lemma_order_of_texts();
            lemma_sorted(entries);
        }
        let mut low: usize = 0;
        let mut high: usize = self.keys.len();
        while low < high
            invariant
                low <= high <= self.keys@.len(),
                entries == self.listing(),
                sorted_keys(entries),
                distinct_keys(entries),
                forall|a: Seq<char>, b: Seq<char>, c: Seq<char>| #[trigger]
                    crate::text::sorts_before(a, b) && #[trigger] crate::text::sorts_before(b, c)
                        ==> crate::text::sorts_before(a, c),
                forall|i: int|
                    0 <= i < low ==> crate::text::sorts_before((#[trigger] entries[i]).0@, key@),
                forall|i: int|
                    high <= i < entries.len() ==> crate::text::sorts_before(
                        key@,
                        (#[trigger] entries[i]).0@,
                    ),
            decreases high - low,
        {
            let middle: usize = low + (high - low) / 2;
            assert(entries[middle as int].0 == self.keys@[middle as int]);
            match place(self.keys[middle].as_str(), key) {
                Place::Before => {
                    low = middle + 1;
                },
                Place::Same => {
                    proof {
                        lemma_entry(entries, middle as int);
                    }
                    return Ok(middle);
                },
                Place::After => {
                    high = middle;
                },
            }
        }
        proof {
            lemma_absent(entries, key@, low as int);
        }
        Err(low)
    }

    /// The value at a key.
    pub fn get(&self, key: &str) -> (value: Option<&V>)
        ensures
            match value {
                Some(v) => self@.contains_key(key@) && self@[key@] == *v,
                None => !self@.contains_key(key@),
            },
    {
        proof {
            use_type_invariant(self);
        }
        match self.find(key) {
            Ok(i) => Some(&self.values[i]),
            Err(_) => None,
        }
    }

    /// The value at a key, to be changed in its place.
    pub fn get_mut(&mut self, key: &str) -> (value: Option<&mut V>)
        ensures
            match value {
                Some(v) => {
                    &&& old(self)@.contains_key(key@)
                    &&& *v == old(self)@[key@]
                    &&& final(self)@ == old(self)@.insert(key@, *final(v))
                },
                None => !old(self)@.contains_key(key@) && final(self)@ == old(self)@,
            },
    {
        proof {
            use_type_invariant(&*self);
        }
        match self.find(key) {
            Ok(i) => {
                let ghost entries = self.listing();
                let ghost keys = self.keys@;
                let ghost values = self.values@;
                let value = &mut self.values[i];
                proof {
                    let changed = (keys[i as int], *final(value));
                    lemma_update(entries, changed, i as int);
                    assert(pairs(keys, values.update(i as int, *final(value))) =~= entries.update(
                        i as int,
                        changed,
                    ));
                }
                Some(value)
            },
            Err(_) => None,
        }
    }

    /// Whether a key has a value.
    pub fn contains_key(&self, key: &str) -> (contained: bool)
        ensures
            contained == self@.contains_key(key@),
    {
        self.find(key).is_ok()
    }

    /// Takes a key out, and returns the value that it had.
    pub fn remove(&mut self, key: &str) -> (removed: Option<V>)
        ensures
            final(self)@ == old(self)@.remove(key@),
            match removed {
                Some(v) => old(self)@.contains_key(key@) && old(self)@[key@] == v,
                None => !old(self)@.contains_key(key@),
            },
    {
        match self.find(key) {
            Ok(i) => {
                proof {
                    use_type_invariant(&*self);
                    lemma_remove(self.listing(), i as int);
                }
                let ghost shorter = self.listing().remove(i as int);
                let mut held: StringMap<V> = StringMap::new();
                std::mem::swap(self, &mut held);
                let StringMap { mut keys, mut values } = held;
                keys.remove(i);
                let value = values.remove(i);
                proof {
                    lemma_listed(keys@, values@, shorter);
                }
                *self = StringMap { keys, values };
                Some(value)
            },
            Err(_) => {
                assert(self@.remove(key@) =~= self@);
                None
            },
        }
    }

    /// Gives a key a value, in place of the one that it had.
    pub fn insert(&mut self, key: String, value: V)
        ensures
            final(self)@ == old(self)@.insert(key@, value),
    {
        let found = self.find(key.as_str());
        proof {
            use_type_invariant(&*self);
        }
        let ghost entries = self.listing();
        let mut held: StringMap<V> = StringMap::new();
        std::mem::swap(self, &mut held);
        let StringMap { mut keys, mut values } = held;
        match found {
            Ok(i) => {
                proof {
                    lemma_update(entries, (keys@[i as int], value), i as int);
                }
                values.set(i, value);
                proof {
                    lemma_listed(
                        keys@,
                        values@,
                        entries.update(i as int, (keys@[i as int], value)),
                    );
                }
            },
            Err(i) => {
                proof {
                    lemma_insert(entries, (key, value), i as int);
                }
                keys.insert(i, key);
                values.insert(i, value);
                proof {
                    lemma_listed(keys@, values@, entries.insert(i as int, (key, value)));
                }
            },
        }
        *self = StringMap { keys, values };
    }

    /// Keeps the entries whose value `keep` accepts, and takes the others out.
    pub fn retain<F: Fn(&V) -> bool>(&mut self, keep: F)
        requires
            forall|key: Seq<char>| #[trigger]
                old(self)@.contains_key(key) ==> call_requires(keep, (&old(self)@[key],)),
        ensures
            forall|key: Seq<char>| #[trigger]
                final(self)@.contains_key(key) ==> {
                    &&& old(self)@.contains_key(key)
                    &&& final(self)@[key] == old(self)@[key]
                    &&& call_ensures(keep, (&old(self)@[key],), true)
                },
            forall|key: Seq<char>| #[trigger]
                old(self)@.contains_key(key) && !final(self)@.contains_key(key) ==> call_ensures(
                    keep,
                    (&old(self)@[key],),
                    false,
                ),
    {
        proof {
            use_type_invariant(&*self);
            lemma_sorted(self.listing());
        }
        let ghost before = self.listing();
        assert forall|key: Seq<char>| #[trigger]
            map_of(before).contains_key(key) implies call_requires(
            keep,
            (&map_of(before)[key],),
        ) by {
            assert(old(self)@.contains_key(key));
        }
        let mut held: StringMap<V> = StringMap::new();
        std::mem::swap(self, &mut held);
        let StringMap { keys: all_keys, values: all_values } = held;
        let mut left_keys = reversed(all_keys);
        let mut left_values = reversed(all_values);
        let mut keys: Vec<String> = Vec::new();
        let mut values: Vec<V> = Vec::new();
        let ghost mut kept: Seq<(String, V)> = Seq::empty();
        let ghost mut seen: int = 0;
        loop
            invariant_except_break
                0 <= seen <= before.len(),
                left_keys@.len() == before.len() - seen,
                left_values@.len() == before.len() - seen,
                forall|i: int|
                    0 <= i < left_keys@.len() ==> #[trigger] left_keys@[i] == before[before.len()
                        - 1 - i].0,
                forall|i: int|
                    0 <= i < left_values@.len() ==> #[trigger] left_values@[i]
                        == before[before.len() - 1 - i].1,
            invariant
                sorted_keys(before),
                distinct_keys(before),
                sorted_keys(kept),
                keys@.len() == kept.len(),
                values@.len() == kept.len(),
                forall|j: int|
                    #![trigger kept[j]]
                    0 <= j < kept.len() ==> keys@[j] == kept[j].0 && values@[j] == kept[j].1,
                forall|key: Seq<char>| #[trigger]
                    map_of(before).contains_key(key) ==> call_requires(
                        keep,
                        (&map_of(before)[key],),
                    ),
                forall|j: int|
                    #![trigger kept[j]]
                    0 <= j < kept.len() ==> {
                        &&& call_ensures(keep, (&kept[j].1,), true)
                        &&& exists|i: int| 0 <= i < seen && #[trigger] before[i] == kept[j]
                    },
                forall|i: int|
                    #![trigger before[i]]
                    0 <= i < seen ==> call_ensures(keep, (&before[i].1,), false) || exists|j: int|
                        0 <= j < kept.len() && #[trigger] kept[j] == before[i],
            ensures
                seen == before.len(),
            decreases left_keys@.len(),
        {
            match (left_keys.pop(), left_values.pop()) {
                (Some(key), Some(value)) => {
                    let ghost entry = (key, value);
                    let ghost shorter = kept;
                    proof {
                        assert(before[seen] == entry);
                        lemma_entry(before, seen);
                    }
                    if keep(&value) {
                        keys.push(key);
                        values.push(value);
                        proof {
                            kept = kept.push(entry);
                            assert(kept[shorter.len() as int] == before[seen]);
                        }
                    }
                    proof {
                        assert(forall|j: int|
                            #![trigger shorter[j]]
                            0 <= j < shorter.len() ==> kept[j] == shorter[j]);
                        seen = seen + 1;
                    }
                },
                _ => {
                    break;
                },
            }
        }
        proof {
            lemma_sorted(kept);
            lemma_listed(keys@, values@, kept);
        }
        *self = StringMap { keys, values };
    }
}

/// A list from its end to its beginning.
fn reversed<T>(list: Vec<T>) -> (backwards: Vec<T>)
    ensures
        backwards@ == list@.reverse(),
{
    let mut left = list;
    let mut backwards: Vec<T> = Vec::new();
    let ghost all = list@;
    loop
        invariant
            left@.len() + backwards@.len() == all.len(),
            left@ =~= all.take(left@.len() as int),
            forall|i: int|
                0 <= i < backwards@.len() ==> #[trigger] backwards@[i] == all[all.len() - 1 - i],
        ensures
            left@.len() == 0,
        decreases left@.len(),
    {
        match left.pop() {
            Some(item) => {
                backwards.push(item);
            },
            None => {
                break;
            },
        }
    }
    backwards
}

impl Clone for StringMap<String> {
    fn clone(&self) -> (copy: Self)
        ensures
            copy.listing() == self.listing(),
    {
        proof {
            use_type_invariant(self);
        }
        let mut keys: Vec<String> = Vec::new();
        let mut values: Vec<String> = Vec::new();
        let mut i: usize = 0;
        while i < self.keys.len()
            invariant
                i <= self.keys@.len(),
                self.keys@.len() == self.values@.len(),
                keys@ =~= self.keys@.take(i as int),
                values@ =~= self.values@.take(i as int),
            decreases self.keys@.len() - i,
        {
            keys.push(self.keys[i].clone());
            values.push(self.values[i].clone());
            i += 1;
        }
        assert(keys@ =~= self.keys@);
        assert(values@ =~= self.values@);
        StringMap { keys, values }
    }
}

}
