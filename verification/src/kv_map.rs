//! Maps from string keys that are looked up by hash and walked in the order in which their keys
//! arrived.

use vstd::hash_map::StringHashMap;
use vstd::prelude::*;

verus! {

/// One entry of a key-value map, as a specification sees it: the key and its value.
pub type Entry = (Seq<char>, Seq<char>);

/// One entry of the changed keys, as a specification sees it: the key, then the first side's
/// value and the second side's.
pub type ChangedEntry = (Seq<char>, (Seq<char>, Seq<char>));

/// Whether some entry of `entries` has the key `key`.
pub open spec fn has_key<V>(entries: Seq<(Seq<char>, V)>, key: Seq<char>) -> bool {
    exists|i: int| 0 <= i < entries.len() && (#[trigger] entries[i]).0 == key
}

/// A place at which `key` stands in `entries`, where `has_key(entries, key)`.
pub open spec fn key_index<V>(entries: Seq<(Seq<char>, V)>, key: Seq<char>) -> int {
    choose|i: int| 0 <= i < entries.len() && (#[trigger] entries[i]).0 == key
}

/// No key stands at two places of `entries`.
pub open spec fn distinct_keys<V>(entries: Seq<(Seq<char>, V)>) -> bool {
    forall|i: int, j: int|
        0 <= i < entries.len() && 0 <= j < entries.len() && i != j ==> (#[trigger] entries[i]).0 != (
        #[trigger] entries[j]).0
}

/// The mapping that a sequence of entries stands for. Where a key occurs twice, the later entry
/// counts.
pub open spec fn map_of<V>(entries: Seq<(Seq<char>, V)>) -> Map<Seq<char>, V>
    decreases entries.len(),
{
    if entries.len() == 0 {
        Map::empty()
    } else {
        map_of(entries.drop_last()).insert(entries.last().0, entries.last().1)
    }
}

/// `entries` after `key` was set to `value`: the entry is replaced where the key is present and
/// appended where it is not.
pub open spec fn put<V>(entries: Seq<(Seq<char>, V)>, key: Seq<char>, value: V) -> Seq<
    (Seq<char>, V),
> {
    if has_key(entries, key) {
        entries.update(key_index(entries, key), (key, value))
    } else {
        entries.push((key, value))
    }
}

/// The keys of `map_of(entries)` are the keys of the entries, and there are finitely many.
pub proof fn lemma_map_of_keys<V>(entries: Seq<(Seq<char>, V)>)
    ensures
        forall|key: Seq<char>| #[trigger] map_of(entries).contains_key(key) <==> has_key(entries, key),
        map_of(entries).dom().finite(),
    decreases entries.len(),
{
    if entries.len() > 0 {
        let front = entries.drop_last();
        lemma_map_of_keys(front);
        assert forall|key: Seq<char>| #[trigger]
            map_of(entries).contains_key(key) <==> has_key(entries, key) by {
            if has_key(entries, key) {
                let i = key_index(entries, key);
                if i < entries.len() - 1 {
                    assert(front[i].0 == key);
                }
            }
            if map_of(entries).contains_key(key) && key != entries.last().0 {
                let i = key_index(front, key);
                assert(entries[i].0 == key);
            }
            if key == entries.last().0 {
                assert(entries[entries.len() - 1].0 == key);
            }
        }
    }
}

/// Where the keys are distinct, `map_of(entries)` gives each key the value that stands with it,
/// and has as many keys as there are entries.
pub proof fn lemma_map_of_values<V>(entries: Seq<(Seq<char>, V)>)
    requires
        distinct_keys(entries),
    ensures
        forall|i: int|
            0 <= i < entries.len() ==> map_of(entries)[(#[trigger] entries[i]).0] == entries[i].1,
        map_of(entries).len() == entries.len(),
    decreases entries.len(),
{
    if entries.len() > 0 {
        let front = entries.drop_last();
        assert(distinct_keys(front)) by {
            assert forall|i: int, j: int|
                0 <= i < front.len() && 0 <= j < front.len() && i != j implies (#[trigger] front[i]).0
                != (#[trigger] front[j]).0 by {
                assert(entries[i].0 != entries[j].0);
            }
        }
        lemma_map_of_values(front);
        lemma_map_of_keys(front);
        assert forall|i: int| 0 <= i < entries.len() implies map_of(entries)[(
        #[trigger] entries[i]).0] == entries[i].1 by {
            if i < entries.len() - 1 {
                assert(front[i] == entries[i]);
                assert(entries[i].0 != entries[entries.len() - 1].0);
            }
        }
        assert(!map_of(front).contains_key(entries.last().0)) by {
            if has_key(front, entries.last().0) {
                let i = key_index(front, entries.last().0);
                assert(entries[i].0 == entries[entries.len() - 1].0);
            }
        }
    }
}

/// The first `count` entries of a sequence of distinct keys have distinct keys, and none of
/// them has the key of the entry that follows them.
pub proof fn lemma_prefix_keys<V>(entries: Seq<(Seq<char>, V)>, count: int)
    requires
        distinct_keys(entries),
        0 <= count <= entries.len(),
    ensures
        distinct_keys(entries.take(count)),
        count < entries.len() ==> !has_key(entries.take(count), entries[count].0),
{
    let seen = entries.take(count);
    assert forall|i: int, j: int|
        0 <= i < seen.len() && 0 <= j < seen.len() && i != j implies (#[trigger] seen[i]).0 != (
        #[trigger] seen[j]).0 by {
        assert(entries[i].0 != entries[j].0);
    }
    if count < entries.len() && has_key(seen, entries[count].0) {
        let i = key_index(seen, entries[count].0);
        assert(entries[i].0 == entries[count].0);
    }
}

/// Setting a key in a sequence of distinct keys keeps the keys distinct, and is what `insert`
/// is on the mapping.
pub proof fn lemma_put<V>(entries: Seq<(Seq<char>, V)>, key: Seq<char>, value: V)
    requires
        distinct_keys(entries),
    ensures
        distinct_keys(put(entries, key, value)),
        map_of(put(entries, key, value)) == map_of(entries).insert(key, value),
{
    let after = put(entries, key, value);
    if has_key(entries, key) {
        let at = key_index(entries, key);
        assert forall|i: int, j: int|
            0 <= i < after.len() && 0 <= j < after.len() && i != j implies (#[trigger] after[i]).0 != (
            #[trigger] after[j]).0 by {
            assert(entries[i].0 != entries[j].0);
        }
        lemma_map_of_keys(entries);
        lemma_map_of_keys(after);
        lemma_map_of_values(entries);
        lemma_map_of_values(after);
        assert forall|k: Seq<char>|
            map_of(after).contains_key(k) <==> map_of(entries).insert(key, value).contains_key(
                k,
            ) by {
            if has_key(after, k) {
                let i = key_index(after, k);
                assert(entries[i].0 == k);
            }
            if has_key(entries, k) {
                let i = key_index(entries, k);
                assert(after[i].0 == k);
            }
        }
        assert forall|k: Seq<char>| #[trigger] map_of(after).contains_key(k) implies map_of(after)[k]
            == map_of(entries).insert(key, value)[k] by {
            let i = key_index(after, k);
            assert(after[i].0 == k);
            assert(entries[i].0 == k);
        }
        assert(map_of(after) =~= map_of(entries).insert(key, value));
    } else {
        assert forall|i: int, j: int|
            0 <= i < after.len() && 0 <= j < after.len() && i != j implies (#[trigger] after[i]).0 != (
            #[trigger] after[j]).0 by {
            if i < entries.len() {
                assert(entries[i] == after[i]);
            }
            if j < entries.len() {
                assert(entries[j] == after[j]);
            }
        }
        assert(after.drop_last() =~= entries);
    }
}

/// A mapping from string keys to values of type `V`. Lookup goes through a hash index; iteration
/// follows the order in which the keys were first inserted.
pub struct OrderedMap<V> {
    entries: Vec<(String, V)>,
    index: StringHashMap<usize>,
}

/// A mapping from keys to values, as one input file gives it.
pub type KeyValueMap = OrderedMap<String>;

/// A mapping from keys to the pair of values that the two sides give them.
pub type ChangedMap = OrderedMap<(String, String)>;

impl<V> OrderedMap<V> {
    /// The hash index holds each key with the place of its entry, and nothing else. Every value
    /// of this type meets this.
    #[verifier::type_invariant]
    pub closed spec fn wf(&self) -> bool {
        &&& forall|i: int|
            0 <= i < self.entries@.len() ==> {
                &&& self.index@.contains_key((#[trigger] self.entries@[i]).0@)
                &&& self.index@[self.entries@[i].0@] == i
            }
        &&& forall|key: Seq<char>| #[trigger]
            self.index@.contains_key(key) ==> {
                &&& self.index@[key] < self.entries@.len()
                &&& self.entries@[self.index@[key] as int].0@ == key
            }
    }
}

impl<V: DeepView> View for OrderedMap<V> {
    type V = Map<Seq<char>, V::V>;

    open spec fn view(&self) -> Map<Seq<char>, V::V> {
        map_of(self.entries())
    }
}

impl<V: DeepView> OrderedMap<V> {
    /// The entries in iteration order.
    pub closed spec fn entries(&self) -> Seq<(Seq<char>, V::V)> {
        Seq::new(
            self.entries@.len(),
            |i: int| (self.entries@[i].0@, self.entries@[i].1.deep_view()),
        )
    }

    /// A well-formed map holds no key twice, and no more entries than a `usize` counts.
    pub proof fn lemma_distinct_keys(self)
        requires
            self.wf(),
        ensures
            distinct_keys(self.entries()),
            self.entries().len() <= usize::MAX,
            self@.len() == self.entries().len(),
    {
        assert forall|i: int, j: int|
            0 <= i < self.entries().len() && 0 <= j < self.entries().len() && i != j implies (
        #[trigger] self.entries()[i]).0 != (#[trigger] self.entries()[j]).0 by {
            assert(self.index@[self.entries@[i].0@] == i);
            assert(self.index@[self.entries@[j].0@] == j);
        }
        lemma_map_of_values(self.entries());
        assert(self.entries.len() == self.entries@.len());
    }

    /// An empty map.
    pub fn new() -> (map: Self)
        ensures
            map.entries() == Seq::<(Seq<char>, V::V)>::empty(),
            map@ == Map::<Seq<char>, V::V>::empty(),
    {
        let map = OrderedMap { entries: Vec::new(), index: StringHashMap::new() };
        assert(map.entries() =~= Seq::<(Seq<char>, V::V)>::empty());
        map
    }

    /// The number of entries.
    pub fn len(&self) -> (n: usize)
        ensures
            n == self.entries().len(),
            n == self@.len(),
    {
        proof {
            use_type_invariant(self);
            self.lemma_distinct_keys();
        }
        self.entries.len()
    }

    /// Whether the map holds no entry.
    pub fn is_empty(&self) -> (empty: bool)
        ensures
            empty == (self.entries().len() == 0),
            empty == (self@.len() == 0),
    {
        proof {
            use_type_invariant(self);
            self.lemma_distinct_keys();
        }
        self.entries.len() == 0
    }

    /// Whether `key` has a value.
    pub fn contains_key(&self, key: &str) -> (present: bool)
        ensures
            present == self@.contains_key(key@),
            present == has_key(self.entries(), key@),
    {
        proof {
            use_type_invariant(self);
            self.lemma_index_agrees(key@);
        }
        self.index.contains_key(key)
    }

    /// The value of `key`, if it has one.
    pub fn get(&self, key: &str) -> (value: Option<&V>)
        ensures
            value is Some <==> self@.contains_key(key@),
            value matches Some(v) ==> v.deep_view() == self@[key@],
    {
        proof {
            use_type_invariant(self);
            self.lemma_index_agrees(key@);
        }
        match self.index.get(key) {
            Some(at) => Some(&self.entries[*at].1),
            None => None,
        }
    }

    /// The entry at place `at` of the iteration order, if there are that many.
    pub fn entry_at(&self, at: usize) -> (entry: Option<(&String, &V)>)
        ensures
            entry is Some <==> at < self.entries().len(),
            entry matches Some((key, value)) ==> (key@, value.deep_view()) == self.entries()[at as int],
    {
        if at < self.entries.len() {
            let entry = &self.entries[at];
            Some((&entry.0, &entry.1))
        } else {
            None
        }
    }

    /// Sets the value of `key`: in place where the key is present, at the end where it is new.
    pub fn insert(&mut self, key: String, value: V)
        ensures
            final(self).entries() == put(old(self).entries(), key@, value.deep_view()),
            final(self)@ == old(self)@.insert(key@, value.deep_view()),
    {
        let mut taken = Self::new();
        core::mem::swap(self, &mut taken);
        proof {
            use_type_invariant(&taken);
            taken.lemma_index_agrees(key@);
            taken.lemma_distinct_keys();
            lemma_put(taken.entries(), key@, value.deep_view());
        }
        let ghost before = taken;
        let OrderedMap { mut entries, mut index } = taken;
        match index.get(key.as_str()) {
            Some(at) => {
                let at = *at;
                entries.set(at, (key, value));
            },
            None => {
                let at = entries.len();
                index.insert(key.clone(), at);
                entries.push((key, value));
            },
        }
        let after = OrderedMap { entries, index };
        assert(after.entries() =~= put(before.entries(), key@, value.deep_view()));
        *self = after;
    }

    /// What the hash index says of `key` is what the entries say.
    proof fn lemma_index_agrees(self, key: Seq<char>)
        requires
            self.wf(),
        ensures
            self.index@.contains_key(key) <==> has_key(self.entries(), key),
            self.index@.contains_key(key) <==> self@.contains_key(key),
            self.index@.contains_key(key) ==> {
                &&& key_index(self.entries(), key) == self.index@[key]
                &&& self@[key] == self.entries@[self.index@[key] as int].1.deep_view()
            },
    {
        self.lemma_distinct_keys();
        lemma_map_of_keys(self.entries());
        lemma_map_of_values(self.entries());
        if self.index@.contains_key(key) {
            let at = self.index@[key] as int;
            assert(self.entries()[at].0 == key);
        }
        if has_key(self.entries(), key) {
            let at = key_index(self.entries(), key);
            assert(self.entries@[at].0@ == key);
        }
    }
}

impl<V: DeepView> Default for OrderedMap<V> {
    /// An empty map.
    fn default() -> (map: Self)
        ensures
            map.entries() == Seq::<(Seq<char>, V::V)>::empty(),
    {
        Self::new()
    }
}

} // verus!
