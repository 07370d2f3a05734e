//! The comparison of two key-value maps: what only one side has, and what the sides disagree on.

use crate::kv_map::{
    distinct_keys, has_key, key_index, lemma_map_of_keys, lemma_map_of_values, lemma_prefix_keys,
    map_of, ChangedEntry, ChangedMap, Entry, KeyValueMap,
};
use vstd::prelude::*;

verus! {

/// A mapping from keys to values, as a specification sees it.
pub type Mapping = Map<Seq<char>, Seq<char>>;

/// The part of `left` whose keys `right` does not have.
pub open spec fn unique_of(left: Mapping, right: Mapping) -> Mapping {
    left.remove_keys(right.dom())
}

/// The keys that both sides have with unequal values, each with the pair of the first side's value
/// and the second side's.
pub open spec fn changed_of(a: Mapping, b: Mapping) -> Map<Seq<char>, (Seq<char>, Seq<char>)> {
    Map::new(
        |key: Seq<char>| a.contains_key(key) && b.contains_key(key) && a[key] != b[key],
        |key: Seq<char>| (a[key], b[key]),
    )
}

/// The keys that both sides have with the same value: the ones a comparison leaves out.
pub open spec fn agreed_keys(a: Mapping, b: Mapping) -> Set<Seq<char>> {
    Set::new(|key: Seq<char>| a.contains_key(key) && b.contains_key(key) && a[key] == b[key])
}

/// What a `Diff` holds, as mappings.
#[verifier::ext_equal]
pub struct DiffView {
    pub unique_a: Mapping,
    pub unique_b: Mapping,
    pub changed: Map<Seq<char>, (Seq<char>, Seq<char>)>,
}

/// The comparison of `a` with `b`.
pub open spec fn diff_of(a: Mapping, b: Mapping) -> DiffView {
    DiffView { unique_a: unique_of(a, b), unique_b: unique_of(b, a), changed: changed_of(a, b) }
}

/// Whether an entry of one side is missing from the other side.
pub open spec fn is_unique(entry: Entry, right: Mapping) -> bool {
    !right.contains_key(entry.0)
}

/// Whether the other side has the entry's key with another value.
pub open spec fn is_changed(entry: Entry, right: Mapping) -> bool {
    right.contains_key(entry.0) && right[entry.0] != entry.1
}

/// The entries of `left` whose keys `right` does not have, in the order of `left`.
pub open spec fn unique_entries(left: Seq<Entry>, right: Mapping) -> Seq<Entry> {
    left.filter(|entry: Entry| is_unique(entry, right))
}

/// The entries of `left` whose keys `right` has with another value, in the order of `left`, each
/// with the value of `left` first and that of `right` second.
pub open spec fn changed_entries(left: Seq<Entry>, right: Mapping) -> Seq<ChangedEntry> {
    left.filter(|entry: Entry| is_changed(entry, right)).map_values(
        |entry: Entry| (entry.0, (entry.1, right[entry.0])),
    )
}

/// The differences between two key-value maps.
pub struct Diff {
    /// The entries whose keys only the first map has.
    pub unique_a: KeyValueMap,
    /// The entries whose keys only the second map has.
    pub unique_b: KeyValueMap,
    /// The keys that both maps have with unequal values.
    pub changed: ChangedMap,
}

impl View for Diff {
    type V = DiffView;

    open spec fn view(&self) -> DiffView {
        DiffView { unique_a: self.unique_a@, unique_b: self.unique_b@, changed: self.changed@ }
    }
}

/// What a filter keeps of a sequence of distinct keys: exactly the entries that pass, each once.
pub proof fn lemma_filter_entries(entries: Seq<Entry>, keep: spec_fn(Entry) -> bool)
    requires
        distinct_keys(entries),
    ensures
        distinct_keys(entries.filter(keep)),
        forall|key: Seq<char>| #[trigger]
            has_key(entries.filter(keep), key) <==> has_key(entries, key) && keep(
                entries[key_index(entries, key)],
            ),
        forall|key: Seq<char>| #[trigger]
            has_key(entries.filter(keep), key) ==> entries.filter(keep)[key_index(
                entries.filter(keep),
                key,
            )] == entries[key_index(entries, key)],
    decreases entries.len(),
{
    reveal(Seq::filter);
    let kept = entries.filter(keep);
    if entries.len() > 0 {
        let front = entries.drop_last();
        let last = entries.last();
        assert(distinct_keys(front)) by {
            assert forall|i: int, j: int|
                0 <= i < front.len() && 0 <= j < front.len() && i != j implies (#[trigger] front[i]).0
                != (#[trigger] front[j]).0 by {
                assert(entries[i].0 != entries[j].0);
            }
        }
        lemma_filter_entries(front, keep);
        let kept_front = front.filter(keep);
        assert(!has_key(front, last.0)) by {
            if has_key(front, last.0) {
                let i = key_index(front, last.0);
                assert(entries[i].0 == entries[entries.len() - 1].0);
            }
        }
        assert forall|key: Seq<char>| has_key(front, key) implies has_key(entries, key) && entries[key_index(
            entries,
            key,
        )] == front[key_index(front, key)] by {
            let i = key_index(front, key);
            assert(entries[i].0 == key);
            let j = key_index(entries, key);
            assert(entries[j].0 == entries[i].0);
        }
        assert forall|key: Seq<char>| has_key(entries, key) && key != last.0 implies has_key(
            front,
            key,
        ) by {
            let i = key_index(entries, key);
            assert(front[i].0 == key);
        }
        assert(has_key(entries, last.0) && entries[key_index(entries, last.0)] == last) by {
            assert(entries[entries.len() - 1].0 == last.0);
            let j = key_index(entries, last.0);
            assert(entries[j].0 == entries[entries.len() - 1].0);
        }
        if keep(last) {
            assert(kept == kept_front.push(last));
            assert forall|i: int, j: int|
                0 <= i < kept.len() && 0 <= j < kept.len() && i != j implies (#[trigger] kept[i]).0 != (
                #[trigger] kept[j]).0 by {
                if i < kept_front.len() {
                    assert(kept_front[i] == kept[i]);
                    assert(has_key(kept_front, kept[i].0));
                }
                if j < kept_front.len() {
                    assert(kept_front[j] == kept[j]);
                    assert(has_key(kept_front, kept[j].0));
                }
            }
            assert forall|key: Seq<char>| has_key(kept_front, key) implies has_key(kept, key) && kept[key_index(
                kept,
                key,
            )] == kept_front[key_index(kept_front, key)] by {
                let i = key_index(kept_front, key);
                assert(kept[i].0 == key);
                let j = key_index(kept, key);
                assert(kept[j].0 == kept[i].0);
            }
            assert forall|key: Seq<char>| has_key(kept, key) && key != last.0 implies has_key(
                kept_front,
                key,
            ) by {
                let i = key_index(kept, key);
                assert(kept_front[i].0 == key);
            }
            assert(has_key(kept, last.0) && kept[key_index(kept, last.0)] == last) by {
                assert(kept[kept.len() - 1].0 == last.0);
                let j = key_index(kept, last.0);
                assert(kept[j].0 == kept[kept.len() - 1].0);
            }
        } else {
            assert(kept == kept_front);
        }
    }
}

/// The entries that `unique_entries` keeps stand for `unique_of`.
pub proof fn lemma_unique_entries(left: Seq<Entry>, right: Mapping)
    requires
        distinct_keys(left),
    ensures
        distinct_keys(unique_entries(left, right)),
        map_of(unique_entries(left, right)) == unique_of(map_of(left), right),
{
    let keep = |entry: Entry| is_unique(entry, right);
    let kept = unique_entries(left, right);
    lemma_filter_entries(left, keep);
    lemma_map_of_keys(left);
    lemma_map_of_keys(kept);
    lemma_map_of_values(left);
    lemma_map_of_values(kept);
    assert forall|key: Seq<char>| #[trigger]
        map_of(kept).contains_key(key) <==> unique_of(map_of(left), right).contains_key(key) by {
        if has_key(left, key) {
            assert(left[key_index(left, key)].0 == key);
        }
    }
    assert forall|key: Seq<char>| #[trigger] map_of(kept).contains_key(key) implies map_of(kept)[key]
        == unique_of(map_of(left), right)[key] by {
        assert(has_key(kept, key));
        assert(kept[key_index(kept, key)].0 == key);
        assert(left[key_index(left, key)].0 == key);
    }
    assert(map_of(kept) =~= unique_of(map_of(left), right));
}

/// The entries that `changed_entries` keeps stand for `changed_of`.
pub proof fn lemma_changed_entries(left: Seq<Entry>, right: Mapping)
    requires
        distinct_keys(left),
    ensures
        distinct_keys(changed_entries(left, right)),
        map_of(changed_entries(left, right)) == changed_of(map_of(left), right),
{
    let keep = |entry: Entry| is_changed(entry, right);
    let kept = left.filter(keep);
    let pairs = changed_entries(left, right);
    lemma_filter_entries(left, keep);
    assert(pairs.len() == kept.len());
    assert forall|i: int, j: int|
        0 <= i < pairs.len() && 0 <= j < pairs.len() && i != j implies (#[trigger] pairs[i]).0 != (
        #[trigger] pairs[j]).0 by {
        assert(kept[i].0 != kept[j].0);
    }
    assert forall|key: Seq<char>| has_key(pairs, key) <==> has_key(kept, key) by {
        if has_key(pairs, key) {
            assert(kept[key_index(pairs, key)].0 == key);
        }
        if has_key(kept, key) {
            assert(pairs[key_index(kept, key)].0 == key);
        }
    }
    lemma_map_of_keys(left);
    lemma_map_of_keys(pairs);
    lemma_map_of_values(left);
    lemma_map_of_values(pairs);
    assert forall|key: Seq<char>| #[trigger]
        map_of(pairs).contains_key(key) <==> changed_of(map_of(left), right).contains_key(key) by {
        if has_key(left, key) {
            assert(left[key_index(left, key)].0 == key);
        }
    }
    assert forall|key: Seq<char>| #[trigger] map_of(pairs).contains_key(key) implies map_of(
        pairs,
    )[key] == changed_of(map_of(left), right)[key] by {
        let i = key_index(pairs, key);
        assert(pairs[i].0 == key);
        assert(kept[i].0 == key);
        assert(has_key(kept, key));
        let j = key_index(kept, key);
        assert(kept[j].0 == kept[i].0);
        assert(left[key_index(left, key)].0 == key);
    }
    assert(map_of(pairs) =~= changed_of(map_of(left), right));
}

/// Two maps that share no key are wholly unique to their sides: the first side's unique entries
/// are the first map, the second side's are the second map, and nothing is changed.
pub proof fn lemma_disjoint_maps_are_unique(a: Mapping, b: Mapping)
    requires
        a.dom().disjoint(b.dom()),
    ensures
        diff_of(a, b).unique_a == a,
        diff_of(a, b).unique_b == b,
        diff_of(a, b).changed == Map::<Seq<char>, (Seq<char>, Seq<char>)>::empty(),
{
    assert(diff_of(a, b).unique_a =~= a);
    assert(diff_of(a, b).unique_b =~= b);
    assert(diff_of(a, b).changed =~= Map::<Seq<char>, (Seq<char>, Seq<char>)>::empty());
}

/// Two maps with the same keys and values differ nowhere: all three parts are empty.
pub proof fn lemma_equal_maps_have_empty_diff(a: Mapping, b: Mapping)
    requires
        a == b,
    ensures
        diff_of(a, b).unique_a == Mapping::empty(),
        diff_of(a, b).unique_b == Mapping::empty(),
        diff_of(a, b).changed == Map::<Seq<char>, (Seq<char>, Seq<char>)>::empty(),
{
    assert(diff_of(a, b).unique_a =~= Mapping::empty());
    assert(diff_of(a, b).unique_b =~= Mapping::empty());
    assert(diff_of(a, b).changed =~= Map::<Seq<char>, (Seq<char>, Seq<char>)>::empty());
}

/// The three parts of a comparison share no key, and together they hold every key of either
/// map but those that both maps have with the same value.
pub proof fn lemma_diff_partitions_keys(a: Mapping, b: Mapping)
    ensures
        diff_of(a, b).unique_a.dom().disjoint(diff_of(a, b).unique_b.dom()),
        diff_of(a, b).unique_a.dom().disjoint(diff_of(a, b).changed.dom()),
        diff_of(a, b).unique_b.dom().disjoint(diff_of(a, b).changed.dom()),
        diff_of(a, b).unique_a.dom().union(diff_of(a, b).unique_b.dom()).union(
            diff_of(a, b).changed.dom(),
        ) == a.dom().union(b.dom()).difference(agreed_keys(a, b)),
{
    assert(diff_of(a, b).unique_a.dom().union(diff_of(a, b).unique_b.dom()).union(
        diff_of(a, b).changed.dom(),
    ) =~= a.dom().union(b.dom()).difference(agreed_keys(a, b)));
}

/// A key that both maps have with unequal values is changed, and stands with the first map's
/// value first and the second map's value second.
pub proof fn lemma_changed_pairs_keep_sides(a: Mapping, b: Mapping, key: Seq<char>)
    requires
        a.contains_key(key),
        b.contains_key(key),
        a[key] != b[key],
    ensures
        diff_of(a, b).changed.contains_key(key),
        diff_of(a, b).changed[key] == (a[key], b[key]),
{
}

/// Comparing the same two maps again gives the same content: two results that each hold what
/// `get_diff` promises of `a` and `b` are equal.
pub proof fn lemma_diff_is_repeatable(a: Mapping, b: Mapping, first: DiffView, second: DiffView)
    requires
        first == diff_of(a, b),
        second == diff_of(a, b),
    ensures
        first == second,
{
}

/// The entries of `left` whose keys `right` does not have.
pub fn get_unique(left: &KeyValueMap, right: &KeyValueMap) -> (unique: KeyValueMap)
    ensures
        unique.entries() == unique_entries(left.entries(), right@),
        unique@ == unique_of(left@, right@),
{
    let mut unique = KeyValueMap::new();
    let count = left.len();
    let mut at: usize = 0;
    proof {
        use_type_invariant(left);
        left.lemma_distinct_keys();
        reveal(Seq::filter);
        assert(left.entries().take(0) =~= Seq::<Entry>::empty());
    }
    while at < count
        invariant
            at <= count == left.entries().len(),
            distinct_keys(left.entries()),
            unique.entries() == unique_entries(left.entries().take(at as int), right@),
        decreases count - at,
    {
        let ghost seen = left.entries().take(at as int);
        let ghost keep = |entry: Entry| is_unique(entry, right@);
        proof {
            let next = left.entries()[at as int];
            assert(left.entries().take(at + 1) =~= seen.push(next));
            seen.lemma_filter_push(next, keep);
            lemma_prefix_keys(left.entries(), at as int);
            lemma_filter_entries(seen, keep);
        }
        match left.entry_at(at) {
            Some((key, value)) => {
                if !right.contains_key(key.as_str()) {
                    unique.insert(key.clone(), value.clone());
                }
            },
            None => {},
        }
        at += 1;
    }
    proof {
        assert(left.entries().take(at as int) =~= left.entries());
        lemma_unique_entries(left.entries(), right@);
    }
    unique
}

/// The keys that both maps have with unequal values, each with the value of `left` first and
/// that of `right` second.
pub fn get_common(left: &KeyValueMap, right: &KeyValueMap) -> (common: ChangedMap)
    ensures
        common.entries() == changed_entries(left.entries(), right@),
        common@ == changed_of(left@, right@),
{
    let mut common = ChangedMap::new();
    let count = left.len();
    let mut at: usize = 0;
    proof {
        use_type_invariant(left);
        left.lemma_distinct_keys();
        reveal(Seq::filter);
        assert(left.entries().take(0) =~= Seq::<Entry>::empty());
        assert(changed_entries(Seq::<Entry>::empty(), right@) =~= Seq::<ChangedEntry>::empty());
    }
    while at < count
        invariant
            at <= count == left.entries().len(),
            distinct_keys(left.entries()),
            common.entries() == changed_entries(left.entries().take(at as int), right@),
        decreases count - at,
    {
        let ghost seen = left.entries().take(at as int);
        let ghost keep = |entry: Entry| is_changed(entry, right@);
        proof {
            let next = left.entries()[at as int];
            assert(left.entries().take(at + 1) =~= seen.push(next));
            seen.lemma_filter_push(next, keep);
            lemma_prefix_keys(left.entries(), at as int);
            lemma_filter_entries(seen, keep);
            assert(!has_key(changed_entries(seen, right@), next.0)) by {
                if has_key(changed_entries(seen, right@), next.0) {
                    let i = key_index(changed_entries(seen, right@), next.0);
                    assert(seen.filter(keep)[i].0 == next.0);
                    assert(has_key(seen.filter(keep), next.0));
                }
            }
            if is_changed(next, right@) {
                assert(changed_entries(seen.push(next), right@) =~= changed_entries(seen, right@).push(
                    (next.0, (next.1, right@[next.0])),
                ));
            }
        }
        match left.entry_at(at) {
            Some((key, value)) => {
                match right.get(key.as_str()) {
                    Some(other) => {
                        if !(*value == *other) {
                            common.insert(key.clone(), (value.clone(), other.clone()));
                        }
                    },
                    None => {},
                }
            },
            None => {},
        }
        at += 1;
    }
    proof {
        assert(left.entries().take(at as int) =~= left.entries());
        lemma_changed_entries(left.entries(), right@);
    }
    common
}

/// Compares two key-value maps: the entries that only `map_a` has, the entries that only
/// `map_b` has, and the keys that both have with unequal values. A key that both have with the
/// same value is left out.
pub fn get_diff(map_a: &KeyValueMap, map_b: &KeyValueMap) -> (diff: Diff)
    ensures
        diff@ == diff_of(map_a@, map_b@),
        diff.unique_a.entries() == unique_entries(map_a.entries(), map_b@),
        diff.unique_b.entries() == unique_entries(map_b.entries(), map_a@),
        diff.changed.entries() == changed_entries(map_a.entries(), map_b@),
{
    let unique_a = get_unique(map_a, map_b);
    let unique_b = get_unique(map_b, map_a);
    let changed = get_common(map_a, map_b);
    Diff { unique_a, unique_b, changed }
}

impl Default for Diff {
    /// The comparison of two empty maps.
    fn default() -> (diff: Diff)
        ensures
            diff@ == diff_of(Mapping::empty(), Mapping::empty()),
    {
        let diff = Diff {
            unique_a: KeyValueMap::new(),
            unique_b: KeyValueMap::new(),
            changed: ChangedMap::new(),
        };
        assert(diff@ =~= diff_of(Mapping::empty(), Mapping::empty()));
        diff
    }
}

} // verus!
