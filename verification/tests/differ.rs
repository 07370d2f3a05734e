use riff::differ::{get_common, get_diff, get_unique};
use riff::kv_map::{ChangedMap, KeyValueMap};

fn map_from(pairs: &[(&str, &str)]) -> KeyValueMap {
    let mut map = KeyValueMap::new();
    for (key, value) in pairs {
        map.insert(key.to_string(), value.to_string());
    }
    map
}

fn entries(map: &KeyValueMap) -> Vec<(String, String)> {
    let mut out = Vec::new();
    let mut at = 0;
    while let Some((key, value)) = map.entry_at(at) {
        out.push((key.clone(), value.clone()));
        at += 1;
    }
    out
}

fn changed_entries(map: &ChangedMap) -> Vec<(String, String, String)> {
    let mut out = Vec::new();
    let mut at = 0;
    while let Some((key, values)) = map.entry_at(at) {
        out.push((key.clone(), values.0.clone(), values.1.clone()));
        at += 1;
    }
    out
}

fn owned(pairs: &[(&str, &str)]) -> Vec<(String, String)> {
    pairs.iter().map(|(key, value)| (key.to_string(), value.to_string())).collect()
}

#[test]
fn shared_equal_key_is_left_out() {
    let a = map_from(&[("FOO", "1"), ("BAR", "2")]);
    let b = map_from(&[("FOO", "1"), ("BAZ", "3")]);
    let diff = get_diff(&a, &b);
    assert_eq!(entries(&diff.unique_a), owned(&[("BAR", "2")]));
    assert_eq!(entries(&diff.unique_b), owned(&[("BAZ", "3")]));
    assert!(diff.changed.is_empty());
    assert_eq!(diff.changed.len(), 0);
}

#[test]
fn shared_unequal_key_is_changed() {
    let a = map_from(&[("FOO", "1")]);
    let b = map_from(&[("FOO", "2")]);
    let diff = get_diff(&a, &b);
    assert!(diff.unique_a.is_empty());
    assert!(diff.unique_b.is_empty());
    assert_eq!(
        changed_entries(&diff.changed),
        vec![("FOO".to_string(), "1".to_string(), "2".to_string())]
    );
    assert_eq!(diff.changed.get("FOO"), Some(&("1".to_string(), "2".to_string())));
}

#[test]
fn disjoint_maps_are_wholly_unique() {
    let a = map_from(&[("A", "1"), ("B", "2")]);
    let b = map_from(&[("C", "3"), ("D", "4"), ("E", "5")]);
    let diff = get_diff(&a, &b);
    assert_eq!(entries(&diff.unique_a), entries(&a));
    assert_eq!(entries(&diff.unique_b), entries(&b));
    assert!(diff.changed.is_empty());
}

#[test]
fn equal_maps_have_an_empty_diff() {
    let a = map_from(&[("A", "1"), ("B", "2")]);
    let b = map_from(&[("B", "2"), ("A", "1")]);
    let diff = get_diff(&a, &b);
    assert!(diff.unique_a.is_empty());
    assert!(diff.unique_b.is_empty());
    assert!(diff.changed.is_empty());
}

#[test]
fn empty_maps_have_an_empty_diff() {
    let a = KeyValueMap::new();
    let b = KeyValueMap::new();
    let diff = get_diff(&a, &b);
    assert_eq!(diff.unique_a.len(), 0);
    assert_eq!(diff.unique_b.len(), 0);
    assert_eq!(diff.changed.len(), 0);
}

#[test]
fn one_empty_side_leaves_the_other_unique() {
    let a = map_from(&[("A", "1")]);
    let b = KeyValueMap::new();
    let diff = get_diff(&a, &b);
    assert_eq!(entries(&diff.unique_a), owned(&[("A", "1")]));
    assert!(diff.unique_b.is_empty());
    assert!(diff.changed.is_empty());
    let back = get_diff(&b, &a);
    assert!(back.unique_a.is_empty());
    assert_eq!(entries(&back.unique_b), owned(&[("A", "1")]));
}

#[test]
fn parts_share_no_key_and_cover_all_but_agreed_keys() {
    let a = map_from(&[("SAME", "x"), ("ONLY_A", "1"), ("BOTH", "left"), ("ALSO_A", "2")]);
    let b = map_from(&[("BOTH", "right"), ("ONLY_B", "3"), ("SAME", "x")]);
    let diff = get_diff(&a, &b);
    let all = ["SAME", "ONLY_A", "BOTH", "ALSO_A", "ONLY_B"];
    for key in all {
        let places = [
            diff.unique_a.contains_key(key),
            diff.unique_b.contains_key(key),
            diff.changed.contains_key(key),
        ];
        let count = places.iter().filter(|held| **held).count();
        if key == "SAME" {
            assert_eq!(count, 0);
        } else {
            assert_eq!(count, 1);
        }
    }
    assert_eq!(diff.unique_a.len() + diff.unique_b.len() + diff.changed.len(), 4);
}

#[test]
fn changed_pair_is_first_side_then_second_side() {
    let a = map_from(&[("URL", "http://a"), ("PORT", "80")]);
    let b = map_from(&[("PORT", "8080"), ("URL", "http://b")]);
    let diff = get_diff(&a, &b);
    assert_eq!(diff.changed.get("URL"), Some(&("http://a".to_string(), "http://b".to_string())));
    assert_eq!(diff.changed.get("PORT"), Some(&("80".to_string(), "8080".to_string())));
    let swapped = get_diff(&b, &a);
    assert_eq!(swapped.changed.get("URL"), Some(&("http://b".to_string(), "http://a".to_string())));
}

#[test]
fn diff_twice_gives_the_same_content() {
    let a = map_from(&[("K1", "a"), ("K2", "b"), ("K3", "c")]);
    let b = map_from(&[("K2", "B"), ("K3", "c"), ("K4", "d")]);
    let first = get_diff(&a, &b);
    let second = get_diff(&a, &b);
    assert_eq!(entries(&first.unique_a), entries(&second.unique_a));
    assert_eq!(entries(&first.unique_b), entries(&second.unique_b));
    assert_eq!(changed_entries(&first.changed), changed_entries(&second.changed));
    assert_eq!(entries(&a), owned(&[("K1", "a"), ("K2", "b"), ("K3", "c")]));
    assert_eq!(entries(&b), owned(&[("K2", "B"), ("K3", "c"), ("K4", "d")]));
}

#[test]
fn values_are_compared_exactly() {
    let a = map_from(&[("K", "value"), ("L", " x"), ("M", "")]);
    let b = map_from(&[("K", "Value"), ("L", "x"), ("M", "")]);
    let diff = get_diff(&a, &b);
    assert_eq!(
        changed_entries(&diff.changed),
        vec![
            ("K".to_string(), "value".to_string(), "Value".to_string()),
            ("L".to_string(), " x".to_string(), "x".to_string()),
        ]
    );
}

#[test]
fn results_follow_the_order_of_their_side() {
    let a = map_from(&[("Z", "1"), ("M", "2"), ("A", "3"), ("Q", "4")]);
    let b = map_from(&[("Q", "5"), ("Y", "6"), ("Z", "7"), ("B", "8")]);
    let diff = get_diff(&a, &b);
    assert_eq!(entries(&diff.unique_a), owned(&[("M", "2"), ("A", "3")]));
    assert_eq!(entries(&diff.unique_b), owned(&[("Y", "6"), ("B", "8")]));
    assert_eq!(
        changed_entries(&diff.changed),
        vec![
            ("Z".to_string(), "1".to_string(), "7".to_string()),
            ("Q".to_string(), "4".to_string(), "5".to_string()),
        ]
    );
}

#[test]
fn get_unique_keeps_what_the_other_side_lacks() {
    let left = map_from(&[("A", "1"), ("B", "2"), ("C", "3")]);
    let right = map_from(&[("B", "other")]);
    let unique = get_unique(&left, &right);
    assert_eq!(entries(&unique), owned(&[("A", "1"), ("C", "3")]));
}

#[test]
fn get_common_keeps_shared_keys_with_unequal_values() {
    let left = map_from(&[("A", "1"), ("B", "2"), ("C", "3")]);
    let right = map_from(&[("A", "1"), ("B", "two"), ("D", "4")]);
    let common = get_common(&left, &right);
    assert_eq!(
        changed_entries(&common),
        vec![("B".to_string(), "2".to_string(), "two".to_string())]
    );
}

#[test]
fn default_diff_is_empty() {
    let diff = riff::differ::Diff::default();
    assert!(diff.unique_a.is_empty());
    assert!(diff.unique_b.is_empty());
    assert!(diff.changed.is_empty());
}
