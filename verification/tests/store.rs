use shadow_rs::store::{merge, FactStore};
use shadow_rs::value::{ConstType, ConstVal};

fn known(v: &str) -> ConstVal {
    ConstVal::with_value("doc", v.to_string())
}

fn names(store: &FactStore) -> Vec<String> {
    (0..store.len()).map(|i| store.name_at(i).unwrap().to_string()).collect()
}

fn values(store: &FactStore) -> Vec<String> {
    (0..store.len()).map(|i| store.value_at(i).unwrap().v.clone()).collect()
}

fn store_of(pairs: &[(&str, &str)]) -> FactStore {
    let mut store = FactStore::new();
    for (k, v) in pairs {
        store.insert(k.to_string(), known(v));
    }
    store
}

#[test]
fn new_store_is_empty() {
    let store = FactStore::new();
    assert_eq!(store.len(), 0);
    assert!(store.is_empty());
    assert_eq!(store.get("BRANCH"), None);
    assert!(!store.contains_key("BRANCH"));
}

#[test]
fn insert_binds_the_name() {
    let mut store = FactStore::new();
    store.insert("BRANCH".to_string(), known("main"));
    assert_eq!(store.len(), 1);
    assert!(!store.is_empty());
    assert!(store.contains_key("BRANCH"));
    assert_eq!(store.get("BRANCH"), Some(&known("main")));
    assert_eq!(store.name_at(0), Some("BRANCH"));
    assert_eq!(store.value_at(0), Some(&known("main")));
    assert_eq!(store.name_at(1), None);
    assert_eq!(store.value_at(1), None);
}

#[test]
fn insert_of_a_present_name_replaces_in_place() {
    let mut store = store_of(&[("A", "1"), ("B", "2"), ("C", "3")]);
    store.insert("B".to_string(), known("9"));
    assert_eq!(names(&store), vec!["A", "B", "C"]);
    assert_eq!(values(&store), vec!["1", "9", "3"]);
}

#[test]
fn insert_of_a_new_name_goes_to_the_end() {
    let mut store = store_of(&[("A", "1"), ("B", "2")]);
    store.insert("0".to_string(), known("z"));
    assert_eq!(names(&store), vec!["A", "B", "0"]);
}

#[test]
fn names_differ_by_case() {
    let store = store_of(&[("branch", "a"), ("BRANCH", "b")]);
    assert_eq!(store.len(), 2);
    assert_eq!(store.get("branch").unwrap().v, "a");
    assert_eq!(store.get("BRANCH").unwrap().v, "b");
}

#[test]
fn merge_later_fragment_wins() {
    let first = store_of(&[("BRANCH", "main")]);
    let second = store_of(&[("BRANCH", "release")]);
    let merged = merge(&vec![first, second]);
    assert_eq!(merged.len(), 1);
    let branch = merged.get("BRANCH").unwrap();
    assert_eq!(branch.v, "release");
    assert_eq!(branch.t, ConstType::Str);
}

#[test]
fn merge_fallback_over_known_wins_too() {
    let first = store_of(&[("BRANCH", "main")]);
    let mut second = FactStore::new();
    second.insert("BRANCH".to_string(), ConstVal::new("other"));
    let merged = merge(&vec![first, second]);
    assert_eq!(merged.get("BRANCH"), Some(&ConstVal::new("other")));
}

#[test]
fn merge_of_nothing_is_empty() {
    assert_eq!(merge(&Vec::new()).len(), 0);
    assert_eq!(merge(&vec![FactStore::new(), FactStore::new()]).len(), 0);
}

#[test]
fn merge_of_one_fragment_is_that_fragment() {
    let f = store_of(&[("A", "1"), ("B", "2")]);
    let merged = merge(&vec![f.clone()]);
    assert_eq!(names(&merged), names(&f));
    assert_eq!(values(&merged), values(&f));
}

#[test]
fn merge_is_idempotent() {
    let base = store_of(&[("A", "1"), ("B", "2")]);
    let f = store_of(&[("B", "3"), ("C", "4")]);
    let once = merge(&vec![base.clone(), f.clone()]);
    let twice = merge(&vec![base, f.clone(), f]);
    assert_eq!(names(&once), vec!["A", "B", "C"]);
    assert_eq!(values(&once), vec!["1", "3", "4"]);
    assert_eq!(names(&twice), names(&once));
    assert_eq!(values(&twice), values(&once));
}

#[test]
fn merge_keeps_first_seen_order() {
    let a = store_of(&[("X", "1"), ("Y", "2")]);
    let b = store_of(&[("Z", "3"), ("X", "4")]);
    let c = store_of(&[("Y", "5"), ("W", "6")]);
    let merged = merge(&vec![a, b, c]);
    assert_eq!(names(&merged), vec!["X", "Y", "Z", "W"]);
    assert_eq!(values(&merged), vec!["4", "5", "3", "6"]);
}

#[test]
fn merge_of_disjoint_fragments_is_their_concatenation() {
    let a = store_of(&[("A", "1")]);
    let b = store_of(&[("B", "2"), ("C", "3")]);
    let merged = merge(&vec![a, b]);
    assert_eq!(names(&merged), vec!["A", "B", "C"]);
    assert_eq!(values(&merged), vec!["1", "2", "3"]);
}

#[test]
fn extend_overwrites_and_appends() {
    let mut store = store_of(&[("A", "1"), ("B", "2")]);
    let other = store_of(&[("C", "3"), ("A", "4")]);
    store.extend(&other);
    assert_eq!(names(&store), vec!["A", "B", "C"]);
    assert_eq!(values(&store), vec!["4", "2", "3"]);
    assert_eq!(other.len(), 2);
}

#[test]
fn clone_copies_every_entry() {
    let store = store_of(&[("A", "1"), ("B", "2")]);
    let copy = store.clone();
    assert_eq!(names(&copy), vec!["A", "B"]);
    assert_eq!(values(&copy), vec!["1", "2"]);
}
