use proton_sdk::cache::{CacheError, CacheRepositoryTrait, InMemoryCacheRepository};
use tokio_util::sync::CancellationToken;

fn tags(names: &[&str]) -> Vec<String> {
    names.iter().map(|name| name.to_string()).collect()
}

fn token() -> CancellationToken {
    CancellationToken::new()
}

fn pairs_by_tags(store: &InMemoryCacheRepository, names: &[&str]) -> Vec<(String, String)> {
    let mut pairs = store.get_by_tags(tags(names), token()).unwrap();
    pairs.sort();
    pairs
}

fn keys_by_tags(store: &InMemoryCacheRepository, names: &[&str]) -> Vec<String> {
    pairs_by_tags(store, names).into_iter().map(|(key, _)| key).collect()
}

fn pair(key: &str, value: &str) -> (String, String) {
    (key.to_string(), value.to_string())
}

#[test]
fn new_store_is_empty() {
    let store = InMemoryCacheRepository::new();
    assert_eq!(store.try_get("a", token()), Ok(None));
    assert_eq!(store.get_by_tags(tags(&["x"]), token()), Ok(vec![]));
    assert_eq!(store.get_by_tags(vec![], token()), Ok(vec![]));
}

#[test]
fn set_then_try_get_returns_the_value() {
    let mut store = InMemoryCacheRepository::new();
    assert_eq!(store.set("a", "1".to_string(), tags(&["x"]), token()), Ok(()));
    assert_eq!(store.try_get("a", token()), Ok(Some("1".to_string())));
    assert_eq!(store.try_get("b", token()), Ok(None));
}

#[test]
fn set_replaces_the_value_under_an_existing_key() {
    let mut store = InMemoryCacheRepository::new();
    store.set("a", "1".to_string(), tags(&["x"]), token()).unwrap();
    store.set("a", "2".to_string(), tags(&["x"]), token()).unwrap();
    assert_eq!(store.try_get("a", token()), Ok(Some("2".to_string())));
    assert_eq!(pairs_by_tags(&store, &["x"]), vec![pair("a", "2")]);
}

#[test]
fn set_without_tags_is_found_by_key_only() {
    let mut store = InMemoryCacheRepository::new();
    store.set("a", "1".to_string(), vec![], token()).unwrap();
    assert_eq!(store.try_get("a", token()), Ok(Some("1".to_string())));
    assert_eq!(keys_by_tags(&store, &["x"]), Vec::<String>::new());
}

#[test]
fn set_with_a_repeated_tag_lists_the_key_once() {
    let mut store = InMemoryCacheRepository::new();
    store.set("a", "1".to_string(), tags(&["x", "x", "y"]), token()).unwrap();
    assert_eq!(pairs_by_tags(&store, &["x"]), vec![pair("a", "1")]);
    assert_eq!(pairs_by_tags(&store, &["y"]), vec![pair("a", "1")]);
}

#[test]
fn get_by_one_tag_returns_exactly_the_keys_that_carry_it() {
    let mut store = InMemoryCacheRepository::new();
    store.set("a", "1".to_string(), tags(&["x", "y", "z"]), token()).unwrap();
    store.set("b", "2".to_string(), tags(&["y"]), token()).unwrap();
    store.set("c", "3".to_string(), tags(&["z"]), token()).unwrap();
    store.set("d", "4".to_string(), vec![], token()).unwrap();
    assert_eq!(pairs_by_tags(&store, &["x"]), vec![pair("a", "1")]);
    assert_eq!(pairs_by_tags(&store, &["y"]), vec![pair("a", "1"), pair("b", "2")]);
    assert_eq!(pairs_by_tags(&store, &["z"]), vec![pair("a", "1"), pair("c", "3")]);
    assert_eq!(pairs_by_tags(&store, &["w"]), vec![]);
}

#[test]
fn get_by_tags_emits_an_entry_once_even_if_several_tags_match() {
    let mut store = InMemoryCacheRepository::new();
    store.set("a", "1".to_string(), tags(&["x", "y"]), token()).unwrap();
    store.set("b", "2".to_string(), tags(&["y"]), token()).unwrap();
    store.set("c", "3".to_string(), tags(&["z"]), token()).unwrap();
    let listed = store.get_by_tags(tags(&["x", "y", "y"]), token()).unwrap();
    assert_eq!(listed.len(), 2);
    assert_eq!(pairs_by_tags(&store, &["x", "y", "y"]), vec![pair("a", "1"), pair("b", "2")]);
    assert_eq!(
        pairs_by_tags(&store, &["x", "y", "z"]),
        vec![pair("a", "1"), pair("b", "2"), pair("c", "3")]
    );
}

#[test]
fn get_by_tags_starts_afresh_on_each_call() {
    let mut store = InMemoryCacheRepository::new();
    store.set("a", "1".to_string(), tags(&["x"]), token()).unwrap();
    assert_eq!(pairs_by_tags(&store, &["x"]), vec![pair("a", "1")]);
    assert_eq!(pairs_by_tags(&store, &["x"]), vec![pair("a", "1")]);
}

#[test]
fn set_again_with_disjoint_tags_drops_the_old_tags() {
    let mut store = InMemoryCacheRepository::new();
    store.set("a", "1".to_string(), tags(&["x", "y"]), token()).unwrap();
    store.set("b", "2".to_string(), tags(&["x"]), token()).unwrap();
    store.set("a", "3".to_string(), tags(&["z"]), token()).unwrap();
    assert_eq!(pairs_by_tags(&store, &["x"]), vec![pair("b", "2")]);
    assert_eq!(pairs_by_tags(&store, &["y"]), vec![]);
    assert_eq!(pairs_by_tags(&store, &["z"]), vec![pair("a", "3")]);
    assert_eq!(store.try_get("a", token()), Ok(Some("3".to_string())));
}

#[test]
fn set_again_with_overlapping_tags_keeps_the_shared_tag() {
    let mut store = InMemoryCacheRepository::new();
    store.set("a", "1".to_string(), tags(&["x", "y"]), token()).unwrap();
    store.set("a", "2".to_string(), tags(&["y", "z"]), token()).unwrap();
    assert_eq!(pairs_by_tags(&store, &["x"]), vec![]);
    assert_eq!(pairs_by_tags(&store, &["y"]), vec![pair("a", "2")]);
    assert_eq!(pairs_by_tags(&store, &["z"]), vec![pair("a", "2")]);
}

#[test]
fn remove_deletes_the_entry_and_its_tag_associations() {
    let mut store = InMemoryCacheRepository::new();
    store.set("a", "1".to_string(), tags(&["x", "y"]), token()).unwrap();
    store.set("b", "2".to_string(), tags(&["y"]), token()).unwrap();
    assert_eq!(store.remove("a", token()), Ok(()));
    assert_eq!(store.try_get("a", token()), Ok(None));
    assert_eq!(pairs_by_tags(&store, &["x"]), vec![]);
    assert_eq!(pairs_by_tags(&store, &["y"]), vec![pair("b", "2")]);
}

#[test]
fn remove_of_an_absent_key_is_not_an_error() {
    let mut store = InMemoryCacheRepository::new();
    store.set("a", "1".to_string(), tags(&["x"]), token()).unwrap();
    assert_eq!(store.remove("missing", token()), Ok(()));
    assert_eq!(store.remove("a", token()), Ok(()));
    assert_eq!(store.remove("a", token()), Ok(()));
    assert_eq!(store.try_get("a", token()), Ok(None));
    assert_eq!(pairs_by_tags(&store, &["x"]), vec![]);
}

#[test]
fn remove_by_tag_removes_every_entry_that_carries_the_tag() {
    let mut store = InMemoryCacheRepository::new();
    store.set("a", "1".to_string(), tags(&["x", "y"]), token()).unwrap();
    store.set("b", "2".to_string(), tags(&["y"]), token()).unwrap();
    assert_eq!(store.remove_by_tag("y", token()), Ok(()));
    assert_eq!(store.try_get("a", token()), Ok(None));
    assert_eq!(store.try_get("b", token()), Ok(None));
    assert_eq!(keys_by_tags(&store, &["x"]), Vec::<String>::new());
    assert_eq!(keys_by_tags(&store, &["y"]), Vec::<String>::new());
}

#[test]
fn remove_by_tag_leaves_the_other_entries() {
    let mut store = InMemoryCacheRepository::new();
    store.set("a", "1".to_string(), tags(&["x", "y"]), token()).unwrap();
    store.set("b", "2".to_string(), tags(&["x"]), token()).unwrap();
    store.set("c", "3".to_string(), vec![], token()).unwrap();
    store.remove_by_tag("y", token()).unwrap();
    assert_eq!(store.try_get("a", token()), Ok(None));
    assert_eq!(store.try_get("b", token()), Ok(Some("2".to_string())));
    assert_eq!(store.try_get("c", token()), Ok(Some("3".to_string())));
    assert_eq!(pairs_by_tags(&store, &["x"]), vec![pair("b", "2")]);
}

#[test]
fn remove_by_tag_of_an_unknown_tag_changes_nothing() {
    let mut store = InMemoryCacheRepository::new();
    store.set("a", "1".to_string(), tags(&["x"]), token()).unwrap();
    assert_eq!(store.remove_by_tag("nope", token()), Ok(()));
    assert_eq!(store.try_get("a", token()), Ok(Some("1".to_string())));
    assert_eq!(pairs_by_tags(&store, &["x"]), vec![pair("a", "1")]);
}

#[test]
fn a_tag_can_be_used_again_after_remove_by_tag() {
    let mut store = InMemoryCacheRepository::new();
    store.set("a", "1".to_string(), tags(&["x"]), token()).unwrap();
    store.remove_by_tag("x", token()).unwrap();
    store.set("b", "2".to_string(), tags(&["x"]), token()).unwrap();
    assert_eq!(pairs_by_tags(&store, &["x"]), vec![pair("b", "2")]);
}

#[test]
fn clear_empties_the_store_and_both_indices() {
    let mut store = InMemoryCacheRepository::new();
    store.set("a", "1".to_string(), tags(&["x", "y"]), token()).unwrap();
    store.set("b", "2".to_string(), tags(&["y"]), token()).unwrap();
    assert_eq!(store.clear(), Ok(()));
    assert_eq!(store.try_get("a", token()), Ok(None));
    assert_eq!(store.try_get("b", token()), Ok(None));
    assert_eq!(pairs_by_tags(&store, &["x", "y"]), vec![]);
    store.set("c", "3".to_string(), tags(&["x"]), token()).unwrap();
    assert_eq!(pairs_by_tags(&store, &["x"]), vec![pair("c", "3")]);
}

#[test]
fn indices_stay_in_step_over_a_mixed_sequence() {
    let mut store = InMemoryCacheRepository::new();
    store.set("a", "1".to_string(), tags(&["x", "y"]), token()).unwrap();
    store.set("b", "2".to_string(), tags(&["y", "z"]), token()).unwrap();
    store.set("c", "3".to_string(), tags(&["z"]), token()).unwrap();
    store.remove("b", token()).unwrap();
    store.set("a", "4".to_string(), tags(&["z"]), token()).unwrap();
    store.remove_by_tag("x", token()).unwrap();
    store.set("d", "5".to_string(), tags(&["x", "z"]), token()).unwrap();
    assert_eq!(pairs_by_tags(&store, &["x"]), vec![pair("d", "5")]);
    assert_eq!(pairs_by_tags(&store, &["y"]), vec![]);
    assert_eq!(
        pairs_by_tags(&store, &["z"]),
        vec![pair("a", "4"), pair("c", "3"), pair("d", "5")]
    );
    store.remove_by_tag("z", token()).unwrap();
    assert_eq!(pairs_by_tags(&store, &["x", "y", "z"]), vec![]);
    assert_eq!(store.try_get("a", token()), Ok(None));
    assert_eq!(store.try_get("c", token()), Ok(None));
    assert_eq!(store.try_get("d", token()), Ok(None));
}

#[test]
fn a_cancelled_token_does_not_stop_the_in_memory_store() {
    let cancelled = CancellationToken::new();
    cancelled.cancel();
    let mut store = InMemoryCacheRepository::new();
    assert_eq!(store.set("a", "1".to_string(), tags(&["x"]), cancelled.clone()), Ok(()));
    assert_eq!(store.try_get("a", cancelled.clone()), Ok(Some("1".to_string())));
    assert_eq!(store.remove_by_tag("x", cancelled.clone()), Ok(()));
    assert_eq!(store.try_get("a", cancelled), Ok(None));
}

#[test]
fn keys_that_differ_only_in_case_are_different_keys() {
    let mut store = InMemoryCacheRepository::new();
    store.set("a", "1".to_string(), tags(&["x"]), token()).unwrap();
    store.set("A", "2".to_string(), tags(&["X"]), token()).unwrap();
    assert_eq!(store.try_get("a", token()), Ok(Some("1".to_string())));
    assert_eq!(store.try_get("A", token()), Ok(Some("2".to_string())));
    assert_eq!(pairs_by_tags(&store, &["x"]), vec![pair("a", "1")]);
    assert_eq!(pairs_by_tags(&store, &["X"]), vec![pair("A", "2")]);
}

#[test]
fn cache_errors_are_told_apart() {
    assert_ne!(CacheError::Cancelled, CacheError::Backend);
}
