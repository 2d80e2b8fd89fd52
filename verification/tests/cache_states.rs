use redsky::cache::{Cache, Entry, KeySet};
use redsky::keys::Key;
use redsky::model::StrongRef;

fn key(s: &str) -> String {
    s.to_string()
}

fn post_ref(uri: &str, cid: &str) -> StrongRef {
    StrongRef { uri: uri.to_string(), cid: cid.to_string() }
}

#[test]
fn new_cache_knows_nothing() {
    let cache: Cache<String, Vec<u8>> = Cache::new();
    assert_eq!(cache.observe(&key("a")), Entry::Absent);
    assert!(!cache.contains_key(&key("a")));
    assert!(cache.keys().is_empty());
}

#[test]
fn begin_fetch_makes_pending() {
    let mut cache: Cache<String, Vec<u8>> = Cache::new();
    cache.begin_fetch(key("alice"));
    assert_eq!(cache.observe(&key("alice")), Entry::Pending);
    assert_eq!(cache.observe(&key("bob")), Entry::Absent);
    assert!(cache.contains_key(&key("alice")));
}

#[test]
fn resolve_pending_makes_loaded() {
    let mut cache: Cache<String, Vec<u8>> = Cache::new();
    cache.begin_fetch(key("img"));
    cache.resolve(key("img"), vec![1, 2, 3]);
    assert_eq!(cache.observe(&key("img")), Entry::Loaded(&vec![1u8, 2, 3]));
    assert_eq!(cache.keys().len(), 1);
}

#[test]
fn resolve_absent_creates_loaded() {
    let mut cache: Cache<String, Vec<u8>> = Cache::new();
    cache.resolve(key("late"), vec![9]);
    assert_eq!(cache.observe(&key("late")), Entry::Loaded(&vec![9u8]));
}

#[test]
fn resolve_loaded_replaces_value() {
    let mut cache: Cache<String, Vec<u8>> = Cache::new();
    cache.resolve(key("k"), vec![1]);
    cache.resolve(key("k"), vec![2]);
    assert_eq!(cache.observe(&key("k")), Entry::Loaded(&vec![2u8]));
    assert_eq!(cache.keys().len(), 1);
}

#[test]
fn release_from_every_state_leaves_absent() {
    let mut cache: Cache<String, Vec<u8>> = Cache::new();
    cache.release(&key("never"));
    assert_eq!(cache.observe(&key("never")), Entry::Absent);

    cache.begin_fetch(key("pending"));
    cache.release(&key("pending"));
    assert_eq!(cache.observe(&key("pending")), Entry::Absent);

    cache.resolve(key("loaded"), vec![7]);
    cache.release(&key("loaded"));
    assert_eq!(cache.observe(&key("loaded")), Entry::Absent);
    assert!(cache.keys().is_empty());
}

#[test]
fn release_leaves_other_keys_alone() {
    let mut cache: Cache<String, Vec<u8>> = Cache::new();
    cache.begin_fetch(key("a"));
    cache.resolve(key("b"), vec![1]);
    cache.begin_fetch(key("c"));
    cache.release(&key("b"));
    assert_eq!(cache.observe(&key("a")), Entry::Pending);
    assert_eq!(cache.observe(&key("b")), Entry::Absent);
    assert_eq!(cache.observe(&key("c")), Entry::Pending);
}

#[test]
fn request_is_fresh_only_once() {
    let mut cache: Cache<String, Vec<u8>> = Cache::new();
    assert!(cache.request(key("img")));
    assert_eq!(cache.observe(&key("img")), Entry::Pending);
    assert!(!cache.request(key("img")));
    assert_eq!(cache.observe(&key("img")), Entry::Pending);
    cache.resolve(key("img"), vec![1]);
    assert!(!cache.request(key("img")));
    assert_eq!(cache.observe(&key("img")), Entry::Loaded(&vec![1u8]));
}

#[test]
fn request_after_release_is_fresh_again() {
    let mut cache: Cache<String, Vec<u8>> = Cache::new();
    assert!(cache.request(key("img")));
    cache.release(&key("img"));
    assert!(cache.request(key("img")));
}

#[test]
fn late_answer_after_release_reappears_loaded() {
    let mut cache: Cache<String, Vec<u8>> = Cache::new();
    cache.begin_fetch(key("thread"));
    cache.release(&key("thread"));
    cache.resolve(key("thread"), vec![4, 2]);
    assert_eq!(cache.observe(&key("thread")), Entry::Loaded(&vec![4u8, 2]));
}

#[test]
fn keys_by_content_reference() {
    let mut cache: Cache<StrongRef, Vec<u8>> = Cache::new();
    cache.begin_fetch(post_ref("at://a/1", "cid1"));
    assert_eq!(cache.observe(&post_ref("at://a/1", "cid1")), Entry::Pending);
    assert_eq!(cache.observe(&post_ref("at://a/1", "cid2")), Entry::Absent);
    assert_eq!(cache.observe(&post_ref("at://a/2", "cid1")), Entry::Absent);
}

#[test]
fn strong_ref_equality_is_structural() {
    assert!(post_ref("u", "c").same(&post_ref("u", "c")));
    assert!(!post_ref("u", "c").same(&post_ref("u", "d")));
    assert!(!post_ref("u", "c").same(&post_ref("v", "c")));
    assert_eq!(post_ref("u", "c"), post_ref("u", "c"));
    assert_eq!(post_ref("u", "c").clone(), post_ref("u", "c"));
}

#[test]
fn keys_lists_each_key_once() {
    let mut cache: Cache<String, Vec<u8>> = Cache::new();
    cache.begin_fetch(key("a"));
    cache.resolve(key("b"), vec![]);
    cache.resolve(key("a"), vec![1]);
    let mut keys: Vec<String> = cache.keys().into_iter().map(|k| k.clone()).collect();
    keys.sort();
    assert_eq!(keys, vec![key("a"), key("b")]);
}

#[test]
fn key_set_insert_remove_contains() {
    let mut open: KeySet<String> = KeySet::new();
    assert!(!open.contains(&key("x")));
    open.insert(key("x"));
    open.insert(key("x"));
    open.insert(key("y"));
    assert!(open.contains(&key("x")));
    assert_eq!(open.keys().len(), 2);
    open.remove(&key("x"));
    assert!(!open.contains(&key("x")));
    assert!(open.contains(&key("y")));
    open.remove(&key("never"));
    assert_eq!(open.keys().len(), 1);
}
