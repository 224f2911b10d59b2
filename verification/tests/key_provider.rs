use token_verifier::keys::{key_set_from_body, KeyCache, SigningKeySet};

fn pairs(list: &[(&str, &str)]) -> Vec<(String, String)> {
    list.iter().map(|(k, v)| (k.to_string(), v.to_string())).collect()
}

#[test]
fn lookup_finds_the_key_for_its_identifier() {
    let set = SigningKeySet::from_pairs(pairs(&[("kid1", "pem-one"), ("kid2", "pem-two")]));
    assert_eq!(set.lookup("kid1").as_deref(), Some("pem-one"));
    assert_eq!(set.lookup("kid2").as_deref(), Some("pem-two"));
    assert_eq!(set.lookup("kid3"), None);
    assert!(set.contains("kid1"));
    assert!(!set.contains("kid3"));
    assert_eq!(set.len(), 2);
}

#[test]
fn lookup_first_match_wins() {
    let set = SigningKeySet::from_pairs(pairs(&[("kid1", "first"), ("kid1", "second")]));
    assert_eq!(set.lookup("kid1").as_deref(), Some("first"));
}

#[test]
fn key_set_parses_from_json_body() {
    let set = key_set_from_body(r#"{"kid1":"pem-one","kid2":"pem-two"}"#).unwrap();
    assert_eq!(set.lookup("kid1").as_deref(), Some("pem-one"));
    assert_eq!(set.lookup("kid2").as_deref(), Some("pem-two"));
    assert_eq!(set.len(), 2);
}

#[test]
fn malformed_body_yields_no_key_set() {
    assert!(key_set_from_body("not json at all").is_none());
    assert!(key_set_from_body(r#"{"kid1": 7}"#).is_none());
    assert!(key_set_from_body(r#"["kid1","pem"]"#).is_none());
}

#[test]
fn empty_object_is_an_empty_key_set() {
    let set = key_set_from_body("{}").unwrap();
    assert_eq!(set.len(), 0);
    assert_eq!(set.lookup("kid1"), None);
}

#[test]
fn cache_starts_empty_and_fills_on_refresh() {
    let mut cache = KeyCache::new();
    assert!(cache.snapshot().is_none());
    assert_eq!(cache.get_key("kid1"), None);
    assert!(cache.needs_refresh("kid1"));
    assert!(cache.refresh_from_body(r#"{"kid1":"pem-one"}"#));
    assert_eq!(cache.get_key("kid1").as_deref(), Some("pem-one"));
    assert!(!cache.needs_refresh("kid1"));
    assert!(cache.needs_refresh("kid2"));
}

#[test]
fn refresh_replaces_the_snapshot_wholesale() {
    let mut cache = KeyCache::new();
    assert!(cache.refresh_from_body(r#"{"kid1":"pem-one"}"#));
    assert!(cache.refresh_from_body(r#"{"kid2":"pem-two"}"#));
    // The old key is gone: the new snapshot replaced the whole set.
    assert_eq!(cache.get_key("kid1"), None);
    assert_eq!(cache.get_key("kid2").as_deref(), Some("pem-two"));
}

#[test]
fn failed_refresh_keeps_the_old_snapshot() {
    let mut cache = KeyCache::new();
    assert!(cache.refresh_from_body(r#"{"kid1":"pem-one"}"#));
    assert!(!cache.refresh_from_body("garbage"));
    assert_eq!(cache.get_key("kid1").as_deref(), Some("pem-one"));
}
