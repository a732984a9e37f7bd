use url_shortener::store::ConflictKind;
use url_shortener::store::MappingStore;

#[test]
fn insert_then_find_by_both_keys() {
    let mut store = MappingStore::new();
    store.insert("abc123", "https://example.com/x").unwrap();
    let by_url = store.find_by_url("https://example.com/x").unwrap();
    assert_eq!(by_url.short_code, "abc123");
    assert_eq!(by_url.original_url, "https://example.com/x");
    let by_code = store.find_by_code("abc123").unwrap();
    assert_eq!(by_code.short_code, "abc123");
    assert_eq!(by_code.original_url, "https://example.com/x");
}

#[test]
fn lookups_miss_on_absent_keys() {
    let mut store = MappingStore::new();
    store.insert("abc123", "https://example.com/x").unwrap();
    assert!(store.find_by_url("https://example.com/other").is_none());
    assert!(store.find_by_code("zzzzzz").is_none());
}

#[test]
fn duplicate_code_is_a_code_conflict() {
    let mut store = MappingStore::new();
    store.insert("abc123", "https://example.com/x").unwrap();
    let r = store.insert("abc123", "https://example.com/y");
    assert_eq!(r, Err(ConflictKind::CodeConflict));
    assert_eq!(store.row_count(), 1);
}

#[test]
fn duplicate_url_is_a_url_conflict() {
    let mut store = MappingStore::new();
    store.insert("abc123", "https://example.com/x").unwrap();
    let r = store.insert("xyz789", "https://example.com/x");
    assert_eq!(r, Err(ConflictKind::UrlConflict));
    assert_eq!(store.row_count(), 1);
}

#[test]
fn rejected_insert_changes_nothing() {
    let mut store = MappingStore::new();
    store.insert("abc123", "https://example.com/x").unwrap();
    let _ = store.insert("abc123", "https://example.com/y");
    let _ = store.insert("xyz789", "https://example.com/x");
    assert_eq!(store.row_count(), 1);
    assert_eq!(store.find_by_code("abc123").unwrap().original_url, "https://example.com/x");
    assert!(store.find_by_code("xyz789").is_none());
}

#[test]
fn a_new_store_is_empty() {
    let store = MappingStore::new();
    assert_eq!(store.row_count(), 0);
}
