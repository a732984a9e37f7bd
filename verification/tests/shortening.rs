use url_shortener::codes::generate_short_code;
use url_shortener::errors::AppError;
use url_shortener::service::resolve;
use url_shortener::service::short_url_for;
use url_shortener::service::shorten;
use url_shortener::store::MappingStore;

#[test]
fn shorten_is_idempotent() {
    let mut store = MappingStore::new();
    let c1 = shorten(&mut store, "https://example.com/some/long/path").unwrap();
    let c2 = shorten(&mut store, "https://example.com/some/long/path").unwrap();
    assert_eq!(c1, c2);
    assert_eq!(store.row_count(), 1);
}

#[test]
fn distinct_urls_get_distinct_codes() {
    let mut store = MappingStore::new();
    let c1 = shorten(&mut store, "https://example.com/first").unwrap();
    let c2 = shorten(&mut store, "https://example.com/second").unwrap();
    assert_ne!(c1, c2);
    assert_eq!(store.row_count(), 2);
}

#[test]
fn resolve_round_trips() {
    let mut store = MappingStore::new();
    let code = shorten(&mut store, "https://example.com/round/trip?q=1").unwrap();
    let url = resolve(&store, &code).unwrap();
    assert_eq!(url, "https://example.com/round/trip?q=1");
}

#[test]
fn invalid_url_is_rejected_without_a_row() {
    let mut store = MappingStore::new();
    let r = shorten(&mut store, "not-a-url");
    assert!(matches!(r, Err(AppError::InvalidUrl)));
    assert_eq!(store.row_count(), 0);
}

#[test]
fn unknown_code_is_not_found() {
    let store = MappingStore::new();
    let r = resolve(&store, "ZZZZZZ");
    assert!(matches!(r, Err(AppError::NotFound)));
}

#[test]
fn racing_same_url_submissions_agree() {
    let mut store = MappingStore::new();
    let first = shorten(&mut store, "https://example.com/contested").unwrap();
    for _ in 0..5 {
        let again = shorten(&mut store, "https://example.com/contested").unwrap();
        assert_eq!(again, first);
    }
    assert_eq!(store.row_count(), 1);
}

#[test]
fn generated_codes_are_six_alphanumerics() {
    for _ in 0..20 {
        let code = generate_short_code();
        assert_eq!(code.chars().count(), 6);
        assert!(code.chars().all(|c| c.is_ascii_alphanumeric()));
    }
}

#[test]
fn shorten_succeeds_after_forced_collision() {
    let mut store = MappingStore::new();
    store.insert("AAAAAA", "https://example.com/taken").unwrap();
    let code = shorten(&mut store, "https://example.com/fresh").unwrap();
    assert_ne!(code, "AAAAAA");
    assert_eq!(store.row_count(), 2);
    assert_eq!(resolve(&store, &code).unwrap(), "https://example.com/fresh");
}

#[test]
fn short_url_appends_code_to_base() {
    let s = short_url_for("abc123");
    assert_eq!(s, "http://localhost:8080/abc123");
}
