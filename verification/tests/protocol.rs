use url_shortener::protocol::resolve_decide;
use url_shortener::protocol::shorten_start;
use url_shortener::protocol::shorten_step;
use url_shortener::protocol::ShortenState;
use url_shortener::protocol::StoreAction;
use url_shortener::protocol::StoreReply;
use url_shortener::errors::AppError;

#[test]
fn start_rejects_invalid_url_without_store_access() {
    let (state, action) = shorten_start(String::from("not-a-url"));
    assert!(matches!(action, StoreAction::Stop));
    match state {
        ShortenState::Finished { result } => {
            assert!(matches!(result, Err(AppError::InvalidUrl)));
        },
        _ => panic!("an invalid URL must finish the request at once"),
    }
}

#[test]
fn start_valid_url_looks_it_up_first() {
    let (state, action) = shorten_start(String::from("https://example.com/a"));
    match action {
        StoreAction::LookupUrl { url } => assert_eq!(url, "https://example.com/a"),
        _ => panic!("a valid URL must be looked up before anything else"),
    }
    assert!(matches!(state, ShortenState::CheckUrl { .. }));
}

#[test]
fn existing_mapping_is_returned_as_is() {
    let (state, _) = shorten_start(String::from("https://example.com/a"));
    let (state, action) = shorten_step(
        state,
        StoreReply::UrlRow { code_col: Some(String::from("abc123")) },
    );
    assert!(matches!(action, StoreAction::Stop));
    match state {
        ShortenState::Finished { result } => assert_eq!(result.unwrap(), "abc123"),
        _ => panic!("an existing mapping must finish the request"),
    }
}

#[test]
fn missing_row_leads_to_inserting_a_fresh_code() {
    let (state, _) = shorten_start(String::from("https://example.com/a"));
    let (state, action) = shorten_step(state, StoreReply::NoRow);
    match &action {
        StoreAction::InsertRow { code, url } => {
            assert_eq!(url, "https://example.com/a");
            assert_eq!(code.chars().count(), 6);
            assert!(code.chars().all(|c| c.is_ascii_alphanumeric()));
        },
        _ => panic!("an unmapped URL must be inserted"),
    }
    assert!(matches!(state, ShortenState::TryInsert { .. }));
}

#[test]
fn injected_code_conflict_retries_and_then_succeeds() {
    let (state, _) = shorten_start(String::from("https://example.com/a"));
    let (state, _) = shorten_step(state, StoreReply::NoRow);
    // inject a collision on the first attempt
    let (state, action) = shorten_step(state, StoreReply::CodeConflict);
    let retry_code = match &action {
        StoreAction::InsertRow { code, url } => {
            assert_eq!(url, "https://example.com/a");
            assert!(code.chars().all(|c| c.is_ascii_alphanumeric()));
            code.clone()
        },
        _ => panic!("a code conflict must retry with a new insertion"),
    };
    let (state, action) = shorten_step(state, StoreReply::Inserted);
    assert!(matches!(action, StoreAction::Stop));
    match state {
        ShortenState::Finished { result } => assert_eq!(result.unwrap(), retry_code),
        _ => panic!("a committed insertion must finish the request"),
    }
}

#[test]
fn url_conflict_requeries_and_returns_the_winner() {
    let (state, _) = shorten_start(String::from("https://example.com/a"));
    let (state, _) = shorten_step(state, StoreReply::NoRow);
    // a concurrent writer inserted the same URL first
    let (state, action) = shorten_step(state, StoreReply::UrlConflict);
    match &action {
        StoreAction::LookupUrl { url } => assert_eq!(url, "https://example.com/a"),
        _ => panic!("a URL conflict must re-query the store"),
    }
    let (state, _) = shorten_step(
        state,
        StoreReply::UrlRow { code_col: Some(String::from("w1nner")) },
    );
    match state {
        ShortenState::Finished { result } => assert_eq!(result.unwrap(), "w1nner"),
        _ => panic!("the winner's code must be returned"),
    }
}

#[test]
fn store_failure_is_surfaced() {
    let (state, _) = shorten_start(String::from("https://example.com/a"));
    let (state, action) = shorten_step(
        state,
        StoreReply::Failed { detail: String::from("boom") },
    );
    assert!(matches!(action, StoreAction::Stop));
    match state {
        ShortenState::Finished { result } => match result {
            Err(AppError::StoreError(d)) => assert_eq!(d, "boom"),
            _ => panic!("a store failure must surface as a store error"),
        },
        _ => panic!("a store failure must finish the request"),
    }
}

#[test]
fn corrupt_stored_code_is_an_internal_error() {
    let (state, _) = shorten_start(String::from("https://example.com/a"));
    let (state, _) = shorten_step(state, StoreReply::UrlRow { code_col: None });
    match state {
        ShortenState::Finished { result } => {
            assert!(matches!(result, Err(AppError::StoreError(_))));
        },
        _ => panic!("a missing code column must finish the request"),
    }

    let (state, _) = shorten_start(String::from("https://example.com/a"));
    let (state, _) = shorten_step(state, StoreReply::UrlRow { code_col: Some(String::new()) });
    match state {
        ShortenState::Finished { result } => {
            assert!(matches!(result, Err(AppError::StoreError(_))));
        },
        _ => panic!("an empty code must finish the request"),
    }
}

#[test]
fn resolve_decides_from_the_row() {
    assert_eq!(resolve_decide(Some(String::from("https://example.com/a"))).unwrap(), "https://example.com/a");
    assert!(matches!(resolve_decide(None), Err(AppError::NotFound)));
}
