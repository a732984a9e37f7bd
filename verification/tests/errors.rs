use url_shortener::errors::AppError;

#[test]
fn status_codes_follow_the_error_kind() {
    assert_eq!(AppError::StoreError(String::from("boom")).status_code(), 500);
    assert_eq!(AppError::NotFound.status_code(), 404);
    assert_eq!(AppError::InvalidUrl.status_code(), 400);
}

#[test]
fn messages_are_short_and_human_readable() {
    assert_eq!(AppError::StoreError(String::from("boom")).error_message(), "Database error: boom");
    assert_eq!(AppError::NotFound.error_message(), "URL not found");
    assert_eq!(AppError::InvalidUrl.error_message(), "Invalid URL");
}
