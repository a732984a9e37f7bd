//! The failures the shortener surfaces, with the HTTP status and the
//! human-readable message each one is reported with.

use vstd::prelude::*;

verus! {

/// Everything a request can fail with.
#[derive(Debug)]
pub enum AppError {
    /// An underlying persistence failure, carrying a short detail message.
    StoreError(String),
    /// Lookup by code found no mapping.
    NotFound,
    /// The submitted URL failed validation.
    InvalidUrl,
}

impl AppError {
    /// The HTTP status this error is reported with: an internal error for a
    /// store failure, not-found for a missing code, bad-request for an
    /// invalid URL.
    pub fn status_code(&self) -> (c: u16)
        ensures
            self matches AppError::StoreError(_) ==> c == 500,
            self matches AppError::NotFound ==> c == 404,
            self matches AppError::InvalidUrl ==> c == 400,
    {
        match self {
            AppError::StoreError(_) => 500,
            AppError::NotFound => 404,
            AppError::InvalidUrl => 400,
        }
    }

    /// The user-visible message for this error: short, human-readable, with
    /// no internals beyond the store's own detail text.
    pub fn error_message(&self) -> (m: String)
        ensures
            self matches AppError::StoreError(d) ==> m@ == "Database error: "@ + d@,
            self matches AppError::NotFound ==> m@ == "URL not found"@,
            self matches AppError::InvalidUrl ==> m@ == "Invalid URL"@,
    {
        match self {
            AppError::StoreError(d) => String::from_str("Database error: ").concat(d.as_str()),
            AppError::NotFound => String::from_str("URL not found"),
            AppError::InvalidUrl => String::from_str("Invalid URL"),
        }
    }
}

} // verus!
