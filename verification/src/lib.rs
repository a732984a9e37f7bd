//! Core of a URL shortener: assignment of short, unique alphanumeric codes
//! to validated absolute URLs, and resolution of codes back to their URLs.
//!
//! The mapping store enforces uniqueness of both the code and the URL; the
//! shortening service validates input, reuses an existing mapping when one
//! is present, and otherwise inserts a freshly drawn candidate code,
//! retrying on a code collision. A step-wise protocol drives the same
//! decisions against an external store one reply at a time.

pub mod codes;
pub mod errors;
pub mod laws;
pub mod protocol;
pub mod service;
pub mod store;
pub mod urls;
