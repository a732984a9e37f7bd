//! URL validation: a submitted string is accepted only when it is a
//! well-formed absolute URL.

use vstd::prelude::*;

verus! {

/// Whether a string is a well-formed absolute URL. The grammar is the
/// standard URL grammar as the `url` crate implements it; the predicate is
/// left uninterpreted and pinned down only by `parse_ok`.
pub uninterp spec fn url_ok(s: Seq<char>) -> bool;

/// Relies on `url::Url::parse`: whether a string parses as an absolute URL
/// depends on its characters alone.
#[verifier::external_body]
pub(crate) fn parse_ok(s: &str) -> (r: bool)
    ensures
        r == url_ok(s@),
{
    url::Url::parse(s).is_ok()
}

} // verus!
