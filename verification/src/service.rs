//! The shortening service: validate a submitted URL, reuse the mapping the
//! store already holds for it, or insert a freshly drawn candidate code,
//! retrying on a code collision; and resolve a code back to its URL.

use vstd::prelude::*;
use crate::codes::generate_short_code;
use crate::codes::valid_code;
use crate::errors::AppError;
use crate::store::ConflictKind;
use crate::store::MappingStore;
use crate::store::Rows;
use crate::store::code_for;
use crate::store::contains_code;
use crate::store::contains_url;
use crate::store::url_for;
use crate::store::url_index;
use crate::store::urls_valid;
use crate::urls::parse_ok;
use crate::urls::url_ok;

verus! {

/// `shorten` returned the code the store already held for this URL, and
/// changed nothing.
pub open spec fn shorten_found(pre: Rows, post: Rows, url: Seq<char>, code: Seq<char>) -> bool {
    &&& contains_url(pre, url)
    &&& code == code_for(pre, url)
    &&& post == pre
}

/// `shorten` inserted exactly one new row, pairing the URL with a fresh
/// well-formed code that no earlier row held.
pub open spec fn shorten_inserted(pre: Rows, post: Rows, url: Seq<char>, code: Seq<char>) -> bool {
    &&& !contains_url(pre, url)
    &&& !contains_code(pre, code)
    &&& valid_code(code)
    &&& post == pre.push((code, url))
}

/// Everything a successful `shorten` can do.
pub open spec fn shorten_ok(pre: Rows, post: Rows, url: Seq<char>, code: Seq<char>) -> bool {
    shorten_found(pre, post, url, code) || shorten_inserted(pre, post, url, code)
}

/// How many candidate codes one `shorten` call may draw before it gives up.
/// A collision is vanishingly rare (62 to the minus 6th per draw), but a
/// bounded budget keeps a persistently conflicting store from looping
/// forever.
pub const MAX_ATTEMPTS: usize = 64;

/// Map a URL to its short code. An invalid URL is rejected without touching
/// the store; a URL the store already maps keeps its code; any other URL is
/// paired with a freshly drawn code, redrawing on a code collision. Only
/// the exhaustion of the whole retry budget by collisions surfaces as a
/// store error; the store is then unchanged.
pub fn shorten(store: &mut MappingStore, url: &str) -> (r: Result<String, AppError>)
    requires
        old(store).wf(),
    ensures
        final(store).wf(),
        !url_ok(url@) ==> r == Err::<String, AppError>(AppError::InvalidUrl) && final(store)@
            == old(store)@,
        url_ok(url@) ==> (r matches Ok(code) ==> shorten_ok(
            old(store)@,
            final(store)@,
            url@,
            code@,
        )),
        url_ok(url@) ==> (r matches Err(e) ==> (e matches AppError::StoreError(d)
            && final(store)@ == old(store)@ && !contains_url(old(store)@, url@))),
        urls_valid(old(store)@) ==> urls_valid(final(store)@),
{
    if !parse_ok(url) {
        return Err(AppError::InvalidUrl);
    }
    match store.find_by_url(url) {
        Some(m) => {
            if m.short_code.as_str().is_empty() {
                // a stored mapping whose code is empty breaks the store's
                // well-formedness; surface it as a consistency failure
                proof {
                    let k = url_index(store@, url@);
                    assert(valid_code(store@[k].0));
                }
                return Err(
                    AppError::StoreError(String::from_str("corrupt mapping: empty short code")),
                );
            }
            return Ok(m.short_code);
        }
        None => {},
    }
    let ghost pre: Rows = store@;
    let mut attempts: usize = 0;
    while attempts < MAX_ATTEMPTS
        invariant
            store.wf(),
            store@ == pre,
            pre == old(store)@,
            !contains_url(pre, url@),
            url_ok(url@),
        decreases MAX_ATTEMPTS - attempts,
    {
        attempts += 1;
        let candidate = generate_short_code();
        match store.insert(candidate.as_str(), url) {
            Ok(_) => {
                return Ok(candidate);
            },
            Err(ConflictKind::CodeConflict) => {
                // the candidate lost a code-uniqueness race: redraw
            },
            Err(ConflictKind::UrlConflict) => {
                // a concurrent writer won the race for this URL: return the
                // winner's code instead of failing
                match store.find_by_url(url) {
                    Some(m) => {
                        return Ok(m.short_code);
                    },
                    None => {
                        return Err(
                            AppError::StoreError(String::from_str("mapping vanished during retry")),
                        );
                    },
                }
            },
        }
    }
    // every draw in the budget collided with an existing code
    Err(AppError::StoreError(String::from_str("could not allocate a unique short code")))
}

/// Resolve a short code to the URL stored under it. Any string is a valid
/// lookup key; absence is the only failure.
pub fn resolve(store: &MappingStore, code: &str) -> (r: Result<String, AppError>)
    requires
        store.wf(),
    ensures
        contains_code(store@, code@) ==> (r matches Ok(u) && u@ == url_for(store@, code@)),
        !contains_code(store@, code@) ==> r == Err::<String, AppError>(AppError::NotFound),
{
    match store.find_by_code(code) {
        Some(m) => Ok(m.original_url),
        None => Err(AppError::NotFound),
    }
}

/// The short URL a caller is handed back: the fixed base address with the
/// code appended.
pub fn short_url_for(code: &str) -> (r: String)
    ensures
        r@ == "http://localhost:8080/"@ + code@,
{
    String::from_str("http://localhost:8080/").concat(code)
}

} // verus!
