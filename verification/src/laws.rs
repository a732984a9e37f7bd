//! The properties the shortening protocol keeps, proved once and for all
//! over the same outcome relations the executable contracts state:
//! idempotent submission, no code shared across distinct URLs, round-trip
//! resolution, agreement of racing same-URL submissions, and recovery from
//! a code collision.

use vstd::prelude::*;
use crate::codes::valid_code;
use crate::service::shorten_found;
use crate::service::shorten_inserted;
use crate::service::shorten_ok;
use crate::store::Rows;
use crate::store::code_for;
use crate::store::contains_code;
use crate::store::contains_url;
use crate::store::lemma_code_row;
use crate::store::lemma_push_preserves_wf;
use crate::store::lemma_url_row;
use crate::store::rows_wf;
use crate::store::url_for;
use crate::store::url_index;
use crate::store::urls_unique;

verus! {

/// Exactly one row holds this URL.
pub open spec fn exactly_one_mapping_for(rows: Rows, url: Seq<char>) -> bool {
    exists|i: int|
        0 <= i < rows.len() && (#[trigger] rows[i]).1 == url && (forall|j: int|
            0 <= j < rows.len() && (#[trigger] rows[j]).1 == url ==> j == i)
}

/// When URLs are unique, holding a URL at all means holding it exactly once.
pub proof fn lemma_unique_url_is_single(rows: Rows, url: Seq<char>)
    requires
        urls_unique(rows),
        contains_url(rows, url),
    ensures
        exactly_one_mapping_for(rows, url),
{
    let i = url_index(rows, url);
    assert(0 <= i < rows.len() && rows[i].1 == url);
    assert forall|j: int| 0 <= j < rows.len() && (#[trigger] rows[j]).1 == url implies j == i by {
        lemma_url_row(rows, url, j);
    }
}

/// Whatever a successful `shorten` did, afterwards the store is well-formed
/// and holds the returned code exactly for the submitted URL, in a row the
/// call either found or added.
pub proof fn lemma_shorten_ok_row(pre: Rows, post: Rows, url: Seq<char>, code: Seq<char>)
    requires
        rows_wf(pre),
        shorten_ok(pre, post, url, code),
    ensures
        rows_wf(post),
        contains_url(post, url),
        code_for(post, url) == code,
        post[url_index(post, url)] == (code, url),
        pre.len() <= post.len() <= pre.len() + 1,
        forall|i: int| 0 <= i < pre.len() ==> post[i] == pre[i],
{
    if shorten_found(pre, post, url, code) {
        let i = url_index(pre, url);
        assert(0 <= i < pre.len() && pre[i].1 == url);
        lemma_url_row(pre, url, i);
        assert(post[i] == (post[i].0, post[i].1));
    } else {
        lemma_push_preserves_wf(pre, code, url);
        let n = pre.len() as int;
        assert(post[n] == (code, url));
        lemma_url_row(post, url, n);
    }
}

/// Idempotent submission: a second `shorten` of the same URL returns the
/// same code as the first, changes nothing, and the store holds exactly
/// one mapping for that URL.
pub proof fn lemma_shorten_idempotent(
    s0: Rows,
    s1: Rows,
    s2: Rows,
    url: Seq<char>,
    c1: Seq<char>,
    c2: Seq<char>,
)
    requires
        rows_wf(s0),
        shorten_ok(s0, s1, url, c1),
        shorten_ok(s1, s2, url, c2),
    ensures
        c2 == c1,
        s2 == s1,
        exactly_one_mapping_for(s2, url),
{
    lemma_shorten_ok_row(s0, s1, url, c1);
    assert(shorten_found(s1, s2, url, c2));
    lemma_unique_url_is_single(s2, url);
}

/// No code is shared across distinct URLs: two successful `shorten` calls,
/// one after the other, for different URLs return different codes.
pub proof fn lemma_shorten_bijective(
    s0: Rows,
    s1: Rows,
    s2: Rows,
    u1: Seq<char>,
    u2: Seq<char>,
    c1: Seq<char>,
    c2: Seq<char>,
)
    requires
        rows_wf(s0),
        shorten_ok(s0, s1, u1, c1),
        shorten_ok(s1, s2, u2, c2),
        u1 != u2,
    ensures
        c1 != c2,
{
    lemma_shorten_ok_row(s0, s1, u1, c1);
    let i1 = url_index(s1, u1);
    lemma_shorten_ok_row(s1, s2, u2, c2);
    let i2 = url_index(s2, u2);
    assert(s2[i1] == (c1, u1));
    if c1 == c2 {
        assert(s2[i2] == (c2, u2));
        assert(i1 != i2);
    }
}

/// Round-trip: the code a successful `shorten` returned resolves, and
/// resolves to the submitted URL.
pub proof fn lemma_round_trip(s0: Rows, s1: Rows, url: Seq<char>, code: Seq<char>)
    requires
        rows_wf(s0),
        shorten_ok(s0, s1, url, code),
    ensures
        contains_code(s1, code),
        url_for(s1, code) == url,
{
    lemma_shorten_ok_row(s0, s1, url, code);
    let i = url_index(s1, url);
    lemma_code_row(s1, code, i);
}

/// A successful `shorten` keeps every mapping the store already held, with
/// its code unchanged: rows are only ever appended.
pub proof fn lemma_shorten_preserves_mappings(
    pre: Rows,
    post: Rows,
    url: Seq<char>,
    code: Seq<char>,
    held: Seq<char>,
)
    requires
        rows_wf(pre),
        shorten_ok(pre, post, url, code),
        contains_url(pre, held),
    ensures
        contains_url(post, held),
        code_for(post, held) == code_for(pre, held),
{
    lemma_shorten_ok_row(pre, post, url, code);
    let i = url_index(pre, held);
    assert(0 <= i < pre.len() && pre[i].1 == held);
    lemma_url_row(pre, held, i);
    assert(post[i] == pre[i]);
    lemma_url_row(post, held, i);
}

/// One step of a run of same-URL submissions: after the (k+1)-th call the
/// store is well-formed, maps the URL to the first call's code, and the
/// (k+1)-th call returned that same code.
proof fn lemma_same_url_run_step(
    states: Seq<Rows>,
    results: Seq<Seq<char>>,
    url: Seq<char>,
    k: int,
)
    requires
        states.len() == results.len() + 1,
        rows_wf(states[0]),
        forall|m: int|
            0 <= m < results.len() ==> shorten_ok(
                #[trigger] states[m],
                states[m + 1],
                url,
                results[m],
            ),
        0 <= k < results.len(),
    ensures
        rows_wf(states[k + 1]),
        contains_url(states[k + 1], url),
        code_for(states[k + 1], url) == results[0],
        results[k] == results[0],
    decreases k,
{
    if k == 0 {
        assert(shorten_ok(states[0], states[1], url, results[0]));
        lemma_shorten_ok_row(states[0], states[1], url, results[0]);
    } else {
        lemma_same_url_run_step(states, results, url, k - 1);
        assert(shorten_ok(states[k], states[k + 1], url, results[k]));
        assert(shorten_found(states[k], states[k + 1], url, results[k]));
        lemma_shorten_ok_row(states[k], states[k + 1], url, results[k]);
    }
}

/// Racing same-URL submissions, as the store serializes them: every call of
/// a run of successful `shorten` calls for one URL returns the first call's
/// code, and the store ends with exactly one mapping for that URL.
pub proof fn lemma_same_url_run(states: Seq<Rows>, results: Seq<Seq<char>>, url: Seq<char>)
    requires
        states.len() == results.len() + 1,
        results.len() >= 1,
        rows_wf(states[0]),
        forall|m: int|
            0 <= m < results.len() ==> shorten_ok(
                #[trigger] states[m],
                states[m + 1],
                url,
                results[m],
            ),
    ensures
        forall|k: int| 0 <= k < results.len() ==> #[trigger] results[k] == results[0],
        exactly_one_mapping_for(states[states.len() - 1], url),
{
    assert forall|k: int| 0 <= k < results.len() implies #[trigger] results[k] == results[0] by {
        lemma_same_url_run_step(states, results, url, k);
    }
    let last = results.len() as int - 1;
    lemma_same_url_run_step(states, results, url, last);
    lemma_unique_url_is_single(states[last + 1], url);
}

/// Recovery from a code collision: a candidate that collides with a stored
/// code is rejected with the store unchanged, and a redrawn candidate that
/// is fresh inserts, yields a code different from the colliding one, and
/// adds exactly one mapping for the URL.
pub proof fn lemma_conflict_retry(s0: Rows, url: Seq<char>, c0: Seq<char>, c1: Seq<char>)
    requires
        rows_wf(s0),
        contains_code(s0, c0),
        !contains_url(s0, url),
        !contains_code(s0, c1),
        valid_code(c1),
    ensures
        c1 != c0,
        shorten_inserted(s0, s0.push((c1, url)), url, c1),
        rows_wf(s0.push((c1, url))),
        exactly_one_mapping_for(s0.push((c1, url)), url),
        s0.push((c1, url)).len() == s0.len() + 1,
{
    lemma_push_preserves_wf(s0, c1, url);
    let s1 = s0.push((c1, url));
    assert(s1[s0.len() as int] == (c1, url));
    lemma_unique_url_is_single(s1, url);
}

} // verus!
