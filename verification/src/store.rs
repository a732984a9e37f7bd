//! The mapping store: rows pairing a short code with its original URL, with
//! both columns globally unique. Lookups are exact-match; insertion is
//! atomic and reports which uniqueness constraint it would have violated.

use vstd::prelude::*;
use crate::codes::valid_code;
use crate::urls::url_ok;

verus! {

/// One persisted pairing of a short code and its original URL. A mapping is
/// created once, never mutated and never deleted.
pub struct Mapping {
    pub short_code: String,
    pub original_url: String,
}

impl View for Mapping {
    type V = (Seq<char>, Seq<char>);

    open spec fn view(&self) -> (Seq<char>, Seq<char>) {
        (self.short_code@, self.original_url@)
    }
}

/// The rows of a store, abstracted: each row is a (code, url) pair.
pub type Rows = Seq<(Seq<char>, Seq<char>)>;

/// No two rows share a short code.
pub open spec fn codes_unique(rows: Rows) -> bool {
    forall|i: int, j: int|
        0 <= i < j < rows.len() ==> (#[trigger] rows[i]).0 != (#[trigger] rows[j]).0
}

/// No two rows share an original URL.
pub open spec fn urls_unique(rows: Rows) -> bool {
    forall|i: int, j: int|
        0 <= i < j < rows.len() ==> (#[trigger] rows[i]).1 != (#[trigger] rows[j]).1
}

/// Every stored code is well-formed.
pub open spec fn codes_valid(rows: Rows) -> bool {
    forall|i: int| 0 <= i < rows.len() ==> valid_code((#[trigger] rows[i]).0)
}

/// Every stored URL passed validation.
pub open spec fn urls_valid(rows: Rows) -> bool {
    forall|i: int| 0 <= i < rows.len() ==> url_ok((#[trigger] rows[i]).1)
}

/// Some row holds this code.
pub open spec fn contains_code(rows: Rows, code: Seq<char>) -> bool {
    exists|i: int| 0 <= i < rows.len() && (#[trigger] rows[i]).0 == code
}

/// Some row holds this URL.
pub open spec fn contains_url(rows: Rows, url: Seq<char>) -> bool {
    exists|i: int| 0 <= i < rows.len() && (#[trigger] rows[i]).1 == url
}

/// The index of the row holding this URL (unique when URLs are unique).
pub open spec fn url_index(rows: Rows, url: Seq<char>) -> int {
    choose|i: int| 0 <= i < rows.len() && (#[trigger] rows[i]).1 == url
}

/// The index of the row holding this code (unique when codes are unique).
pub open spec fn code_index(rows: Rows, code: Seq<char>) -> int {
    choose|i: int| 0 <= i < rows.len() && (#[trigger] rows[i]).0 == code
}

/// The code stored for this URL.
pub open spec fn code_for(rows: Rows, url: Seq<char>) -> Seq<char> {
    rows[url_index(rows, url)].0
}

/// The URL stored under this code.
pub open spec fn url_for(rows: Rows, code: Seq<char>) -> Seq<char> {
    rows[code_index(rows, code)].1
}

/// The store's invariant: both columns unique, every code well-formed.
pub open spec fn rows_wf(rows: Rows) -> bool {
    codes_unique(rows) && urls_unique(rows) && codes_valid(rows)
}

/// A row holding this URL sits exactly at `url_index`, and nowhere else.
pub proof fn lemma_url_row(rows: Rows, url: Seq<char>, i: int)
    requires
        urls_unique(rows),
        0 <= i < rows.len(),
        rows[i].1 == url,
    ensures
        contains_url(rows, url),
        url_index(rows, url) == i,
        code_for(rows, url) == rows[i].0,
{
    assert(contains_url(rows, url));
    let k = url_index(rows, url);
    assert(0 <= k < rows.len() && rows[k].1 == url);
    if k != i {
        assert(rows[k].1 != rows[i].1);
    }
}

/// A row holding this code sits exactly at `code_index`, and nowhere else.
pub proof fn lemma_code_row(rows: Rows, code: Seq<char>, i: int)
    requires
        codes_unique(rows),
        0 <= i < rows.len(),
        rows[i].0 == code,
    ensures
        contains_code(rows, code),
        code_index(rows, code) == i,
        url_for(rows, code) == rows[i].1,
{
    assert(contains_code(rows, code));
    let k = code_index(rows, code);
    assert(0 <= k < rows.len() && rows[k].0 == code);
    if k != i {
        assert(rows[k].0 != rows[i].0);
    }
}

/// Appending a row whose code and URL are both fresh, with a well-formed
/// code, preserves the store invariant.
pub proof fn lemma_push_preserves_wf(rows: Rows, code: Seq<char>, url: Seq<char>)
    requires
        rows_wf(rows),
        !contains_code(rows, code),
        !contains_url(rows, url),
        valid_code(code),
    ensures
        rows_wf(rows.push((code, url))),
{
    let pushed = rows.push((code, url));
    assert forall|i: int, j: int|
        0 <= i < j < pushed.len() implies (#[trigger] pushed[i]).0 != (#[trigger] pushed[j]).0 by {
        if j == rows.len() {
            assert(rows[i].0 != code);
        }
    }
    assert forall|i: int, j: int|
        0 <= i < j < pushed.len() implies (#[trigger] pushed[i]).1 != (#[trigger] pushed[j]).1 by {
        if j == rows.len() {
            assert(rows[i].1 != url);
        }
    }
    assert forall|i: int| 0 <= i < pushed.len() implies valid_code((#[trigger] pushed[i]).0) by {
        if i < rows.len() {
            assert(valid_code(rows[i].0));
        }
    }
}

/// Which uniqueness constraint a rejected insertion violated.
#[derive(Debug, PartialEq, Eq, Structural)]
pub enum ConflictKind {
    /// The offered short code is already taken.
    CodeConflict,
    /// The offered URL is already mapped.
    UrlConflict,
}

/// Durable key-value persistence of mappings, modelled as the sequence of
/// rows inserted so far.
pub struct MappingStore {
    pub rows: Vec<Mapping>,
}

impl View for MappingStore {
    type V = Rows;

    open spec fn view(&self) -> Rows {
        Seq::new(self.rows@.len(), |i: int| (self.rows@[i].short_code@, self.rows@[i].original_url@))
    }
}

impl MappingStore {
    /// The store's invariant.
    pub open spec fn wf(self) -> bool {
        rows_wf(self@)
    }

    /// An empty store. Creating the underlying storage structure afresh is
    /// idempotent: there is one empty store.
    pub fn new() -> (s: MappingStore)
        ensures
            s@ == Seq::<(Seq<char>, Seq<char>)>::empty(),
            s.wf(),
    {
        let s = MappingStore { rows: Vec::new() };
        proof {
            assert(s@ =~= Seq::<(Seq<char>, Seq<char>)>::empty());
        }
        s
    }

    /// How many mappings are stored.
    pub fn row_count(&self) -> (n: usize)
        ensures
            n as nat == self@.len(),
    {
        self.rows.len()
    }

    /// Whether some row holds this code.
    fn has_code(&self, code: &str) -> (b: bool)
        ensures
            b == contains_code(self@, code@),
    {
        let target: String = code.to_owned();
        let mut i: usize = 0;
        while i < self.rows.len()
            invariant
                i <= self.rows.len(),
                target@ == code@,
                forall|j: int| 0 <= j < i ==> (#[trigger] self@[j]).0 != code@,
            decreases self.rows.len() - i,
        {
            if self.rows[i].short_code == target {
                assert((self@[i as int]).0 == code@);
                return true;
            }
            i += 1;
        }
        false
    }

    /// Whether some row holds this URL.
    fn has_url(&self, url: &str) -> (b: bool)
        ensures
            b == contains_url(self@, url@),
    {
        let target: String = url.to_owned();
        let mut i: usize = 0;
        while i < self.rows.len()
            invariant
                i <= self.rows.len(),
                target@ == url@,
                forall|j: int| 0 <= j < i ==> (#[trigger] self@[j]).1 != url@,
            decreases self.rows.len() - i,
        {
            if self.rows[i].original_url == target {
                assert((self@[i as int]).1 == url@);
                return true;
            }
            i += 1;
        }
        false
    }

    /// Exact-match lookup by URL: the mapping for this URL, or absence.
    /// Absence is no error.
    pub fn find_by_url(&self, url: &str) -> (r: Option<Mapping>)
        requires
            self.wf(),
        ensures
            contains_url(self@, url@) ==> (r matches Some(m) && m@ == (
                code_for(self@, url@),
                url@,
            )),
            !contains_url(self@, url@) ==> r is None,
    {
        let target: String = url.to_owned();
        let mut i: usize = 0;
        while i < self.rows.len()
            invariant
                self.wf(),
                i <= self.rows.len(),
                target@ == url@,
                forall|j: int| 0 <= j < i ==> (#[trigger] self@[j]).1 != url@,
            decreases self.rows.len() - i,
        {
            if self.rows[i].original_url == target {
                proof {
                    lemma_url_row(self@, url@, i as int);
                }
                return Some(
                    Mapping {
                        short_code: self.rows[i].short_code.clone(),
                        original_url: self.rows[i].original_url.clone(),
                    },
                );
            }
            i += 1;
        }
        None
    }

    /// Exact-match lookup by code: the mapping for this code, or absence.
    pub fn find_by_code(&self, code: &str) -> (r: Option<Mapping>)
        requires
            self.wf(),
        ensures
            contains_code(self@, code@) ==> (r matches Some(m) && m@ == (
                code@,
                url_for(self@, code@),
            )),
            !contains_code(self@, code@) ==> r is None,
    {
        let target: String = code.to_owned();
        let mut i: usize = 0;
        while i < self.rows.len()
            invariant
                self.wf(),
                i <= self.rows.len(),
                target@ == code@,
                forall|j: int| 0 <= j < i ==> (#[trigger] self@[j]).0 != code@,
            decreases self.rows.len() - i,
        {
            if self.rows[i].short_code == target {
                proof {
                    lemma_code_row(self@, code@, i as int);
                }
                return Some(
                    Mapping {
                        short_code: self.rows[i].short_code.clone(),
                        original_url: self.rows[i].original_url.clone(),
                    },
                );
            }
            i += 1;
        }
        None
    }

    /// Atomically insert a new mapping. The insertion succeeds exactly when
    /// both uniqueness constraints hold afterwards; a rejected insertion
    /// reports which constraint it hit (the code first) and changes nothing.
    pub fn insert(&mut self, code: &str, url: &str) -> (r: Result<(), ConflictKind>)
        requires
            old(self).wf(),
            valid_code(code@),
        ensures
            final(self).wf(),
            (r matches Ok(u)) == (!contains_code(old(self)@, code@) && !contains_url(
                old(self)@,
                url@,
            )),
            r matches Ok(u) ==> final(self)@ == old(self)@.push((code@, url@)),
            (r == Err::<(), ConflictKind>(ConflictKind::CodeConflict)) == contains_code(
                old(self)@,
                code@,
            ),
            (r == Err::<(), ConflictKind>(ConflictKind::UrlConflict)) == (!contains_code(
                old(self)@,
                code@,
            ) && contains_url(old(self)@, url@)),
            r matches Err(k) ==> final(self)@ == old(self)@,
            urls_valid(old(self)@) && url_ok(url@) ==> urls_valid(final(self)@),
    {
        if self.has_code(code) {
            return Err(ConflictKind::CodeConflict);
        }
        if self.has_url(url) {
            return Err(ConflictKind::UrlConflict);
        }
        let ghost pre: Rows = self@;
        self.rows.push(Mapping { short_code: code.to_owned(), original_url: url.to_owned() });
        proof {
            assert(self@ =~= pre.push((code@, url@)));
            lemma_push_preserves_wf(pre, code@, url@);
        }
        Ok(())
    }
}

} // verus!
