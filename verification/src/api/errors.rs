//! The conditions under which an operation is refused.

use vstd::prelude::*;
use crate::enforcement::pointer_guard::{denial_text, AccessError};
use crate::ledger::AppendError;
use crate::text::{owned, push_text};

verus! {

/// Whether `needle` stands in `hay` at position `i`.
pub open spec fn occurs_at(hay: Seq<char>, needle: Seq<char>, i: int) -> bool {
    0 <= i && i + needle.len() <= hay.len() && hay.subrange(i, i + needle.len()) == needle
}

/// Whether `needle` stands somewhere in `hay`.
pub open spec fn contains_text(hay: Seq<char>, needle: Seq<char>) -> bool {
    exists|i: int| occurs_at(hay, needle, i)
}

/// The characters of `s`.
fn chars_of(s: &str) -> (r: Vec<char>)
    ensures
        r@ == s@,
{
    let mut out: Vec<char> = Vec::new();
    for c in it: s.chars()
        invariant
            it.seq() == s@,
            out@ == s@.take(it.index() as int),
    {
        proof {
            assert(s@.take(it.index() as int + 1) == s@.take(it.index() as int).push(c));
        }
        out.push(c);
    }
    proof {
        assert(s@.take(s@.len() as int) == s@);
    }
    out
}

/// Whether `needle` stands in `hay` at position `i`.
fn matches_at(hay: &Vec<char>, needle: &Vec<char>, i: usize) -> (r: bool)
    requires
        i + needle@.len() <= hay@.len(),
    ensures
        r == occurs_at(hay@, needle@, i as int),
{
    let mut j: usize = 0;
    while j < needle.len()
        invariant
            j <= needle.len(),
            i + needle.len() <= hay.len(),
            forall|k: int| 0 <= k < j ==> hay@[i + k] == needle@[k],
        decreases needle.len() - j,
    {
        if hay[i + j] != needle[j] {
            proof {
                let sub = hay@.subrange(i as int, i + needle@.len());
                assert(sub[j as int] == hay@[i + j]);
            }
            return false;
        }
        j += 1;
    }
    assert(hay@.subrange(i as int, i + needle@.len()) =~= needle@);
    true
}

/// Whether `needle` stands somewhere in `hay`.
pub fn contains(hay: &str, needle: &str) -> (r: bool)
    ensures
        r == contains_text(hay@, needle@),
{
    let h = chars_of(hay);
    let n = chars_of(needle);
    if n.len() > h.len() {
        return false;
    }
    if n.len() == 0 {
        assert(hay@.subrange(0, 0) =~= needle@);
        assert(occurs_at(hay@, needle@, 0));
        return true;
    }
    let last = h.len() - n.len();
    let mut i: usize = 0;
    while i <= last
        invariant
            i <= last + 1,
            last == h.len() - n.len(),
            0 < n.len() <= h.len(),
            h@ == hay@,
            n@ == needle@,
            forall|k: int| 0 <= k < i ==> !occurs_at(hay@, needle@, k),
        decreases last + 1 - i,
    {
        if matches_at(&h, &n, i) {
            return true;
        }
        i += 1;
    }
    false
}

/// A refused operation, with the words that explain it.
#[derive(Clone, Debug, PartialEq, Eq)]
pub enum ApiError {
    /// Storage or signing failed, or persisted records contradict each
    /// other.
    Internal(String),
    /// The pointer or its data is not known.
    NotFound(String),
    /// The request is malformed.
    BadRequest(String),
    /// The pointer is orphaned and can never be resolved again.
    PointerOrphaned(String),
    /// The operation contradicts the state of the pointer.
    Conflict(String),
}

/// The kind of an [`ApiError`].
#[derive(Clone, Copy, Debug, PartialEq, Eq, Structural)]
pub enum ErrorKind {
    Internal,
    NotFound,
    BadRequest,
    PointerOrphaned,
    Conflict,
}

/// The HTTP status that reports an error of the given kind.
pub open spec fn status_of(kind: ErrorKind) -> int {
    match kind {
        ErrorKind::Internal => 500,
        ErrorKind::NotFound => 404,
        ErrorKind::BadRequest => 400,
        ErrorKind::PointerOrphaned => 403,
        ErrorKind::Conflict => 409,
    }
}

/// How an error that arrives as words alone is classified: as an orphaned
/// pointer where the words name one, as an internal error otherwise.
pub open spec fn kind_of_message(message: Seq<char>) -> ErrorKind {
    if contains_text(message, "pointer_orphaned"@) {
        ErrorKind::PointerOrphaned
    } else {
        ErrorKind::Internal
    }
}

impl ApiError {
    /// The kind of the error.
    pub open spec fn kind(&self) -> ErrorKind {
        match self {
            ApiError::Internal(_) => ErrorKind::Internal,
            ApiError::NotFound(_) => ErrorKind::NotFound,
            ApiError::BadRequest(_) => ErrorKind::BadRequest,
            ApiError::PointerOrphaned(_) => ErrorKind::PointerOrphaned,
            ApiError::Conflict(_) => ErrorKind::Conflict,
        }
    }

    /// The words that explain the error.
    pub open spec fn text(&self) -> Seq<char> {
        match self {
            ApiError::Internal(m) => m@,
            ApiError::NotFound(m) => m@,
            ApiError::BadRequest(m) => m@,
            ApiError::PointerOrphaned(m) => m@,
            ApiError::Conflict(m) => m@,
        }
    }

    /// The kind of the error.
    pub fn error_kind(&self) -> (r: ErrorKind)
        ensures
            r == self.kind(),
    {
        match self {
            ApiError::Internal(_) => ErrorKind::Internal,
            ApiError::NotFound(_) => ErrorKind::NotFound,
            ApiError::BadRequest(_) => ErrorKind::BadRequest,
            ApiError::PointerOrphaned(_) => ErrorKind::PointerOrphaned,
            ApiError::Conflict(_) => ErrorKind::Conflict,
        }
    }

    /// The words that explain the error.
    pub fn message(&self) -> (r: &str)
        ensures
            r@ == self.text(),
    {
        match self {
            ApiError::Internal(m) => m.as_str(),
            ApiError::NotFound(m) => m.as_str(),
            ApiError::BadRequest(m) => m.as_str(),
            ApiError::PointerOrphaned(m) => m.as_str(),
            ApiError::Conflict(m) => m.as_str(),
        }
    }

    /// The HTTP status that reports the error.
    pub fn status_code(&self) -> (r: u16)
        ensures
            r == status_of(self.kind()),
    {
        match self {
            ApiError::Internal(_) => 500,
            ApiError::NotFound(_) => 404,
            ApiError::BadRequest(_) => 400,
            ApiError::PointerOrphaned(_) => 403,
            ApiError::Conflict(_) => 409,
        }
    }

    /// Classifies an error that arrives as words alone.
    pub fn from_message(error_str: String) -> (r: ApiError)
        ensures
            r.kind() == kind_of_message(error_str@),
            r.text() == error_str@,
    {
        if contains(error_str.as_str(), "pointer_orphaned") {
            ApiError::PointerOrphaned(error_str)
        } else {
            ApiError::Internal(error_str)
        }
    }

    /// The error that reports a denial of access.
    pub fn from_access_error(error: AccessError) -> (r: ApiError)
        ensures
            r.kind() == ErrorKind::PointerOrphaned,
            r.text() == denial_text(),
            r.kind() == kind_of_message(r.text()),
    {
        proof {
            lemma_denial_is_recognised();
        }
        ApiError::PointerOrphaned(error.message())
    }

    /// The error that reports why a receipt that was built beforehand was
    /// not appended. A stale receipt is a conflict that the caller may
    /// retry; an orphaned pointer is denied for good; a receipt of the
    /// wrong kind or without a seal is the caller's mistake.
    pub fn from_append_error(error: AppendError) -> (r: ApiError)
        ensures
            r.kind() == match error {
                AppendError::Orphaned => ErrorKind::PointerOrphaned,
                AppendError::NotResolve => ErrorKind::BadRequest,
                AppendError::Unsealed => ErrorKind::BadRequest,
                AppendError::Stale => ErrorKind::Conflict,
            },
            r.text() == match error {
                AppendError::Orphaned => denial_text(),
                AppendError::NotResolve => "Receipt records no resolve"@,
                AppendError::Unsealed => "Receipt is not sealed for this pointer"@,
                AppendError::Stale => "Receipt chain has a newer latest receipt"@,
            },
    {
        match error {
            AppendError::Orphaned => ApiError::from_access_error(AccessError::PointerOrphaned),
            AppendError::NotResolve => ApiError::BadRequest(owned("Receipt records no resolve")),
            AppendError::Unsealed => ApiError::BadRequest(
                owned("Receipt is not sealed for this pointer"),
            ),
            AppendError::Stale => ApiError::Conflict(
                owned("Receipt chain has a newer latest receipt"),
            ),
        }
    }

    /// The error that reports a failure of the persistence layer.
    pub fn database(detail: &str) -> (r: ApiError)
        ensures
            r.kind() == ErrorKind::Internal,
            r.text() == "Database error: "@ + detail@,
    {
        let mut message = owned("Database error: ");
        push_text(&mut message, detail);
        ApiError::Internal(message)
    }
}

/// A denial of access is classified as an orphaned pointer by its words
/// alone.
pub proof fn lemma_denial_is_recognised()
    ensures
        kind_of_message(denial_text()) == ErrorKind::PointerOrphaned,
{
    reveal_strlit("pointer_orphaned: This pointer has been orphaned and cannot be resolved");
    reveal_strlit("pointer_orphaned");
    let hay = denial_text();
    let needle = "pointer_orphaned"@;
    assert(hay.subrange(0, 16) =~= needle);
    assert(occurs_at(hay, needle, 0));
}

} // verus!
