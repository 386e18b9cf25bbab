//! Mapping of inner-machine error messages onto the database error codes the
//! host understands. Only `get_block` uses these: a recognized failure is
//! reported in-body under its code rather than as a transport failure.

use vstd::prelude::*;
use vstd::string::StrSliceExecFns;

verus! {

/// In-body code for a database that was closed.
pub const ERR_CLOSED: u32 = 1;

/// In-body code for a block the inner machine does not know.
pub const ERR_NOT_FOUND: u32 = 2;

/// The needle occurs in the haystack starting at position `i`.
pub open spec fn match_at(h: Seq<char>, n: Seq<char>, i: int) -> bool {
    forall|j: int| 0 <= j < n.len() ==> h[i + j] == n[j]
}

/// The needle occurs somewhere in the haystack.
pub open spec fn contains_seq(h: Seq<char>, n: Seq<char>) -> bool {
    exists|i: int| 0 <= i <= h.len() - n.len() && match_at(h, n, i)
}

/// Decides whether the needle occurs in the haystack.
pub fn str_contains(h: &str, n: &str) -> (r: bool)
    ensures
        r == contains_seq(h@, n@),
{
    let hlen: usize = h.unicode_len();
    let nlen: usize = n.unicode_len();
    if nlen > hlen {
        return false;
    }
    let mut i: usize = 0;
    while i <= hlen - nlen
        invariant
            0 <= i <= hlen - nlen + 1,
            nlen <= hlen,
            hlen == h@.len(),
            nlen == n@.len(),
            forall|k: int| 0 <= k < i ==> !match_at(h@, n@, k),
        decreases hlen - nlen + 1 - i,
    {
        let mut j: usize = 0;
        let mut hit = true;
        while j < nlen
            invariant
                0 <= j <= nlen,
                i + nlen <= hlen,
                hlen == h@.len(),
                nlen == n@.len(),
                hit ==> forall|k: int| 0 <= k < j ==> h@[i + k] == n@[k],
                !hit ==> !match_at(h@, n@, i as int),
            decreases nlen - j,
        {
            if h.get_char(i + j) != n.get_char(j) {
                assert(h@[i + j] != n@[j as int]);
                hit = false;
                j = nlen;
            } else {
                j = j + 1;
            }
        }
        if hit {
            assert(match_at(h@, n@, i as int));
            return true;
        }
        i = i + 1;
    }
    false
}

/// The in-body code an error message maps to: a message that speaks of a
/// closed database or of a missing block is recognized; any other message
/// has no code.
pub open spec fn error_code_of(m: Seq<char>) -> Option<u32> {
    if contains_seq(m, "database closed"@) {
        Some(ERR_CLOSED)
    } else if contains_seq(m, "not found"@) {
        Some(ERR_NOT_FOUND)
    } else {
        None
    }
}

/// A recognized code is never zero, the marker of a successful fetch.
pub proof fn lemma_error_code_nonzero(m: Seq<char>)
    ensures
        error_code_of(m) matches Some(c) ==> c != 0,
{
}

/// Maps an inner-machine error message to the database error code the host
/// understands, or `None` where the message is not recognized.
pub fn error_to_error_code(msg: &str) -> (r: Option<u32>)
    ensures
        r == error_code_of(msg@),
{
    if str_contains(msg, "database closed") {
        Some(ERR_CLOSED)
    } else if str_contains(msg, "not found") {
        Some(ERR_NOT_FOUND)
    } else {
        None
    }
}

} // verus!
