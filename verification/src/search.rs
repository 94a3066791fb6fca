//! Literal substring search over file content, with optional ASCII-only
//! case folding. The whole content is one string; a query spanning line
//! terminators still matches if it appears contiguously.

use vstd::prelude::*;
use vstd::string::StrSliceExecFns;

verus! {

/// ASCII-only lowercasing of one character: `A`..`Z` shift to `a`..`z`,
/// every other character, ASCII or not, is left untouched.
pub open spec fn lower_char(c: char) -> char {
    if 'A' as u32 <= c as u32 && c as u32 <= 'Z' as u32 {
        ((c as u32 + 32) as u8) as char
    } else {
        c
    }
}

/// The character under the active comparison mode: itself when case
/// matters, its ASCII lowercase form when it does not.
pub open spec fn fold_char(case_sensitive: bool, c: char) -> char {
    if case_sensitive {
        c
    } else {
        lower_char(c)
    }
}

/// The query occurs in the content at offset `i`, under the given mode.
pub open spec fn occurs_at(query: Seq<char>, content: Seq<char>, case_sensitive: bool, i: int) -> bool {
    forall|k: int|
        0 <= k < query.len() ==> fold_char(case_sensitive, content[i + k]) == fold_char(
            case_sensitive,
            query[k],
        )
}

/// The query occurs somewhere in the content, under the given mode.
pub open spec fn contains_query_spec(query: Seq<char>, content: Seq<char>, case_sensitive: bool) -> bool {
    exists|i: int| 0 <= i && i + query.len() <= content.len() && occurs_at(query, content, case_sensitive, i)
}

/// Folds one character as `fold_char` describes.
fn norm_char(case_sensitive: bool, c: char) -> (r: char)
    ensures
        r == fold_char(case_sensitive, c),
{
    if case_sensitive {
        c
    } else {
        let u = c as u32;
        if 'A' as u32 <= u && u <= 'Z' as u32 {
            ((u + 32) as u8) as char
        } else {
            c
        }
    }
}

/// Whether the query matches the content at the one offset `i`.
fn occurs_here(query: &str, content: &str, case_sensitive: bool, i: usize) -> (r: bool)
    requires
        i + query@.len() <= content@.len(),
    ensures
        r == occurs_at(query@, content@, case_sensitive, i as int),
{
    let qlen = query.unicode_len();
    let tlen = content.unicode_len();
    let mut k: usize = 0;
    while k < qlen
        invariant
            qlen == query@.len(),
            tlen == content@.len(),
            i + qlen <= tlen,
            k <= qlen,
            forall|j: int|
                0 <= j < k ==> fold_char(case_sensitive, content@[i + j]) == fold_char(
                    case_sensitive,
                    query@[j],
                ),
        decreases qlen - k,
    {
        let cc = content.get_char(i + k);
        let qc = query.get_char(k);
        if norm_char(case_sensitive, cc) != norm_char(case_sensitive, qc) {
            return false;
        }
        k = k + 1;
    }
    true
}

/// Decides literal containment of the query in the content under the
/// given comparison mode.
pub fn contains_query(query: &str, content: &str, case_sensitive: bool) -> (r: bool)
    ensures
        r == contains_query_spec(query@, content@, case_sensitive),
{
    let qlen = query.unicode_len();
    let tlen = content.unicode_len();
    if qlen > tlen {
        return false;
    }
    let mut i: usize = 0;
    loop
        invariant
            qlen == query@.len(),
            tlen == content@.len(),
            qlen <= tlen,
            i <= tlen - qlen + 1,
            forall|j: int| 0 <= j < i ==> !occurs_at(query@, content@, case_sensitive, j),
        decreases tlen - qlen + 1 - i,
    {
        if i > tlen - qlen {
            return false;
        }
        if occurs_here(query, content, case_sensitive, i) {
            return true;
        }
        i = i + 1;
    }
}

/// Case-sensitive containment of the query in the given content.
pub fn search(query: &str, contents: &str) -> (r: bool)
    ensures
        r == contains_query_spec(query@, contents@, true),
{
    contains_query(query, contents, true)
}

/// ASCII-case-insensitive containment of the query in the given content.
pub fn search_case_insensitive(query: &str, contents: &str) -> (r: bool)
    ensures
        r == contains_query_spec(query@, contents@, false),
{
    contains_query(query, contents, false)
}

} // verus!
