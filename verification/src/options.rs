//! The closed catalog of recognized command-line flags: each accepted
//! spelling maps to a tag, and every other spelling is invalid.

use vstd::prelude::*;
use vstd::string::StrSliceExecFns;

verus! {

/// A recognized flag, the tag behind one or more accepted spellings.
#[derive(Clone, Copy, Debug, PartialEq, Eq, Structural)]
pub enum Flag {
    CaseInsensitive,
    Recursive,
    Verbose,
    Help,
}

/// The total mapping from a token to the flag it spells, if any.
/// `None` means the token is not in the catalog.
pub open spec fn flag_of(s: Seq<char>) -> Option<Flag> {
    if s == "-c"@ || s == "--case-insensitive"@ {
        Some(Flag::CaseInsensitive)
    } else if s == "-r"@ || s == "--recursive"@ {
        Some(Flag::Recursive)
    } else if s == "-v"@ || s == "--verbose"@ {
        Some(Flag::Verbose)
    } else if s == "-h"@ || s == "--help"@ || s == "help"@ {
        Some(Flag::Help)
    } else {
        None
    }
}

/// Character-by-character string equality.
pub fn str_eq(a: &str, b: &str) -> (r: bool)
    ensures
        r == (a@ == b@),
{
    let alen = a.unicode_len();
    let blen = b.unicode_len();
    if alen != blen {
        proof {
            assert(a@ != b@) by {
                if a@ == b@ {
                    assert(a@.len() == b@.len());
                }
            }
        }
        return false;
    }
    let mut i: usize = 0;
    while i < alen
        invariant
            alen == a@.len(),
            blen == b@.len(),
            alen == blen,
            i <= alen,
            forall|k: int| 0 <= k < i ==> a@[k] == b@[k],
        decreases alen - i,
    {
        if a.get_char(i) != b.get_char(i) {
            proof {
                assert(a@ != b@) by {
                    if a@ == b@ {
                        assert(a@[i as int] == b@[i as int]);
                    }
                }
            }
            return false;
        }
        i = i + 1;
    }
    proof {
        assert(a@ =~= b@);
    }
    true
}

/// Looks a token up in the catalog.
pub fn parse_flag(s: &str) -> (r: Option<Flag>)
    ensures
        r == flag_of(s@),
{
    if str_eq(s, "-c") || str_eq(s, "--case-insensitive") {
        Some(Flag::CaseInsensitive)
    } else if str_eq(s, "-r") || str_eq(s, "--recursive") {
        Some(Flag::Recursive)
    } else if str_eq(s, "-v") || str_eq(s, "--verbose") {
        Some(Flag::Verbose)
    } else if str_eq(s, "-h") || str_eq(s, "--help") || str_eq(s, "help") {
        Some(Flag::Help)
    } else {
        None
    }
}

} // verus!
