//! The sort mode requested from the listing endpoint.

use vstd::prelude::*;

verus! {

/// Ordering requested from the listing endpoint for one subreddit.
#[derive(Debug, Clone, Copy, PartialEq, Eq, Structural)]
pub enum Sort {
    Hot,
    New,
    Rising,
    Controversial,
    Top,
}

/// The lowercase keyword of a sort mode, as it appears in the listing URL.
pub open spec fn sort_name(s: Sort) -> Seq<char> {
    match s {
        Sort::Hot => "hot"@,
        Sort::New => "new"@,
        Sort::Rising => "rising"@,
        Sort::Controversial => "controversial"@,
        Sort::Top => "top"@,
    }
}

/// A character equals a lowercase ASCII letter, ignoring ASCII case.
pub open spec fn char_matches_lower(c: char, l: char) -> bool {
    c == l || ('A' <= c && c <= 'Z' && c as u32 == l as u32 - 32)
}

/// A string equals a lowercase ASCII keyword, ignoring ASCII case.
pub open spec fn eq_ignore_ascii_case(s: Seq<char>, kw: Seq<char>) -> bool {
    s.len() == kw.len() && forall|i: int| 0 <= i < s.len() ==> char_matches_lower(s[i], #[trigger] kw[i])
}

/// The sort mode a configuration keyword denotes: matched ignoring ASCII
/// case, and anything unrecognized falls back to `hot`.
pub open spec fn sort_of_name(s: Seq<char>) -> Sort {
    if eq_ignore_ascii_case(s, "new"@) {
        Sort::New
    } else if eq_ignore_ascii_case(s, "rising"@) {
        Sort::Rising
    } else if eq_ignore_ascii_case(s, "controversial"@) {
        Sort::Controversial
    } else if eq_ignore_ascii_case(s, "top"@) {
        Sort::Top
    } else {
        Sort::Hot
    }
}

/// Does `s` equal the lowercase keyword `kw`, ignoring ASCII case?
fn matches_keyword(s: &str, kw: &str) -> (r: bool)
    ensures
        r == eq_ignore_ascii_case(s@, kw@),
{
    let n = s.unicode_len();
    let m = kw.unicode_len();
    if n != m {
        return false;
    }
    let mut i: usize = 0;
    while i < n
        invariant
            0 <= i <= n,
            n == s@.len(),
            n == kw@.len(),
            forall|j: int| 0 <= j < i ==> char_matches_lower(s@[j], #[trigger] kw@[j]),
        decreases n - i,
    {
        let c = s.get_char(i);
        let l = kw.get_char(i);
        let upper = 'A' <= c && c <= 'Z' && c as u32 + 32 == l as u32;
        if !(c == l || upper) {
            return false;
        }
        i = i + 1;
    }
    true
}

impl Sort {
    /// Parse a configuration keyword, ignoring ASCII case; unrecognized or
    /// empty values mean `hot`.
    pub fn from_name(s: &str) -> (r: Sort)
        ensures
            r == sort_of_name(s@),
    {
        if matches_keyword(s, "new") {
            Sort::New
        } else if matches_keyword(s, "rising") {
            Sort::Rising
        } else if matches_keyword(s, "controversial") {
            Sort::Controversial
        } else if matches_keyword(s, "top") {
            Sort::Top
        } else {
            Sort::Hot
        }
    }

    /// The keyword used in the listing URL for this sort mode.
    pub fn name(&self) -> (r: String)
        ensures
            r@ == sort_name(*self),
    {
        match self {
            Sort::Hot => String::from_str("hot"),
            Sort::New => String::from_str("new"),
            Sort::Rising => String::from_str("rising"),
            Sort::Controversial => String::from_str("controversial"),
            Sort::Top => String::from_str("top"),
        }
    }
}

} // verus!
