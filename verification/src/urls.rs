//! Listing URLs, post links, and the filename a source URL implies.

use vstd::prelude::*;
use vstd::string::StringExecFns;
use crate::sort::{Sort, sort_name};

verus! {

/// The listing endpoint for one subreddit and sort mode; one large page is
/// requested in a single shot.
pub open spec fn listing_url_view(subreddit: Seq<char>, sort: Sort) -> Seq<char> {
    "https://reddit.com/r/"@ + subreddit + "/"@ + sort_name(sort) + ".json?limit=100"@
}

/// Build the listing URL for one subreddit and sort mode.
pub fn listing_url(subreddit: &str, sort: Sort) -> (r: String)
    ensures
        r@ == listing_url_view(subreddit@, sort),
{
    let mut s = String::from_str("https://reddit.com/r/");
    s.append(subreddit);
    s.append("/");
    let name = sort.name();
    s.append(name.as_str());
    s.append(".json?limit=100");
    s
}

/// The canonical link of a post, from its permalink.
pub open spec fn post_link_view(permalink: Seq<char>) -> Seq<char> {
    "https://reddit.com"@ + permalink
}

/// Build the canonical link of a post from its permalink.
pub fn post_link(permalink: &str) -> (r: String)
    ensures
        r@ == post_link_view(permalink@),
{
    let mut s = String::from_str("https://reddit.com");
    s.append(permalink);
    s
}

/// What follows the last `/` of a string; the whole string when it holds
/// no `/`, and empty when it ends in `/`.
pub open spec fn last_segment(s: Seq<char>) -> Seq<char>
    decreases s.len(),
{
    if s.len() == 0 {
        s
    } else if s.last() == '/' {
        Seq::empty()
    } else {
        last_segment(s.drop_last()).push(s.last())
    }
}

/// The tail of `s` from an index `k` that is just past the last `/` is
/// exactly its last segment.
proof fn lemma_last_segment_is_tail(s: Seq<char>, k: int)
    requires
        0 <= k <= s.len(),
        forall|j: int| k <= j < s.len() ==> s[j] != '/',
        k > 0 ==> s[k - 1] == '/',
    ensures
        last_segment(s) == s.subrange(k, s.len() as int),
    decreases s.len(),
{
    if s.len() == k {
        if k == 0 {
            assert(s.subrange(0, 0) =~= s);
        } else {
            assert(s.last() == '/');
            assert(s.subrange(k, s.len() as int) =~= Seq::<char>::empty());
        }
    } else {
        assert(s.last() != '/');
        lemma_last_segment_is_tail(s.drop_last(), k);
        assert(s.subrange(k, s.len() as int) =~= s.drop_last().subrange(
            k,
            s.len() as int - 1,
        ).push(s.last()));
    }
}

/// The filename a post is saved under: the last `/`-separated segment of
/// its source URL, kept as-is, query string and all.
pub fn filename_from_url(url: &str) -> (r: String)
    ensures
        r@ == last_segment(url@),
{
    let n = url.unicode_len();
    let mut cut: usize = 0;
    let mut i: usize = 0;
    while i < n
        invariant
            0 <= cut <= i <= n,
            n == url@.len(),
            forall|j: int| cut <= j < i ==> url@[j] != '/',
            cut > 0 ==> url@[cut - 1] == '/',
        decreases n - i,
    {
        if url.get_char(i) == '/' {
            cut = i + 1;
        }
        i = i + 1;
    }
    proof {
        lemma_last_segment_is_tail(url@, cut as int);
    }
    let tail = url.substring_char(cut, n);
    String::from_str(tail)
}

} // verus!
