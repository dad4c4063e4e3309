pub mod cli;
pub mod marker;
pub mod patch;
pub mod paths;

use vstd::prelude::*;

verus! {

/// True when `needle` occurs in `haystack` starting at index `i`.
pub open spec fn match_at(haystack: Seq<u8>, needle: Seq<u8>, i: int) -> bool {
    haystack.subrange(i, i + needle.len()) == needle
}

/// Compare the window of `haystack` that starts at `i` with `needle`.
fn window_matches(haystack: &[u8], needle: &[u8], i: usize) -> (r: bool)
    requires
        i + needle@.len() <= haystack@.len(),
    ensures
        r <==> match_at(haystack@, needle@, i as int),
{
    let nlen = needle.len();
    let hlen = haystack.len();
    let mut k: usize = 0;
    while k < nlen
        invariant
            nlen == needle@.len(),
            hlen == haystack@.len(),
            i + needle@.len() <= haystack@.len(),
            k <= needle@.len(),
            forall|m: int| 0 <= m < k ==> haystack@[i + m] == needle@[m],
        decreases needle@.len() - k,
    {
        if haystack[i + k] != needle[k] {
            proof {
                assert(haystack@.subrange(i as int, i + needle@.len())[k as int]
                    != needle@[k as int]);
            }
            return false;
        }
        k = k + 1;
    }
    proof {
        assert(haystack@.subrange(i as int, i + needle@.len()) =~= needle@);
    }
    true
}

/// Scan `haystack` left to right and return the index of the first window
/// that matches `needle` exactly, or `None` when no window does.
pub fn find_sequence(haystack: &[u8], needle: &[u8]) -> (r: Option<usize>)
    requires
        needle@.len() >= 1,
    ensures
        match r {
            Some(i) => {
                &&& i + needle@.len() <= haystack@.len()
                &&& match_at(haystack@, needle@, i as int)
                &&& forall|j: int| 0 <= j < i ==> !match_at(haystack@, needle@, j)
            },
            None => forall|j: int|
                0 <= j && j + needle@.len() <= haystack@.len() ==> !match_at(
                    haystack@,
                    needle@,
                    j,
                ),
        },
{
    let nlen = needle.len();
    let hlen = haystack.len();
    if nlen > hlen {
        return None;
    }
    let end = hlen - nlen;
    let mut i: usize = 0;
    while i <= end
        invariant
            nlen == needle@.len(),
            hlen == haystack@.len(),
            needle@.len() >= 1,
            nlen >= 1,
            end == hlen - nlen,
            i <= end + 1,
            forall|j: int| 0 <= j < i ==> !match_at(haystack@, needle@, j),
        decreases end + 1 - i,
    {
        if window_matches(haystack, needle, i) {
            return Some(i);
        }
        i = i + 1;
    }
    None
}

} // verus!
