use vstd::prelude::*;

verus! {

/// The suffix appended to a file stem when an output path is derived.
pub open spec fn modified_suffix() -> Seq<char> {
    seq!['_', 'm', 'o', 'd', 'i', 'f', 'i', 'e', 'd']
}

/// The index of the last occurrence of `c` in `s`, or `None` when `c` does
/// not occur.
pub open spec fn last_pos(s: Seq<char>, c: char) -> Option<int>
    decreases s.len(),
{
    if s.len() == 0 {
        None
    } else if s[s.len() - 1] == c {
        Some(s.len() - 1)
    } else {
        last_pos(s.drop_last(), c)
    }
}

/// `last_pos` returns the position of an occurrence with no occurrence after
/// it, and `None` exactly when there is no occurrence at all.
pub proof fn lemma_last_pos(s: Seq<char>, c: char)
    ensures
        match last_pos(s, c) {
            Some(i) => {
                &&& 0 <= i < s.len()
                &&& s[i] == c
                &&& forall|k: int| i < k < s.len() ==> s[k] != c
            },
            None => forall|k: int| 0 <= k < s.len() ==> s[k] != c,
        },
    decreases s.len(),
{
    if s.len() > 0 && s[s.len() - 1] != c {
        lemma_last_pos(s.drop_last(), c);
        assert(forall|k: int| 0 <= k < s.len() - 1 ==> s.drop_last()[k] == s[k]);
    }
}

/// Where the file name begins: just after the last path separator, or at the
/// start of the path when there is none.
pub open spec fn base_start(s: Seq<char>) -> int {
    match last_pos(s, '/') {
        Some(j) => j + 1,
        None => 0,
    }
}

/// The position of the dot that separates the file stem from its extension:
/// the last dot of the path, provided it lies inside the file name and not at
/// the file name's first character. `None` when the file name has no
/// extension.
pub open spec fn extension_dot(s: Seq<char>) -> Option<int> {
    match last_pos(s, '.') {
        Some(d) => if d > base_start(s) {
            Some(d)
        } else {
            None
        },
        None => None,
    }
}

/// The derived output path: the suffix is spliced in just before the
/// extension's dot when the file name has an extension, and appended at the
/// end when it has none.
pub open spec fn derived_output(s: Seq<char>) -> Seq<char> {
    match extension_dot(s) {
        Some(d) => s.take(d) + modified_suffix() + s.skip(d),
        None => s + modified_suffix(),
    }
}

/// Find the last occurrence of `c` in `s`, scanning backwards.
fn last_char_pos(s: &str, c: char) -> (r: Option<usize>)
    ensures
        match r {
            Some(i) => i < s@.len() && last_pos(s@, c) == Some(i as int),
            None => last_pos(s@, c) is None,
        },
{
    let n = s.unicode_len();
    let mut i: usize = n;
    while i > 0
        invariant
            n == s@.len(),
            i <= n,
            forall|k: int| i <= k < n ==> s@[k] != c,
        decreases i,
    {
        i = i - 1;
        let ch = s.get_char(i);
        if ch == c {
            proof {
                lemma_last_pos(s@, c);
            }
            return Some(i);
        }
    }
    proof {
        lemma_last_pos(s@, c);
    }
    None
}

/// Derive the output path for `input`: append the suffix to the file stem and
/// keep the extension, if any, in place.
pub fn derive_output_path(input: &str) -> (r: String)
    ensures
        r@ == derived_output(input@),
{
    let n = input.unicode_len();
    let slash = last_char_pos(input, '/');
    let dot = last_char_pos(input, '.');
    let base: usize = match slash {
        Some(j) => j + 1,
        None => 0,
    };
    let ext_at: Option<usize> = match dot {
        Some(d) => if d > base {
            Some(d)
        } else {
            None
        },
        None => None,
    };
    match ext_at {
        Some(d) => {
            let head = input.substring_char(0, d);
            let tail = input.substring_char(d, n);
            let mut out = String::from_str(head);
            out.append("_modified");
            out.append(tail);
            proof {
                reveal_strlit("_modified");
                assert("_modified"@ =~= modified_suffix());
                assert(out@ =~= derived_output(input@));
            }
            out
        },
        None => {
            let mut out = String::from_str(input);
            out.append("_modified");
            proof {
                reveal_strlit("_modified");
                assert("_modified"@ =~= modified_suffix());
                assert(out@ =~= derived_output(input@));
            }
            out
        },
    }
}

/// The effective output path: the explicit path when one is supplied,
/// otherwise the derived one.
pub fn resolve_output_path(input: &str, output: &Option<String>) -> (r: String)
    ensures
        match output {
            Some(p) => r@ == p@,
            None => r@ == derived_output(input@),
        },
{
    match output {
        Some(p) => p.clone(),
        None => derive_output_path(input),
    }
}

} // verus!
