//! Character-level string helpers: equality, prefix/suffix tests, substring
//! search and last-occurrence scans, each specified over `Seq<char>` views.

use vstd::prelude::*;
use vstd::string::StrSliceExecFns;

verus! {

/// Relies on String::push: appends the given character to the end of the string.
#[verifier::external_body]
pub fn push_char(s: &mut String, c: char)
    ensures
        final(s)@ == old(s)@ + seq![c],
{
    s.push(c)
}

/// Compare two string slices character by character.
pub fn str_eq(a: &str, b: &str) -> (r: bool)
    ensures
        r == (a@ == b@),
{
    let a_len = a.unicode_len();
    let b_len = b.unicode_len();
    if a_len != b_len {
        return false;
    }
    let mut i: usize = 0;
    while i < a_len
        invariant
            a_len == a@.len(),
            a_len == b@.len(),
            i <= a_len,
            forall|j: int| 0 <= j < i ==> a@[j] == b@[j],
        decreases a_len - i,
    {
        if a.get_char(i) != b.get_char(i) {
            return false;
        }
        i = i + 1;
    }
    proof {
        assert(a@ =~= b@);
    }
    true
}

/// `p` is a prefix of `s`.
pub open spec fn spec_starts_with(s: Seq<char>, p: Seq<char>) -> bool {
    s.len() >= p.len() && s.subrange(0, p.len() as int) == p
}

/// `p` is a suffix of `s`.
pub open spec fn spec_ends_with(s: Seq<char>, p: Seq<char>) -> bool {
    s.len() >= p.len() && s.subrange(s.len() - p.len(), s.len() as int) == p
}

/// Test whether `s` begins with the prefix `p`.
pub fn str_starts_with(s: &str, p: &str) -> (r: bool)
    ensures
        r == spec_starts_with(s@, p@),
{
    let s_len = s.unicode_len();
    let p_len = p.unicode_len();
    if s_len < p_len {
        return false;
    }
    let mut i: usize = 0;
    while i < p_len
        invariant
            s_len == s@.len(),
            p_len == p@.len(),
            p_len <= s_len,
            i <= p_len,
            forall|j: int| 0 <= j < i ==> s@[j] == p@[j],
        decreases p_len - i,
    {
        if s.get_char(i) != p.get_char(i) {
            proof {
                assert(s@.subrange(0, p@.len() as int)[i as int] == s@[i as int]);
            }
            return false;
        }
        i = i + 1;
    }
    proof {
        assert(s@.subrange(0, p@.len() as int) =~= p@);
    }
    true
}

/// Test whether `s` ends with the suffix `p`.
pub fn str_ends_with(s: &str, p: &str) -> (r: bool)
    ensures
        r == spec_ends_with(s@, p@),
{
    let s_len = s.unicode_len();
    let p_len = p.unicode_len();
    if s_len < p_len {
        return false;
    }
    let off = s_len - p_len;
    let mut i: usize = 0;
    while i < p_len
        invariant
            s_len == s@.len(),
            p_len == p@.len(),
            off == s_len - p_len,
            i <= p_len,
            forall|j: int| 0 <= j < i ==> s@[off + j] == p@[j],
        decreases p_len - i,
    {
        if s.get_char(off + i) != p.get_char(i) {
            proof {
                assert(s@.subrange(s@.len() - p@.len(), s@.len() as int)[i as int] == s@[off
                    + i]);
            }
            return false;
        }
        i = i + 1;
    }
    proof {
        assert(s@.subrange(s@.len() - p@.len(), s@.len() as int) =~= p@);
    }
    true
}

/// The needle occurs in the haystack starting at offset `i`.
pub open spec fn spec_matches_at(hay: Seq<char>, needle: Seq<char>, i: int) -> bool {
    0 <= i && i + needle.len() <= hay.len() && hay.subrange(i, i + needle.len()) == needle
}

/// The needle occurs somewhere in the haystack.
pub open spec fn spec_contains(hay: Seq<char>, needle: Seq<char>) -> bool {
    exists|i: int| spec_matches_at(hay, needle, i)
}

/// Test whether `needle` occurs at offset `at` of `hay`.
fn matches_at(hay: &str, needle: &str, at: usize) -> (r: bool)
    requires
        at + needle@.len() <= hay@.len(),
    ensures
        r == spec_matches_at(hay@, needle@, at as int),
{
    let h_len = hay.unicode_len();
    let n_len = needle.unicode_len();
    let mut i: usize = 0;
    while i < n_len
        invariant
            h_len == hay@.len(),
            n_len == needle@.len(),
            at + n_len <= h_len,
            i <= n_len,
            forall|j: int| 0 <= j < i ==> hay@[at + j] == needle@[j],
        decreases n_len - i,
    {
        if hay.get_char(at + i) != needle.get_char(i) {
            proof {
                assert(hay@.subrange(at as int, at + needle@.len())[i as int] == hay@[at + i]);
            }
            return false;
        }
        i = i + 1;
    }
    proof {
        assert(hay@.subrange(at as int, at + needle@.len()) =~= needle@);
    }
    true
}

/// Substring search: does `needle` occur anywhere in `hay`?
pub fn str_contains(hay: &str, needle: &str) -> (r: bool)
    ensures
        r == spec_contains(hay@, needle@),
{
    let h_len = hay.unicode_len();
    let n_len = needle.unicode_len();
    if n_len > h_len {
        proof {
            assert(forall|i: int| !spec_matches_at(hay@, needle@, i));
        }
        return false;
    }
    if n_len == 0 {
        proof {
            assert(hay@.subrange(0, 0) =~= needle@);
            assert(spec_matches_at(hay@, needle@, 0));
        }
        return true;
    }
    let mut at: usize = 0;
    while at <= h_len - n_len
        invariant
            h_len == hay@.len(),
            n_len == needle@.len(),
            0 < n_len <= h_len,
            at <= h_len - n_len + 1,
            forall|i: int| 0 <= i < at ==> !spec_matches_at(hay@, needle@, i),
        decreases h_len - n_len - at + 1,
    {
        if matches_at(hay, needle, at) {
            return true;
        }
        at = at + 1;
    }
    proof {
        assert(forall|i: int| !spec_matches_at(hay@, needle@, i));
    }
    false
}

/// The position just after the last occurrence of `c` in `s`, or 0 when `c`
/// does not occur: every character from that position on differs from `c`.
pub open spec fn spec_after_last(s: Seq<char>, c: char) -> int {
    if exists|i: int| 0 <= i < s.len() && s[i] == c {
        (choose|i: int|
            0 <= i < s.len() && s[i] == c && forall|j: int| i < j < s.len() ==> s[j] != c) + 1
    } else {
        0
    }
}

proof fn lemma_after_last_exists(s: Seq<char>, c: char)
    requires
        exists|i: int| 0 <= i < s.len() && s[i] == c,
    ensures
        exists|i: int|
            0 <= i < s.len() && s[i] == c && forall|j: int| i < j < s.len() ==> s[j] != c,
    decreases s.len(),
{
    let w = choose|i: int| 0 <= i < s.len() && s[i] == c;
    if s[s.len() - 1] == c {
        let i = s.len() - 1;
        assert(0 <= i < s.len() && s[i] == c && forall|j: int| i < j < s.len() ==> s[j] != c);
    } else {
        let fore = s.subrange(0, s.len() - 1);
        assert(0 <= w < fore.len() && fore[w] == c);
        lemma_after_last_exists(fore, c);
        let i = choose|i: int|
            0 <= i < fore.len() && fore[i] == c && forall|j: int| i < j < fore.len() ==> fore[j]
                != c;
        assert(forall|j: int| i < j < s.len() - 1 ==> s[j] == fore[j]);
        assert(0 <= i < s.len() && s[i] == c && forall|j: int| i < j < s.len() ==> s[j] != c);
    }
}

/// Characterization of `spec_after_last`: the result `p` is the unique cut
/// such that `c` does not occur at or after `p`, and `p` is either 0 or
/// sits just past an occurrence of `c`.
pub proof fn lemma_after_last(s: Seq<char>, c: char)
    ensures
        0 <= spec_after_last(s, c) <= s.len(),
        forall|j: int| spec_after_last(s, c) <= j < s.len() ==> s[j] != c,
        spec_after_last(s, c) > 0 ==> s[spec_after_last(s, c) - 1] == c,
{
    if exists|i: int| 0 <= i < s.len() && s[i] == c {
        lemma_after_last_exists(s, c);
    }
}

/// Scan for the last occurrence of `c`, returning the position just after
/// it (0 when `c` never occurs).
pub fn after_last_char(s: &str, c: char) -> (r: usize)
    ensures
        r as int == spec_after_last(s@, c),
{
    let s_len = s.unicode_len();
    let mut r: usize = 0;
    let mut i: usize = 0;
    while i < s_len
        invariant
            s_len == s@.len(),
            i <= s_len,
            0 <= r <= i,
            forall|j: int| r <= j < i ==> s@[j] != c,
            r > 0 ==> s@[r - 1] == c,
        decreases s_len - i,
    {
        if s.get_char(i) == c {
            r = i + 1;
        }
        i = i + 1;
    }
    proof {
        lemma_after_last(s@, c);
        let p = spec_after_last(s@, c);
        if r < p {
            assert(s@[p - 1] == c);
        }
        if p < r {
            assert(s@[r - 1] == c);
        }
    }
    r
}

} // verus!
