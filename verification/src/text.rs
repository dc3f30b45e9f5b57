//! Verified text helpers: ASCII case folding, substring search and
//! case-insensitive comparison over character sequences.
//!
//! Error classification and action-name parsing match keywords without
//! regard to ASCII case; these helpers state that matching exactly over
//! the character view of the inspected string.

use vstd::prelude::*;

verus! {

/// ASCII-lowercased counterpart of one character; characters outside
/// `'A'..='Z'` are unchanged.
pub open spec fn spec_lower_char(c: char) -> char {
    if 'A' <= c && c <= 'Z' {
        ((c as u8) + 32) as char
    } else {
        c
    }
}

/// A character sequence, ASCII-lowercased element by element.
pub open spec fn spec_lower(s: Seq<char>) -> Seq<char> {
    s.map_values(|c: char| spec_lower_char(c))
}

/// `w` occurs in `s` starting at index `i`.
pub open spec fn spec_matches_at(s: Seq<char>, w: Seq<char>, i: int) -> bool {
    0 <= i && i + w.len() <= s.len() && s.subrange(i, i + w.len()) == w
}

/// `w` occurs somewhere in `s`.
pub open spec fn spec_contains_seq(s: Seq<char>, w: Seq<char>) -> bool {
    exists|i: int| spec_matches_at(s, w, i)
}

/// A character the trimming of user input removes.
pub open spec fn spec_is_space(c: char) -> bool {
    c == ' ' || c == '\t' || c == '\n' || c == '\r'
}

/// `s` with its leading whitespace removed.
pub open spec fn spec_trim_front(s: Seq<char>) -> Seq<char>
    decreases s.len(),
{
    if s.len() > 0 && spec_is_space(s.first()) {
        spec_trim_front(s.drop_first())
    } else {
        s
    }
}

/// `s` with its trailing whitespace removed.
pub open spec fn spec_trim_back(s: Seq<char>) -> Seq<char>
    decreases s.len(),
{
    if s.len() > 0 && spec_is_space(s.last()) {
        spec_trim_back(s.drop_last())
    } else {
        s
    }
}

/// `s` with leading and trailing whitespace removed.
pub open spec fn spec_trim(s: Seq<char>) -> Seq<char> {
    spec_trim_back(spec_trim_front(s))
}

/// Whether one character is trimmed as whitespace.
pub fn is_space(c: char) -> (r: bool)
    ensures
        r == spec_is_space(c),
{
    c == ' ' || c == '\t' || c == '\n' || c == '\r'
}

/// Lowercase one character in the ASCII range.
pub fn lower_char(c: char) -> (r: char)
    ensures
        r == spec_lower_char(c),
{
    if 'A' <= c && c <= 'Z' {
        ((c as u8) + 32) as char
    } else {
        c
    }
}

/// Collect the characters of a string slice into a vector.
pub fn chars_of(s: &str) -> (r: Vec<char>)
    ensures
        r@ == s@,
{
    let n = s.unicode_len();
    let mut r: Vec<char> = Vec::new();
    let mut i: usize = 0;
    while i < n
        invariant
            i <= n,
            n == s@.len(),
            r@ == s@.subrange(0, i as int),
        decreases n - i,
    {
        r.push(s.get_char(i));
        proof {
            assert(s@.subrange(0, i + 1 as int)
                =~= s@.subrange(0, i as int).push(s@[i as int]));
        }
        i = i + 1;
    }
    proof {
        assert(s@.subrange(0, n as int) =~= s@);
    }
    r
}

/// True when lowercasing `haystack` makes `word` occur in it somewhere.
/// `word` is compared as written, so a lowercase `word` gives a
/// case-insensitive search.
pub fn contains_ci(haystack: &str, word: &str) -> (r: bool)
    ensures
        r == spec_contains_seq(spec_lower(haystack@), word@),
{
    let h = chars_of(haystack);
    let w = chars_of(word);
    let hn = h.len();
    let wn = w.len();
    if wn > hn {
        proof {
            assert(forall|i: int| !spec_matches_at(spec_lower(haystack@), word@, i));
        }
        return false;
    }
    let mut i: usize = 0;
    while i <= hn - wn
        invariant
            h@ == haystack@,
            w@ == word@,
            hn == h@.len(),
            wn == w@.len(),
            wn <= hn,
            i <= hn - wn + 1,
            forall|k: int| 0 <= k < i ==> !spec_matches_at(spec_lower(haystack@), word@, k),
        decreases hn + 1 - i,
    {
        let mut j: usize = 0;
        let mut hit = true;
        while j < wn
            invariant
                h@ == haystack@,
                w@ == word@,
                hn == h@.len(),
                wn == w@.len(),
                i + wn <= hn,
                j <= wn,
                hit == (forall|m: int|
                    0 <= m < j ==> spec_lower(haystack@)[i + m] == word@[m]),
            decreases wn - j,
        {
            if lower_char(h[i + j]) != w[j] {
                hit = false;
                j = wn;
            } else {
                proof {
                    assert(spec_lower(haystack@)[i + j] == word@[j as int]);
                }
                j = j + 1;
            }
        }
        if hit {
            proof {
                assert(spec_lower(haystack@).subrange(i as int, i + wn) =~= word@);
                assert(spec_matches_at(spec_lower(haystack@), word@, i as int));
            }
            return true;
        }
        i = i + 1;
    }
    proof {
        assert(forall|k: int| !spec_matches_at(spec_lower(haystack@), word@, k));
    }
    false
}

/// True when lowercasing `s` yields exactly `t`. With a lowercase `t`
/// this is a case-insensitive equality test.
pub fn eq_ci(s: &str, t: &str) -> (r: bool)
    ensures
        r == (spec_lower(s@) == t@),
{
    let sv = chars_of(s);
    let tv = chars_of(t);
    let n = sv.len();
    if n != tv.len() {
        proof {
            assert(spec_lower(s@).len() != t@.len());
        }
        return false;
    }
    let mut i: usize = 0;
    while i < n
        invariant
            sv@ == s@,
            tv@ == t@,
            n == s@.len() == t@.len(),
            i <= n,
            forall|k: int| 0 <= k < i ==> spec_lower(s@)[k] == t@[k],
        decreases n - i,
    {
        if lower_char(sv[i]) != tv[i] {
            proof {
                assert(spec_lower(s@)[i as int] != t@[i as int]);
            }
            return false;
        }
        i = i + 1;
    }
    proof {
        assert(spec_lower(s@) =~= t@);
    }
    true
}

} // verus!
