//! Verified helpers for the string scanning this core leans on: equality,
//! substring search, first and last occurrences, and ASCII case folding.

use vstd::prelude::*;
use vstd::string::*;

verus! {

/// Whether `needle` occurs in `hay` starting at position `at`.
pub open spec fn spec_matches_at(hay: Seq<char>, needle: Seq<char>, at: int) -> bool {
    0 <= at && at + needle.len() <= hay.len() && hay.subrange(
        at,
        at + needle.len(),
    ) == needle
}

/// Whether `needle` occurs anywhere in `hay`.
pub open spec fn spec_contains(hay: Seq<char>, needle: Seq<char>) -> bool {
    exists|at: int| spec_matches_at(hay, needle, at)
}

/// The ASCII-lowercase code point of a character, as a number.
pub open spec fn spec_lower_code(c: char) -> int {
    if 'A' <= c && c <= 'Z' {
        c as int + 32
    } else {
        c as int
    }
}

/// Whether two character sequences are equal up to ASCII case.
pub open spec fn spec_eq_ignore_case(a: Seq<char>, b: Seq<char>) -> bool {
    a.len() == b.len() && forall|i: int|
        0 <= i < a.len() ==> spec_lower_code(a[i]) == spec_lower_code(b[i])
}

/// Character-wise string equality.
pub fn str_eq(a: &str, b: &str) -> (r: bool)
    ensures
        r == (a@ == b@),
{
    let a_len = a.unicode_len();
    let b_len = b.unicode_len();
    if a_len != b_len {
        assert(a@ != b@) by {
            assert(a@.len() != b@.len());
        }
        return false;
    }
    let mut i: usize = 0;
    while i < a_len
        invariant
            i <= a_len,
            a_len == a@.len(),
            b_len == b@.len(),
            a_len == b_len,
            forall|j: int| 0 <= j < i ==> a@[j] == b@[j],
        decreases a_len - i,
    {
        if a.get_char(i) != b.get_char(i) {
            return false;
        }
        i = i + 1;
    }
    proof {
        assert(a@ =~= b@);
    }
    true
}

/// String equality up to ASCII case.
pub fn str_eq_ignore_case(a: &str, b: &str) -> (r: bool)
    ensures
        r == spec_eq_ignore_case(a@, b@),
{
    let a_len = a.unicode_len();
    let b_len = b.unicode_len();
    if a_len != b_len {
        return false;
    }
    let mut i: usize = 0;
    while i < a_len
        invariant
            i <= a_len,
            a_len == a@.len(),
            b_len == b@.len(),
            a_len == b_len,
            forall|j: int| 0 <= j < i ==> spec_lower_code(a@[j]) == spec_lower_code(b@[j]),
        decreases a_len - i,
    {
        let ca = a.get_char(i);
        let cb = b.get_char(i);
        let la: u32 = if 'A' <= ca && ca <= 'Z' {
            ca as u32 + 32
        } else {
            ca as u32
        };
        let lb: u32 = if 'A' <= cb && cb <= 'Z' {
            cb as u32 + 32
        } else {
            cb as u32
        };
        if la != lb {
            return false;
        }
        i = i + 1;
    }
    true
}

/// Whether `needle` occurs in `hay` starting at character position `at`.
pub fn matches_at(hay: &str, needle: &str, at: usize) -> (r: bool)
    ensures
        r == spec_matches_at(hay@, needle@, at as int),
{
    let hay_len = hay.unicode_len();
    let needle_len = needle.unicode_len();
    if at > hay_len || needle_len > hay_len - at {
        return false;
    }
    let mut i: usize = 0;
    while i < needle_len
        invariant
            i <= needle_len,
            hay_len == hay@.len(),
            needle_len == needle@.len(),
            at + needle_len <= hay_len,
            forall|j: int| 0 <= j < i ==> hay@[at + j] == needle@[j],
        decreases needle_len - i,
    {
        if hay.get_char(at + i) != needle.get_char(i) {
            assert(hay@.subrange(at as int, at + needle@.len())[i as int] != needle@[i as int]);
            return false;
        }
        i = i + 1;
    }
    proof {
        assert(hay@.subrange(at as int, at + needle@.len()) =~= needle@);
    }
    true
}

/// Whether `needle` occurs anywhere in `hay`.
pub fn contains_substr(hay: &str, needle: &str) -> (r: bool)
    ensures
        r == spec_contains(hay@, needle@),
{
    let hay_len = hay.unicode_len();
    let needle_len = needle.unicode_len();
    if needle_len > hay_len {
        return false;
    }
    if needle_len == 0 {
        proof {
            assert(hay@.subrange(0, 0) =~= needle@);
            assert(spec_matches_at(hay@, needle@, 0));
        }
        return true;
    }
    let mut at: usize = 0;
    while at <= hay_len - needle_len
        invariant
            hay_len == hay@.len(),
            needle_len == needle@.len(),
            1 <= needle_len <= hay_len,
            at <= hay_len - needle_len + 1,
            forall|k: int| 0 <= k < at ==> !spec_matches_at(hay@, needle@, k),
        decreases hay_len - needle_len - at + 1,
    {
        if matches_at(hay, needle, at) {
            return true;
        }
        at = at + 1;
    }
    proof {
        assert forall|k: int| spec_matches_at(hay@, needle@, k) implies false by {
            assert(0 <= k <= hay@.len() - needle@.len());
        }
    }
    false
}

/// Whether `needle` occurs in `hay` at position `at`, comparing up to ASCII
/// case.
pub open spec fn spec_matches_at_ignore_case(hay: Seq<char>, needle: Seq<char>, at: int) -> bool {
    0 <= at && at + needle.len() <= hay.len() && forall|i: int|
        0 <= i < needle.len() ==> spec_lower_code(hay[at + i]) == spec_lower_code(needle[i])
}

/// Whether `needle` occurs anywhere in `hay`, comparing up to ASCII case.
pub open spec fn spec_contains_ignore_case(hay: Seq<char>, needle: Seq<char>) -> bool {
    exists|at: int| spec_matches_at_ignore_case(hay, needle, at)
}

/// Whether `needle` occurs in `hay` starting at character position `at`,
/// comparing up to ASCII case.
pub fn matches_at_ignore_case(hay: &str, needle: &str, at: usize) -> (r: bool)
    ensures
        r == spec_matches_at_ignore_case(hay@, needle@, at as int),
{
    let hay_len = hay.unicode_len();
    let needle_len = needle.unicode_len();
    if at > hay_len || needle_len > hay_len - at {
        return false;
    }
    let mut i: usize = 0;
    while i < needle_len
        invariant
            i <= needle_len,
            hay_len == hay@.len(),
            needle_len == needle@.len(),
            at + needle_len <= hay_len,
            forall|j: int|
                0 <= j < i ==> spec_lower_code(hay@[at + j]) == spec_lower_code(needle@[j]),
        decreases needle_len - i,
    {
        let ca = hay.get_char(at + i);
        let cb = needle.get_char(i);
        let la: u32 = if 'A' <= ca && ca <= 'Z' {
            ca as u32 + 32
        } else {
            ca as u32
        };
        let lb: u32 = if 'A' <= cb && cb <= 'Z' {
            cb as u32 + 32
        } else {
            cb as u32
        };
        if la != lb {
            return false;
        }
        i = i + 1;
    }
    true
}

/// Whether `needle` occurs anywhere in `hay`, comparing up to ASCII case.
pub fn contains_ignore_case(hay: &str, needle: &str) -> (r: bool)
    ensures
        r == spec_contains_ignore_case(hay@, needle@),
{
    let hay_len = hay.unicode_len();
    let needle_len = needle.unicode_len();
    if needle_len > hay_len {
        return false;
    }
    if needle_len == 0 {
        assert(spec_matches_at_ignore_case(hay@, needle@, 0));
        return true;
    }
    let mut at: usize = 0;
    while at <= hay_len - needle_len
        invariant
            hay_len == hay@.len(),
            needle_len == needle@.len(),
            1 <= needle_len <= hay_len,
            at <= hay_len - needle_len + 1,
            forall|k: int| 0 <= k < at ==> !spec_matches_at_ignore_case(hay@, needle@, k),
        decreases hay_len - needle_len - at + 1,
    {
        if matches_at_ignore_case(hay, needle, at) {
            return true;
        }
        at = at + 1;
    }
    proof {
        assert forall|k: int| spec_matches_at_ignore_case(hay@, needle@, k) implies false by {
            assert(0 <= k <= hay@.len() - needle@.len());
        }
    }
    false
}

/// Whether `needle` occurs in `hay` at or after position `from`.
pub open spec fn spec_contains_from(hay: Seq<char>, needle: Seq<char>, from: int) -> bool {
    exists|at: int| from <= at && spec_matches_at(hay, needle, at)
}

/// The position of the first occurrence of `needle` in `hay` at or after
/// `from`.
pub open spec fn spec_first_from(hay: Seq<char>, needle: Seq<char>, from: int) -> int {
    choose|at: int|
        from <= at && spec_matches_at(hay, needle, at) && (forall|k: int|
            from <= k < at ==> !spec_matches_at(hay, needle, k))
}

/// A position that matches, with no earlier match, is the first occurrence.
pub proof fn lemma_first_from_unique(hay: Seq<char>, needle: Seq<char>, from: int, at: int)
    requires
        from <= at,
        spec_matches_at(hay, needle, at),
        forall|k: int| from <= k < at ==> !spec_matches_at(hay, needle, k),
    ensures
        spec_contains_from(hay, needle, from),
        spec_first_from(hay, needle, from) == at,
{
    assert(from <= at && spec_matches_at(hay, needle, at) && (forall|k: int|
        from <= k < at ==> !spec_matches_at(hay, needle, k)));
    let w = spec_first_from(hay, needle, from);
    if w != at {
        if w < at {
            assert(!spec_matches_at(hay, needle, w));
        } else {
            assert(!spec_matches_at(hay, needle, at));
        }
    }
}

/// Whether a character occurs in a sequence.
pub open spec fn spec_has_char(s: Seq<char>, c: char) -> bool {
    exists|i: int| 0 <= i < s.len() && s[i] == c
}

/// The position of the last occurrence of a character.
pub open spec fn spec_last_index_of(s: Seq<char>, c: char) -> int {
    choose|i: int|
        0 <= i < s.len() && s[i] == c && (forall|j: int| i < j < s.len() ==> s[j] != c)
}

/// A position holding the character, with no later one, is the last
/// occurrence.
pub proof fn lemma_last_index_unique(s: Seq<char>, c: char, i: int)
    requires
        0 <= i < s.len(),
        s[i] == c,
        forall|j: int| i < j < s.len() ==> s[j] != c,
    ensures
        spec_has_char(s, c),
        spec_last_index_of(s, c) == i,
{
    assert(0 <= i < s.len() && s[i] == c && (forall|j: int| i < j < s.len() ==> s[j] != c));
    let w = spec_last_index_of(s, c);
    if w != i {
        if w < i {
            assert(s[i] != c);
        } else {
            assert(s[w] != c);
        }
    }
}

/// The position of the last occurrence of a character, if any.
pub fn find_last_char(s: &str, c: char) -> (r: Option<usize>)
    ensures
        match r {
            Some(i) => i < s@.len() && s@[i as int] == c && (forall|j: int|
                i < j < s@.len() ==> s@[j] != c),
            None => forall|j: int| 0 <= j < s@.len() ==> s@[j] != c,
        },
{
    let n = s.unicode_len();
    let mut last: Option<usize> = None;
    let mut i: usize = 0;
    while i < n
        invariant
            i <= n,
            n == s@.len(),
            match last {
                Some(k) => k < i && s@[k as int] == c && (forall|j: int|
                    k < j < i ==> s@[j] != c),
                None => forall|j: int| 0 <= j < i ==> s@[j] != c,
            },
        decreases n - i,
    {
        if s.get_char(i) == c {
            last = Some(i);
        }
        i = i + 1;
    }
    last
}

/// The position of the first occurrence of `needle` in `hay` at or after
/// `from`, if any.
pub fn find_from(hay: &str, needle: &str, from: usize) -> (r: Option<usize>)
    ensures
        match r {
            Some(at) => from <= at && spec_matches_at(hay@, needle@, at as int) && forall|k: int|
                from <= k < at ==> !spec_matches_at(hay@, needle@, k),
            None => forall|k: int| from <= k ==> !spec_matches_at(hay@, needle@, k),
        },
{
    let hay_len = hay.unicode_len();
    let needle_len = needle.unicode_len();
    if needle_len > hay_len || from > hay_len - needle_len {
        proof {
            assert forall|k: int| from <= k implies !spec_matches_at(hay@, needle@, k) by {
                if spec_matches_at(hay@, needle@, k) {
                    assert(k + needle@.len() <= hay@.len());
                }
            }
        }
        return None;
    }
    if needle_len == 0 {
        proof {
            assert(hay@.subrange(from as int, from as int) =~= needle@);
        }
        return Some(from);
    }
    let mut at: usize = from;
    while at <= hay_len - needle_len
        invariant
            hay_len == hay@.len(),
            needle_len == needle@.len(),
            1 <= needle_len <= hay_len,
            from <= at <= hay_len - needle_len + 1,
            forall|k: int| from <= k < at ==> !spec_matches_at(hay@, needle@, k),
        decreases hay_len - needle_len - at + 1,
    {
        if matches_at(hay, needle, at) {
            return Some(at);
        }
        at = at + 1;
    }
    proof {
        assert forall|k: int| from <= k implies !spec_matches_at(hay@, needle@, k) by {
            if spec_matches_at(hay@, needle@, k) {
                assert(k + needle@.len() <= hay@.len());
            }
        }
    }
    None
}

} // verus!
