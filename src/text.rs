//! Small verified helpers on text.

use vstd::prelude::*;

verus! {

/// Whether `p` is a prefix of `s`.
pub open spec fn is_prefix(p: Seq<char>, s: Seq<char>) -> bool {
    p.len() <= s.len() && s.subrange(0, p.len() as int) == p
}

/// Tests whether `s` begins with `p`.
pub fn starts_with(s: &str, p: &str) -> (r: bool)
    ensures
        r == is_prefix(p@, s@),
{
    let n = s.unicode_len();
    let m = p.unicode_len();
    if m > n {
        return false;
    }
    let mut i: usize = 0;
    while i < m
        invariant
            m == p@.len(),
            n == s@.len(),
            m <= n,
            i <= m,
            forall|j: int| 0 <= j < i ==> s@[j] == p@[j],
        decreases m - i,
    {
        if s.get_char(i) != p.get_char(i) {
            assert(s@.subrange(0, m as int)[i as int] != p@[i as int]);
            return false;
        }
        i = i + 1;
    }
    assert(s@.subrange(0, m as int) =~= p@);
    true
}

/// Tests whether two texts hold the same characters.
pub fn same_text(a: &str, b: &str) -> (r: bool)
    ensures
        r == (a@ == b@),
{
    if a.unicode_len() != b.unicode_len() {
        return false;
    }
    let r = starts_with(a, b);
    assert(a@.subrange(0, a@.len() as int) =~= a@);
    r
}

/// Whether `c` is `p`, or the upper-case form of the ASCII lower-case letter `p`.
pub open spec fn same_ignoring_ascii_case(c: char, p: char) -> bool {
    c == p || ('a' <= p && p <= 'z' && c as u32 + 32 == p as u32)
}

/// Whether `s` begins with `p`, where an ASCII upper-case letter of `s`
/// matches the lower-case one in `p`.
pub open spec fn is_prefix_ignoring_ascii_case(p: Seq<char>, s: Seq<char>) -> bool {
    p.len() <= s.len() && forall|i: int| 0 <= i < p.len() ==> same_ignoring_ascii_case(s[i], #[trigger] p[i])
}

/// Tests whether `s` begins with `p`, ignoring ASCII case in `s`.
pub fn starts_with_ignoring_ascii_case(s: &str, p: &str) -> (r: bool)
    ensures
        r == is_prefix_ignoring_ascii_case(p@, s@),
{
    let n = s.unicode_len();
    let m = p.unicode_len();
    if m > n {
        return false;
    }
    let mut i: usize = 0;
    while i < m
        invariant
            m == p@.len(),
            n == s@.len(),
            m <= n,
            i <= m,
            forall|j: int| 0 <= j < i ==> same_ignoring_ascii_case(s@[j], #[trigger] p@[j]),
        decreases m - i,
    {
        let c = s.get_char(i);
        let q = p.get_char(i);
        let lower_letter = 'a' <= q && q <= 'z';
        if !(c == q || (lower_letter && (c as u32) + 32 == q as u32)) {
            return false;
        }
        i = i + 1;
    }
    true
}

} // verus!
