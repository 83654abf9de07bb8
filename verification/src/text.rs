//! Small text helpers: exact comparison, ASCII case folding, and the
//! suffix test used to classify user-supplied input names.

use vstd::prelude::*;

verus! {

/// ASCII lower-casing of one character; anything outside 'A'..='Z' is kept.
pub open spec fn spec_ascii_lower(c: char) -> char {
    if 'A' <= c && c <= 'Z' {
        (((c as u32) + 32) as u8) as char
    } else {
        c
    }
}

/// ASCII lower-casing of a character sequence.
pub open spec fn spec_lower(s: Seq<char>) -> Seq<char> {
    Seq::new(s.len(), |i: int| spec_ascii_lower(s[i]))
}

/// Lower-cases one ASCII letter.
pub fn ascii_lower(c: char) -> (r: char)
    ensures
        r == spec_ascii_lower(c),
{
    if 'A' <= c && c <= 'Z' {
        let b: u8 = (c as u32) as u8;
        (b + 32) as char
    } else {
        c
    }
}

/// Exact equality of two strings, character by character.
pub fn str_eq(a: &str, b: &str) -> (r: bool)
    ensures
        r == (a@ == b@),
{
    let a_len = a.unicode_len();
    let b_len = b.unicode_len();
    if a_len != b_len {
        return false;
    }
    let mut i: usize = 0;
    while i < a_len
        invariant
            0 <= i <= a_len,
            a_len == a@.len(),
            a_len == b@.len(),
            forall|j: int| 0 <= j < i ==> a@[j] == b@[j],
        decreases a_len - i,
    {
        if a.get_char(i) != b.get_char(i) {
            return false;
        }
        i = i + 1;
    }
    proof {
        assert(a@ =~= b@);
    }
    true
}

/// Whether `s`, lower-cased, equals the (already lower-case) token `t`.
pub fn eq_lower(s: &str, t: &str) -> (r: bool)
    ensures
        r == (spec_lower(s@) == t@),
{
    let s_len = s.unicode_len();
    let t_len = t.unicode_len();
    if s_len != t_len {
        assert(spec_lower(s@).len() != t@.len());
        return false;
    }
    let mut i: usize = 0;
    while i < s_len
        invariant
            0 <= i <= s_len,
            s_len == s@.len(),
            s_len == t@.len(),
            forall|j: int| 0 <= j < i ==> spec_lower(s@)[j] == t@[j],
        decreases s_len - i,
    {
        if ascii_lower(s.get_char(i)) != t.get_char(i) {
            return false;
        }
        i = i + 1;
    }
    proof {
        assert(spec_lower(s@) =~= t@);
    }
    true
}

/// Whether `s`, lower-cased, ends with the (already lower-case) `suffix`.
pub open spec fn spec_ends_with_lower(s: Seq<char>, suffix: Seq<char>) -> bool {
    s.len() >= suffix.len() && spec_lower(s).subrange(
        s.len() - suffix.len(),
        s.len() as int,
    ) == suffix
}

/// Tests whether `s`, lower-cased, ends with the lower-case `suffix`.
pub fn ends_with_lower(s: &str, suffix: &str) -> (r: bool)
    ensures
        r == spec_ends_with_lower(s@, suffix@),
{
    let s_len = s.unicode_len();
    let n = suffix.unicode_len();
    if s_len < n {
        return false;
    }
    let base = s_len - n;
    let mut i: usize = 0;
    while i < n
        invariant
            0 <= i <= n,
            s_len == s@.len(),
            n == suffix@.len(),
            base == s_len - n,
            forall|j: int| 0 <= j < i ==> spec_lower(s@)[base + j] == suffix@[j],
        decreases n - i,
    {
        if ascii_lower(s.get_char(base + i)) != suffix.get_char(i) {
            assert(spec_lower(s@).subrange(s@.len() - suffix@.len(), s@.len() as int)[i as int]
                != suffix@[i as int]);
            return false;
        }
        i = i + 1;
    }
    proof {
        assert(spec_lower(s@).subrange(s@.len() - suffix@.len(), s@.len() as int) =~= suffix@);
    }
    true
}

} // verus!
