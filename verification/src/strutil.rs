//! Small verified string helpers: equality, ASCII case folding, and
//! substring search over the character sequences of `str` values.

use vstd::prelude::*;
use vstd::string::StrSliceExecFns;

verus! {

/// ASCII case folding of one character: `A`–`Z` become `a`–`z`, everything
/// else is unchanged.
pub open spec fn lower_char(c: char) -> char {
    if 'A' <= c <= 'Z' {
        ((c as u8) + 32) as char
    } else {
        c
    }
}

/// ASCII case folding of a character sequence.
pub open spec fn lower(s: Seq<char>) -> Seq<char> {
    s.map_values(|c: char| lower_char(c))
}

/// `pat` occurs in `s` starting at position `i`.
pub open spec fn found_at(s: Seq<char>, pat: Seq<char>, i: int) -> bool {
    &&& 0 <= i
    &&& i + pat.len() <= s.len()
    &&& s.subrange(i, i + pat.len()) == pat
}

/// Position of the first occurrence of `pat` in `s` at or after `i`, or
/// `-1` when there is none.
pub open spec fn first_found(s: Seq<char>, pat: Seq<char>, i: int) -> int
    decreases s.len() + 1 - i,
{
    if i < 0 || i + pat.len() > s.len() {
        -1
    } else if found_at(s, pat, i) {
        i
    } else {
        first_found(s, pat, i + 1)
    }
}

proof fn lemma_first_found_hit(s: Seq<char>, pat: Seq<char>, i: int, k: int)
    requires
        0 <= i <= k,
        found_at(s, pat, k),
        forall|j: int| i <= j < k ==> !found_at(s, pat, j),
    ensures
        first_found(s, pat, i) == k,
    decreases k - i,
{
    if i < k {
        lemma_first_found_hit(s, pat, i + 1, k);
    }
}

proof fn lemma_first_found_miss(s: Seq<char>, pat: Seq<char>, i: int)
    requires
        0 <= i,
        forall|j: int| i <= j ==> !found_at(s, pat, j),
    ensures
        first_found(s, pat, i) == -1,
    decreases s.len() + 1 - i,
{
    if i + pat.len() <= s.len() {
        lemma_first_found_miss(s, pat, i + 1);
    }
}

/// A non-negative search result is a real occurrence.
pub proof fn lemma_first_found_is_hit(s: Seq<char>, pat: Seq<char>, i: int)
    requires
        0 <= i,
        first_found(s, pat, i) >= 0,
    ensures
        found_at(s, pat, first_found(s, pat, i)),
        first_found(s, pat, i) >= i,
    decreases s.len() + 1 - i,
{
    if i + pat.len() > s.len() {
    } else if found_at(s, pat, i) {
    } else {
        lemma_first_found_is_hit(s, pat, i + 1);
    }
}

/// ASCII case folding of one character, executable.
pub fn char_lower(c: char) -> (r: char)
    ensures
        r == lower_char(c),
{
    if 'A' <= c && c <= 'Z' {
        ((c as u8) + 32) as char
    } else {
        c
    }
}

/// Character-for-character equality of two string slices.
pub fn str_eq(a: &str, b: &str) -> (r: bool)
    ensures
        r == (a@ == b@),
{
    let n = a.unicode_len();
    if n != b.unicode_len() {
        return false;
    }
    for i in 0..n
        invariant
            n == a@.len() == b@.len(),
            forall|j: int| 0 <= j < i ==> a@[j] == b@[j],
    {
        if a.get_char(i) != b.get_char(i) {
            return false;
        }
    }
    proof {
        assert(a@ =~= b@);
    }
    true
}

/// Equality of two string slices after ASCII case folding of both.
pub fn str_eq_lower(a: &str, b: &str) -> (r: bool)
    ensures
        r == (lower(a@) == lower(b@)),
{
    proof {
        assert(lower(a@).len() == a@.len());
        assert(lower(b@).len() == b@.len());
    }
    let n = a.unicode_len();
    if n != b.unicode_len() {
        return false;
    }
    for i in 0..n
        invariant
            n == a@.len() == b@.len(),
            forall|j: int| 0 <= j < i ==> lower(a@)[j] == lower(b@)[j],
    {
        if char_lower(a.get_char(i)) != char_lower(b.get_char(i)) {
            proof {
                assert(lower(a@)[i as int] == lower_char(a@[i as int]));
                assert(lower(b@)[i as int] == lower_char(b@[i as int]));
            }
            return false;
        }
    }
    proof {
        assert(lower(a@) =~= lower(b@));
    }
    true
}

/// `pat` occurs in the case-folded `s` at position `i`, executable.
fn match_at(s: &str, pat: &str, i: usize) -> (r: bool)
    requires
        i + pat@.len() <= s@.len(),
        s@.len() <= usize::MAX,
    ensures
        r == found_at(lower(s@), pat@, i as int),
{
    let m = pat.unicode_len();
    for j in 0..m
        invariant
            m == pat@.len(),
            i + m <= s@.len() <= usize::MAX,
            forall|x: int| 0 <= x < j ==> lower(s@)[i + x] == pat@[x],
    {
        if char_lower(s.get_char(i + j)) != pat.get_char(j) {
            proof {
                let l = lower(s@);
                assert(l.subrange(i as int, i + m)[j as int] == l[i + j]);
            }
            return false;
        }
    }
    proof {
        assert(lower(s@).subrange(i as int, i + m as int) =~= pat@);
    }
    true
}

/// Position of the first occurrence of `pat` in the ASCII case folding of
/// `s`, or none.
pub fn find_in_lower(s: &str, pat: &str) -> (r: Option<usize>)
    ensures
        match r {
            Some(i) => first_found(lower(s@), pat@, 0) == i,
            None => first_found(lower(s@), pat@, 0) == -1,
        },
{
    let n = s.unicode_len();
    let m = pat.unicode_len();
    if m > n {
        proof {
            assert forall|j: int| 0 <= j implies !found_at(lower(s@), pat@, j) by {}
            lemma_first_found_miss(lower(s@), pat@, 0);
        }
        return None;
    }
    let last = n - m;
    let mut i: usize = 0;
    loop
        invariant_except_break
            n == s@.len() == lower(s@).len(),
            m == pat@.len(),
            m <= n,
            last == n - m,
            i <= last,
            forall|j: int| 0 <= j < i ==> !found_at(lower(s@), pat@, j),
        ensures
            forall|j: int| 0 <= j <= last ==> !found_at(lower(s@), pat@, j),
        decreases last - i,
    {
        if match_at(s, pat, i) {
            proof {
                lemma_first_found_hit(lower(s@), pat@, 0, i as int);
            }
            return Some(i);
        }
        if i == last {
            break ;
        }
        i += 1;
    }
    proof {
        assert forall|j: int| 0 <= j implies !found_at(lower(s@), pat@, j) by {
            if j > last {
                assert(j + pat@.len() > lower(s@).len());
            }
        }
        lemma_first_found_miss(lower(s@), pat@, 0);
    }
    None
}

} // verus!
