//! Byte-buffer scanning primitives: substring occurrence, first match,
//! and suffix tests, with exact specifications over `Seq<u8>`.

use vstd::prelude::*;

verus! {

/// `pat` occurs in `s` starting at index `i`.
pub open spec fn matches_at(s: Seq<u8>, pat: Seq<u8>, i: int) -> bool {
    0 <= i && i + pat.len() <= s.len() && s.subrange(i, i + pat.len()) == pat
}

/// `pat` occurs somewhere in `s`.
pub open spec fn contains_seq(s: Seq<u8>, pat: Seq<u8>) -> bool {
    exists|i: int| matches_at(s, pat, i)
}

/// Index of the first occurrence of `pat` in `s` at or after `from`,
/// or `None` when there is none.
pub open spec fn find_from(s: Seq<u8>, pat: Seq<u8>, from: int) -> Option<int>
    recommends
        0 <= from,
    decreases s.len() + pat.len() - from,
{
    if pat.len() == 0 {
        if 0 <= from && from <= s.len() {
            Some(from)
        } else {
            None
        }
    } else if from + pat.len() > s.len() {
        None
    } else if matches_at(s, pat, from) {
        Some(from)
    } else {
        find_from(s, pat, from + 1)
    }
}

/// What `find_from` returns: the first match at or after `from`, if any.
pub proof fn lemma_find_from_characterizes(s: Seq<u8>, pat: Seq<u8>, from: int)
    requires
        0 <= from,
    ensures
        match find_from(s, pat, from) {
            Some(i) => from <= i && matches_at(s, pat, i) && (forall|j: int|
                from <= j < i ==> !matches_at(s, pat, j)),
            None => forall|j: int| from <= j ==> !matches_at(s, pat, j),
        },
    decreases s.len() + pat.len() - from,
{
    if pat.len() == 0 {
        if from <= s.len() {
            assert(s.subrange(from, from) =~= pat);
        }
    } else if from + pat.len() > s.len() {
        assert forall|j: int| from <= j implies !matches_at(s, pat, j) by {}
    } else if matches_at(s, pat, from) {
    } else {
        lemma_find_from_characterizes(s, pat, from + 1);
    }
}

/// The first occurrence of `pat` in `s`, or `None` when `s` does not
/// contain `pat`.
pub fn find_bytes(s: &[u8], pat: &[u8]) -> (r: Option<usize>)
    ensures
        match r {
            Some(i) => find_from(s@, pat@, 0) == Some(i as int),
            None => find_from(s@, pat@, 0) is None,
        },
{
    let n = s.len();
    let m = pat.len();
    if m > n {
        return None;
    }
    if m == 0 {
        assert(s@.subrange(0, 0) =~= pat@);
        assert(matches_at(s@, pat@, 0));
        return Some(0);
    }
    let mut i: usize = 0;
    while i <= n - m
        invariant
            0 <= i <= n - m + 1,
            0 < m <= n,
            n == s@.len(),
            m == pat@.len(),
            find_from(s@, pat@, 0) == find_from(s@, pat@, i as int),
        decreases n - i,
    {
        let mut j: usize = 0;
        let mut hit = true;
        while hit && j < m
            invariant
                0 <= j <= m,
                i + m <= n,
                n == s@.len(),
                m == pat@.len(),
                hit ==> s@.subrange(i as int, i + j) == pat@.subrange(0, j as int),
                !hit ==> !matches_at(s@, pat@, i as int),
            decreases m - j + (if hit {
                1int
            } else {
                0int
            }),
        {
            if s[i + j] != pat[j] {
                proof {
                    if matches_at(s@, pat@, i as int) {
                        assert(s@.subrange(i as int, i + m)[j as int] == s@[i + j]);
                    }
                }
                hit = false;
            } else {
                proof {
                    assert(s@.subrange(i as int, i + j + 1) =~= s@.subrange(i as int, i + j).push(
                        s@[i + j],
                    ));
                    assert(pat@.subrange(0, j as int + 1) =~= pat@.subrange(0, j as int).push(
                        pat@[j as int],
                    ));
                }
                j = j + 1;
            }
        }
        if hit {
            assert(pat@.subrange(0, m as int) =~= pat@);
            assert(matches_at(s@, pat@, i as int));
            return Some(i);
        }
        i = i + 1;
    }
    None
}

/// Whether `s` contains `pat`.
pub fn contains_bytes(s: &[u8], pat: &[u8]) -> (r: bool)
    ensures
        r == contains_seq(s@, pat@),
{
    proof {
        lemma_find_from_characterizes(s@, pat@, 0);
    }
    find_bytes(s, pat).is_some()
}

/// Whether `s` ends with `pat`.
pub fn ends_with_bytes(s: &[u8], pat: &[u8]) -> (r: bool)
    ensures
        r == (s@.len() >= pat@.len() && s@.subrange(
            s@.len() - pat@.len(),
            s@.len() as int,
        ) == pat@),
{
    let n = s.len();
    let m = pat.len();
    if m > n {
        return false;
    }
    let mut j: usize = 0;
    while j < m
        invariant
            0 <= j <= m,
            m <= n,
            n == s@.len(),
            m == pat@.len(),
            s@.subrange(n - m, n - m + j) == pat@.subrange(0, j as int),
        decreases m - j,
    {
        if s[n - m + j] != pat[j] {
            assert(s@.subrange(n - m, n as int)[j as int] != pat@[j as int]);
            return false;
        }
        assert(s@.subrange(n - m, n - m + j + 1) =~= s@.subrange(n - m, n - m + j).push(
            s@[n - m + j],
        ));
        assert(pat@.subrange(0, j as int + 1) =~= pat@.subrange(0, j as int).push(pat@[j as int]));
        j = j + 1;
    }
    assert(s@.subrange(n - m, n as int) =~= s@.subrange(n - m, n - m + m));
    assert(pat@.subrange(0, m as int) =~= pat@);
    true
}

} // verus!
