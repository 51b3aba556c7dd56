//! Substring search on character sequences, verified against a recursive
//! first-occurrence specification.

use vstd::prelude::*;

verus! {

/// `pat` occurs in `s` starting at index `i`.
pub open spec fn match_at(s: Seq<char>, pat: Seq<char>, i: int) -> bool {
    0 <= i && i + pat.len() <= s.len() && s.subrange(i, i + pat.len() as int) == pat
}

/// `pat` occurs somewhere in `s`.
pub open spec fn contains_seq(s: Seq<char>, pat: Seq<char>) -> bool {
    exists|i: int| match_at(s, pat, i)
}

/// Index of the first occurrence of `pat` in `s`, if there is one.
pub open spec fn find_first(s: Seq<char>, pat: Seq<char>) -> Option<int>
    decreases s.len(),
{
    if pat.len() > s.len() {
        None
    } else if match_at(s, pat, 0) {
        Some(0)
    } else if s.len() == 0 {
        None
    } else {
        match find_first(s.skip(1), pat) {
            Option::None => None,
            Option::Some(i) => Some(i + 1),
        }
    }
}

/// A match of `pat` inside `s.skip(1)` at `i` is a match inside `s` at `i + 1`.
proof fn lemma_match_at_skip(s: Seq<char>, pat: Seq<char>, i: int)
    requires
        s.len() > 0,
        i >= 0,
    ensures
        match_at(s.skip(1), pat, i) == match_at(s, pat, i + 1),
{
    assert(s.skip(1).len() == s.len() - 1);
    if 0 <= i && i + pat.len() <= s.len() - 1 {
        assert(s.skip(1).subrange(i, i + pat.len() as int)
            =~= s.subrange(i + 1, i + 1 + pat.len() as int));
        assert(match_at(s.skip(1), pat, i) == match_at(s, pat, i + 1));
    } else {
        assert(!match_at(s.skip(1), pat, i));
        assert(!match_at(s, pat, i + 1));
    }
}

/// `find_first` returns the first match: a position where `pat` occurs and
/// before which it does not, or `None` exactly when `pat` occurs nowhere.
pub proof fn lemma_find_first_characterizes(s: Seq<char>, pat: Seq<char>)
    ensures
        match find_first(s, pat) {
            Option::Some(i) => match_at(s, pat, i)
                && forall|j: int| 0 <= j < i ==> !match_at(s, pat, j),
            Option::None => !contains_seq(s, pat),
        },
    decreases s.len(),
{
    if pat.len() > s.len() {
        assert forall|j: int| !match_at(s, pat, j) by {}
    } else if match_at(s, pat, 0) {
    } else if s.len() == 0 {
    } else {
        lemma_find_first_characterizes(s.skip(1), pat);
        match find_first(s.skip(1), pat) {
            Option::None => {
                assert forall|j: int| !match_at(s, pat, j) by {
                    if 0 < j {
                        lemma_match_at_skip(s, pat, j - 1);
                    }
                }
            },
            Option::Some(i) => {
                lemma_match_at_skip(s, pat, i);
                assert forall|j: int| 0 <= j < i + 1 implies !match_at(s, pat, j) by {
                    if 0 < j {
                        lemma_match_at_skip(s, pat, j - 1);
                    }
                }
            },
        }
    }
}

/// Character-by-character test of a match of `pat` inside `s` at `i`.
fn matches_at(s: &str, pat: &str, i: usize) -> (b: bool)
    requires
        i + pat@.len() <= s@.len(),
    ensures
        b == match_at(s@, pat@, i as int),
{
    let n = s.unicode_len();
    let m = pat.unicode_len();
    let mut k: usize = 0;
    while k < m
        invariant
            0 <= k <= m,
            n == s@.len(),
            m == pat@.len(),
            i + m <= n,
            forall|t: int| 0 <= t < k ==> s@[i + t] == pat@[t],
        decreases m - k,
    {
        if s.get_char(i + k) != pat.get_char(k) {
            assert(!match_at(s@, pat@, i as int)) by {
                if match_at(s@, pat@, i as int) {
                    assert(s@.subrange(i as int, i + m as int)[k as int] == pat@[k as int]);
                }
            }
            return false;
        }
        k += 1;
    }
    assert(s@.subrange(i as int, i + m as int) =~= pat@);
    true
}

/// First occurrence of `pat` in `s`, as `str::find` reports it, counted in
/// characters.
pub fn find_sub(s: &str, pat: &str) -> (r: Option<usize>)
    ensures
        match r {
            Option::Some(i) => find_first(s@, pat@) == Some(i as int),
            Option::None => find_first(s@, pat@) is None,
        },
{
    proof {
        lemma_find_first_characterizes(s@, pat@);
    }
    let n = s.unicode_len();
    let m = pat.unicode_len();
    if m > n {
        return None;
    }
    let mut i: usize = 0;
    loop
        invariant
            m <= n,
            n == s@.len(),
            m == pat@.len(),
            0 <= i <= n - m,
            forall|j: int| 0 <= j < i ==> !match_at(s@, pat@, j),
        decreases n - m - i,
    {
        if matches_at(s, pat, i) {
            proof {
                assert(match_at(s@, pat@, i as int));
                lemma_find_first_characterizes(s@, pat@);
            }
            return Some(i);
        }
        if i == n - m {
            proof {
                assert forall|j: int| !match_at(s@, pat@, j) by {
                    if 0 <= j <= i {
                        assert(!match_at(s@, pat@, j));
                    }
                }
                lemma_find_first_characterizes(s@, pat@);
            }
            return None;
        }
        i += 1;
    }
}

/// Whether `pat` occurs anywhere in `s`, as `str::contains` reports it.
pub fn contains_sub(s: &str, pat: &str) -> (b: bool)
    ensures
        b == contains_seq(s@, pat@),
{
    proof {
        lemma_find_first_characterizes(s@, pat@);
    }
    find_sub(s, pat).is_some()
}

} // verus!
