//! Plain text utilities: equality and substring search over character
//! sequences.

use vstd::prelude::*;
use vstd::string::StrSliceExecFns;

verus! {

/// Whether `pat` occurs in `s` starting at position `i`.
pub open spec fn spec_matches_at(s: Seq<char>, pat: Seq<char>, i: int) -> bool {
    s.subrange(i, i + pat.len()) == pat
}

/// Whether `pat` occurs anywhere in `s`.
pub open spec fn spec_contains_seq(s: Seq<char>, pat: Seq<char>) -> bool {
    exists|i: int| 0 <= i <= s.len() - pat.len() && #[trigger] spec_matches_at(s, pat, i)
}

/// Compare two string slices character by character.
pub fn str_eq(a: &str, b: &str) -> (r: bool)
    ensures
        r == (a@ == b@),
{
    let n = a.unicode_len();
    if n != b.unicode_len() {
        return false;
    }
    let mut i: usize = 0;
    while i < n
        invariant
            0 <= i <= n,
            n == a@.len() == b@.len(),
            forall|j: int| 0 <= j < i ==> a@[j] == b@[j],
        decreases n - i,
    {
        if a.get_char(i) != b.get_char(i) {
            return false;
        }
        i = i + 1;
    }
    proof {
        assert(a@ =~= b@);
    }
    true
}

/// Search `s` for an occurrence of `pat`.
pub fn str_contains(s: &str, pat: &str) -> (r: bool)
    ensures
        r == spec_contains_seq(s@, pat@),
{
    let n = s.unicode_len();
    let m = pat.unicode_len();
    if m > n {
        return false;
    }
    if m == 0 {
        proof {
            assert(s@.subrange(0, 0) =~= pat@);
            assert(spec_matches_at(s@, pat@, 0));
        }
        return true;
    }
    let last = n - m + 1;
    let mut i: usize = 0;
    while i < last
        invariant
            0 <= i <= last,
            0 < m <= n,
            last == n - m + 1,
            n == s@.len(),
            m == pat@.len(),
            forall|k: int| 0 <= k < i ==> !spec_matches_at(s@, pat@, k),
        decreases last - i,
    {
        let mut j: usize = 0;
        let mut ok = true;
        while j < m && ok
            invariant
                0 <= j <= m,
                i + m <= n,
                n == s@.len(),
                m == pat@.len(),
                ok ==> forall|k: int| 0 <= k < j ==> s@[i + k] == pat@[k],
                !ok ==> !spec_matches_at(s@, pat@, i as int),
            decreases m - j + (if ok { 1int } else { 0int }),
        {
            if s.get_char(i + j) != pat.get_char(j) {
                proof {
                    assert(s@.subrange(i as int, i + m as int)[j as int] != pat@[j as int]);
                }
                ok = false;
            } else {
                j = j + 1;
            }
        }
        if ok {
            proof {
                assert(s@.subrange(i as int, i + m as int) =~= pat@);
                assert(spec_matches_at(s@, pat@, i as int));
            }
            return true;
        }
        i = i + 1;
    }
    false
}

} // verus!
