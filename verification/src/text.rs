//! Small verified helpers on string slices, stated over `Seq<char>` views.

use vstd::prelude::*;
use vstd::string::*;

verus! {

/// `true` when `i` is the position of the first `=` in `s`.
pub open spec fn is_first_eq(s: Seq<char>, i: int) -> bool {
    &&& 0 <= i < s.len()
    &&& s[i] == '='
    &&& forall|j: int| 0 <= j < i ==> s[j] != '='
}

/// `s` holds at least one `=`.
pub open spec fn has_eq(s: Seq<char>) -> bool {
    exists|i: int| is_first_eq(s, i)
}

/// Position of the first `=` in `s` (meaningful only when `has_eq(s)`).
pub open spec fn first_eq(s: Seq<char>) -> int {
    choose|i: int| is_first_eq(s, i)
}

/// The first `=` is unique.
pub proof fn lemma_first_eq_unique(s: Seq<char>, i: int)
    requires
        is_first_eq(s, i),
    ensures
        has_eq(s),
        first_eq(s) == i,
{
    let k = first_eq(s);
    assert(is_first_eq(s, k));
    if k < i {
        assert(s[k] != '=');
    } else if i < k {
        assert(s[i] != '=');
    }
}

/// Character-wise equality of two string slices.
pub fn str_eq(a: &str, b: &str) -> (r: bool)
    ensures
        r == (a@ == b@),
{
    let n = a.unicode_len();
    let m = b.unicode_len();
    if n != m {
        return false;
    }
    let mut i: usize = 0;
    while i < n
        invariant
            n == a@.len(),
            m == b@.len(),
            n == m,
            i <= n,
            forall|j: int| 0 <= j < i ==> a@[j] == b@[j],
        decreases n - i,
    {
        if a.get_char(i) != b.get_char(i) {
            return false;
        }
        i = i + 1;
    }
    assert(a@ =~= b@);
    true
}

/// Position of the first `=` in `s`, if any.
pub fn find_first_eq(s: &str) -> (r: Option<usize>)
    ensures
        match r {
            Some(i) => is_first_eq(s@, i as int) && has_eq(s@) && first_eq(s@) == i,
            None => !has_eq(s@),
        },
{
    let n = s.unicode_len();
    let mut i: usize = 0;
    while i < n
        invariant
            n == s@.len(),
            i <= n,
            forall|j: int| 0 <= j < i ==> s@[j] != '=',
        decreases n - i,
    {
        if s.get_char(i) == '=' {
            proof {
                lemma_first_eq_unique(s@, i as int);
            }
            return Some(i);
        }
        i = i + 1;
    }
    None
}

} // verus!
