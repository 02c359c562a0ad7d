//! Searching sequences of texts.

use vstd::prelude::*;
use crate::strings::str_eq;

verus! {

/// The position of the first member of `s` equal to `x`, or the length of
/// `s` where there is none.
pub open spec fn first_index<A>(s: Seq<A>, x: A) -> int
    decreases s.len(),
{
    if s.len() == 0 || s[0] == x {
        0
    } else {
        1 + first_index(s.drop_first(), x)
    }
}

/// No member of `s` occurs twice.
pub open spec fn distinct<A>(s: Seq<A>) -> bool {
    forall|i: int, j: int| 0 <= i < j < s.len() ==> s[i] != s[j]
}

/// `first_index` is within the sequence exactly when the sequence holds
/// `x`, and then it is the first such position.
pub proof fn lemma_first_index<A>(s: Seq<A>, x: A)
    ensures
        0 <= first_index(s, x) <= s.len(),
        first_index(s, x) < s.len() <==> s.contains(x),
        first_index(s, x) < s.len() ==> s[first_index(s, x)] == x,
        forall|i: int| 0 <= i < first_index(s, x) ==> s[i] != x,
    decreases s.len(),
{
    if s.len() == 0 {
    } else if s[0] == x {
        assert(s.contains(x));
    } else {
        let t = s.drop_first();
        lemma_first_index(t, x);
        let k = first_index(s, x);
        assert forall|i: int| 0 <= i < k implies s[i] != x by {
            if i > 0 {
                assert(s[i] == t[i - 1]);
            }
        }
        if k < s.len() {
            assert(s[k] == t[k - 1]);
            assert(s.contains(x));
        }
        if s.contains(x) {
            let j = choose|j: int| 0 <= j < s.len() && s[j] == x;
            assert(t[j - 1] == x);
            assert(t.contains(x));
        }
    }
}

/// A position that holds `x` after positions that do not is `first_index`.
pub proof fn lemma_first_index_is<A>(s: Seq<A>, x: A, k: int)
    requires
        0 <= k <= s.len(),
        forall|i: int| 0 <= i < k ==> s[i] != x,
        k < s.len() ==> s[k] == x,
    ensures
        first_index(s, x) == k,
{
    lemma_first_index(s, x);
    let f = first_index(s, x);
    if f < k {
        assert(s[f] == x);
    } else if f > k {
        assert(s[k] != x);
    }
}

/// The position of the first text in `items` equal to `x`, or
/// `items.len()` where there is none.
pub fn position(items: &Vec<String>, x: &str) -> (k: usize)
    ensures
        k == first_index(items.deep_view(), x@),
        k <= items.len(),
        k < items.len() <==> items.deep_view().contains(x@),
{
    let mut k: usize = 0;
    while k < items.len()
        invariant
            k <= items.len(),
            forall|i: int| 0 <= i < k ==> items.deep_view()[i] != x@,
        ensures
            k < items.len() ==> items.deep_view()[k as int] == x@,
        decreases items.len() - k,
    {
        assert(items.deep_view()[k as int] == items[k as int]@);
        if str_eq(items[k].as_str(), x) {
            break;
        }
        k += 1;
    }
    proof {
        lemma_first_index_is(items.deep_view(), x@, k as int);
        lemma_first_index(items.deep_view(), x@);
    }
    k
}

} // verus!
