//! First-match search over sequences, the lookup discipline the device model
//! uses everywhere: among the records a search returns, the first relevant
//! match wins.

use vstd::prelude::*;

verus! {

/// Index of the first element of `s` satisfying `p`, or -1 if none does.
pub open spec fn first_idx<A>(s: Seq<A>, p: spec_fn(A) -> bool) -> int
    decreases s.len(),
{
    if s.len() == 0 {
        -1
    } else if p(s[0]) {
        0
    } else {
        let r = first_idx(s.drop_first(), p);
        if r < 0 {
            -1
        } else {
            r + 1
        }
    }
}

/// Characterization of `first_idx`: -1 means no element satisfies `p`;
/// otherwise it is the least index whose element does.
pub proof fn lemma_first_idx<A>(s: Seq<A>, p: spec_fn(A) -> bool)
    ensures
        first_idx(s, p) == -1 ==> forall|i: int| 0 <= i < s.len() ==> !p(#[trigger] s[i]),
        first_idx(s, p) != -1 ==> 0 <= first_idx(s, p) < s.len() && p(s[first_idx(s, p)])
            && forall|i: int| 0 <= i < first_idx(s, p) ==> !p(#[trigger] s[i]),
    decreases s.len(),
{
    if s.len() == 0 {
    } else if p(s[0]) {
    } else {
        let t = s.drop_first();
        lemma_first_idx(t, p);
        if first_idx(t, p) == -1 {
            assert forall|i: int| 0 <= i < s.len() implies !p(#[trigger] s[i]) by {
                if i >= 1 {
                    assert(t[i - 1] == s[i]);
                    assert(!p(t[i - 1]));
                }
            }
        } else {
            let r = first_idx(t, p) + 1;
            assert(s[r] == t[r - 1]);
            assert forall|i: int| 0 <= i < r implies !p(#[trigger] s[i]) by {
                if i >= 1 {
                    assert(t[i - 1] == s[i]);
                    assert(!p(t[i - 1]));
                }
            }
        }
    }
}

/// Converse direction: an index that satisfies `p` with none before it is the
/// first index.
pub proof fn lemma_first_idx_is<A>(s: Seq<A>, p: spec_fn(A) -> bool, k: int)
    requires
        0 <= k < s.len(),
        p(s[k]),
        forall|i: int| 0 <= i < k ==> !p(#[trigger] s[i]),
    ensures
        first_idx(s, p) == k,
{
    lemma_first_idx(s, p);
    let r = first_idx(s, p);
    if r == -1 {
        assert(!p(s[k]));
        assert(false);
    } else {
        if r < k {
            assert(!p(s[r]));
            assert(false);
        }
        if k < r {
            assert(!p(s[k]));
            assert(false);
        }
    }
}

/// No element satisfies `p`, so there is no first index.
pub proof fn lemma_first_idx_none<A>(s: Seq<A>, p: spec_fn(A) -> bool)
    requires
        forall|i: int| 0 <= i < s.len() ==> !p(#[trigger] s[i]),
    ensures
        first_idx(s, p) == -1,
{
    lemma_first_idx(s, p);
    let r = first_idx(s, p);
    if r != -1 {
        assert(!p(s[r]));
        assert(false);
    }
}

} // verus!
