//! In-place insertion sort for vectors of `i32`, proved to return a sorted
//! rearrangement of its input.

use vstd::prelude::*;
use vstd::pervasive::VecAdditionalExecFns;
use vstd::seq_lib::to_multiset_update;
use vstd::seq_lib::group_to_multiset_ensures;
use vstd::multiset::group_multiset_axioms;
use vstd::multiset::group_multiset_properties;

verus! {

/// A sequence is sorted in non-decreasing order.
pub open spec fn sorted(s: Seq<i32>) -> bool {
    forall|i: int, j: int| 0 <= i < j < s.len() ==> s[i] <= s[j]
}

/// The prefix of `s` below `n` is sorted in non-decreasing order.
spec fn sorted_prefix(s: Seq<i32>, n: int) -> bool {
    forall|i: int, j: int| 0 <= i < j < n ==> s[i] <= s[j]
}

/// Sorts `v` in place into non-decreasing order. The result holds exactly
/// the elements of the input, multiplicities included.
#[verifier::loop_isolation(false)]
pub fn sort_i32(v: &mut Vec<i32>)
    ensures
        sorted(final(v)@),
        final(v)@.to_multiset() == old(v)@.to_multiset(),
{
    broadcast use to_multiset_update;
    broadcast use group_to_multiset_ensures;
    broadcast use group_multiset_axioms;
    broadcast use group_multiset_properties;

    let n = v.len();
    let mut i: usize = 1;
    while i < n
        invariant
            n == v@.len(),
            1 <= i,
            i <= n || n == 0,
            sorted_prefix(v@, i as int),
            v@.to_multiset() == old(v)@.to_multiset(),
        decreases n - i,
    {
        let mut j: usize = i;
        while j > 0 && v[j - 1] > v[j]
            invariant
                n == v@.len(),
                0 <= j <= i < n,
                forall|k1: int, k2: int|
                    0 <= k1 < k2 <= i && k2 != j ==> v@[k1] <= v@[k2],
                v@.to_multiset() == old(v)@.to_multiset(),
            decreases j,
        {
            let a = v[j - 1];
            let b = v[j];
            proof {
                assert(v@[j - 1] == a);
                assert(v@.contains(a));
                assert(v@.to_multiset().count(a) > 0);
            }
            v.set(j - 1, b);
            v.set(j, a);
            proof {
                assert(v@.to_multiset() =~= old(v)@.to_multiset());
            }
            j = j - 1;
        }
        i = i + 1;
    }
}

} // verus!
