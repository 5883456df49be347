//! A fact about filtered sequences that the numbering of displays rests on.

use vstd::prelude::*;

verus! {

/// What passes a filter in a prefix of a sequence passes it in the whole
/// sequence, at the same place.
pub proof fn lemma_filter_prefix<A>(s: Seq<A>, keep: spec_fn(A) -> bool, n: int)
    requires
        0 <= n <= s.len(),
    ensures
        s.take(n).filter(keep).len() <= s.filter(keep).len(),
        forall|k: int|
            0 <= k < s.take(n).filter(keep).len() ==> s.take(n).filter(keep)[k] == s.filter(
                keep,
            )[k],
{
    assert(s =~= s.take(n) + s.skip(n));
    Seq::filter_distributes_over_add(s.take(n), s.skip(n), keep);
}

} // verus!
