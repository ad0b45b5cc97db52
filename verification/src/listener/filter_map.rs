//! Two facts about `Seq::filter_map` that the laws of the listener rest on.

use vstd::prelude::*;

verus! {

/// Filtering and mapping two sequences one after the other is filtering and
/// mapping their concatenation.
pub proof fn lemma_filter_map_concat<A, B>(
    first: Seq<A>,
    second: Seq<A>,
    f: spec_fn(A) -> Option<B>,
)
    ensures
        (first + second).filter_map(f) == first.filter_map(f) + second.filter_map(f),
    decreases second.len(),
{
    if second.len() > 0 {
        lemma_filter_map_concat(first, second.drop_last(), f);
        assert((first + second).drop_last() =~= first + second.drop_last());
    }
}

/// An element that is kept is found in the result after as many elements as
/// were kept before it.
pub proof fn lemma_filter_map_position<A, B>(s: Seq<A>, f: spec_fn(A) -> Option<B>, i: int)
    requires
        0 <= i < s.len(),
        f(s[i]) is Some,
    ensures
        s.take(i).filter_map(f).len() < s.filter_map(f).len(),
        Some(s.filter_map(f)[s.take(i).filter_map(f).len() as int]) == f(s[i]),
{
    let before = s.take(i);
    let after = s.skip(i + 1);
    assert(s =~= before + seq![s[i]] + after);
    lemma_filter_map_concat(before + seq![s[i]], after, f);
    lemma_filter_map_concat(before, seq![s[i]], f);
    Seq::lemma_filter_map_singleton(s[i], f);
}

} // verus!
