//! Facts about prefixes of sequences, as loops over vectors need them.

use vstd::prelude::*;

verus! {

/// The prefix of no element is empty.
pub proof fn lemma_take_none<A>(s: Seq<A>)
    ensures
        s.take(0) == Seq::<A>::empty(),
{
    assert(s.take(0) =~= Seq::<A>::empty());
}

/// The prefix that is one element longer ends in that element, and
/// without it is the shorter prefix.
pub proof fn lemma_take_one_more<A>(s: Seq<A>, n: int)
    requires
        0 <= n < s.len(),
    ensures
        s.take(n + 1).drop_last() == s.take(n),
        s.take(n + 1).last() == s[n],
{
    assert(s.take(n + 1).drop_last() =~= s.take(n));
}

/// The prefix of every element is the sequence.
pub proof fn lemma_take_all<A>(s: Seq<A>)
    ensures
        s.take(s.len() as int) == s,
{
    assert(s.take(s.len() as int) =~= s);
}

} // verus!
