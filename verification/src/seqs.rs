//! Facts about filtered sequences that several modules share.
use vstd::prelude::*;

verus! {

/// Filtering one element more.
pub proof fn lemma_filter_step<A>(s: Seq<A>, i: int, p: spec_fn(A) -> bool)
    requires
        0 <= i < s.len(),
    ensures
        s.take(i + 1).filter(p) == if p(s[i]) {
            s.take(i).filter(p).push(s[i])
        } else {
            s.take(i).filter(p)
        },
{
    reveal(Seq::filter);
    assert(s.take(i + 1).drop_last() == s.take(i));
}

/// What a filter keeps was there before and passes the test.
pub proof fn lemma_filter_members<A>(s: Seq<A>, p: spec_fn(A) -> bool)
    ensures
        forall|k: int|
            #![trigger s.filter(p)[k]]
            0 <= k < s.filter(p).len() ==> s.contains(s.filter(p)[k]) && p(s.filter(p)[k]),
{
    broadcast use Seq::lemma_filter_contains_rev, Seq::lemma_filter_pred;

    assert forall|k: int|
        #![trigger s.filter(p)[k]]
        0 <= k < s.filter(p).len() implies s.contains(s.filter(p)[k]) && p(s.filter(p)[k]) by {
        assert(s.filter(p).contains(s.filter(p)[k]));
    }
}

/// Keeping everything is keeping the sequence.
pub proof fn lemma_filter_all<A>(s: Seq<A>, p: spec_fn(A) -> bool)
    requires
        forall|k: int| 0 <= k < s.len() ==> p(#[trigger] s[k]),
    ensures
        s.filter(p) == s,
    decreases s.len(),
{
    reveal(Seq::filter);
    if s.len() > 0 {
        lemma_filter_all(s.drop_last(), p);
        assert(s.drop_last().push(s.last()) == s);
    }
}

/// Filtering twice is filtering once by both tests.
pub proof fn lemma_filter_twice<A>(s: Seq<A>, p: spec_fn(A) -> bool, q: spec_fn(A) -> bool)
    ensures
        s.filter(p).filter(q) == s.filter(|a: A| p(a) && q(a)),
    decreases s.len(),
{
    reveal(Seq::filter);
    if s.len() > 0 {
        lemma_filter_twice(s.drop_last(), p, q);
        let kept = s.drop_last().filter(p);
        if p(s.last()) {
            assert(kept.push(s.last()).drop_last() == kept);
        }
    }
}

/// Two tests that agree on every element keep the same elements.
pub proof fn lemma_filter_agree<A>(s: Seq<A>, p: spec_fn(A) -> bool, q: spec_fn(A) -> bool)
    requires
        forall|k: int| 0 <= k < s.len() ==> p(#[trigger] s[k]) == q(s[k]),
    ensures
        s.filter(p) == s.filter(q),
    decreases s.len(),
{
    reveal(Seq::filter);
    if s.len() > 0 {
        assert(p(s[s.len() - 1]) == q(s[s.len() - 1]));
        assert forall|k: int| 0 <= k < s.drop_last().len() implies p(
            #[trigger] s.drop_last()[k],
        ) == q(s.drop_last()[k]) by {
            assert(s.drop_last()[k] == s[k]);
        }
        lemma_filter_agree(s.drop_last(), p, q);
    }
}

} // verus!
