//! Facts about sequences that the sorting proofs use.

use vstd::prelude::*;

verus! {

/// Inserting `x` at `p` adds it to the elements that satisfy `pred`, at the
/// end, when no element from `p` on satisfies `pred`.
pub proof fn lemma_filter_insert<A>(s: Seq<A>, p: int, x: A, pred: spec_fn(A) -> bool)
    requires
        0 <= p <= s.len(),
        pred(x) ==> forall|j: int| p <= j < s.len() ==> !pred(#[trigger] s[j]),
    ensures
        s.insert(p, x).filter(pred) == (if pred(x) { s.filter(pred).push(x) } else { s.filter(pred) }),
{
    let a = s.subrange(0, p);
    let b = s.subrange(p, s.len() as int);
    assert(s =~= a + b);
    assert(s.insert(p, x) =~= a.push(x) + b);
    Seq::filter_distributes_over_add(a, b, pred);
    Seq::filter_distributes_over_add(a.push(x), b, pred);
    a.lemma_filter_push(x, pred);
    if pred(x) {
        assert forall|i: int| 0 <= i < b.len() implies !pred(b[i]) by {
            assert(b[i] == s[p + i]);
        }
        assert(b.all(|y: A| !pred(y)));
        b.lemma_all_neg_filter_empty(pred);
        assert(b.filter(pred) =~= Seq::<A>::empty());
        assert(a.filter(pred).push(x) + b.filter(pred) =~= (a.filter(pred) + b.filter(pred)).push(x));
    } else {
        assert(a.filter(pred) + b.filter(pred) =~= s.filter(pred));
    }
}

} // verus!
