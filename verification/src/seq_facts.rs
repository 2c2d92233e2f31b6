//! Facts about filtered sequences that the resolver and the roster rest on.

use vstd::prelude::*;

verus! {

/// Filtering one element longer a prefix either appends that element or changes nothing.
pub proof fn lemma_filter_take_step<A>(s: Seq<A>, pred: spec_fn(A) -> bool, i: int)
    requires
        0 <= i < s.len(),
    ensures
        s.take(i + 1).filter(pred) == if pred(s[i]) {
            s.take(i).filter(pred).push(s[i])
        } else {
            s.take(i).filter(pred)
        },
{
    assert(s.take(i + 1) =~= s.take(i).push(s[i]));
    s.take(i).lemma_filter_push(s[i], pred);
}

/// Where no earlier element passes the filter and the one at `i` does, that one is the
/// first of the filtered sequence.
pub proof fn lemma_filter_first<A>(s: Seq<A>, pred: spec_fn(A) -> bool, i: int)
    requires
        0 <= i < s.len(),
        pred(s[i]),
        s.take(i).filter(pred).len() == 0,
    ensures
        s.filter(pred).len() > 0,
        s.filter(pred)[0] == s[i],
{
    let head = s.take(i + 1);
    let tail = s.skip(i + 1);
    lemma_filter_take_step(s, pred, i);
    assert(s =~= head + tail);
    Seq::filter_distributes_over_add(head, tail, pred);
    assert(head.filter(pred) =~= seq![s[i]]);
}

/// What passes a filter is an element of the sequence and satisfies the predicate.
pub proof fn lemma_filter_member<A>(s: Seq<A>, pred: spec_fn(A) -> bool, k: int)
    requires
        0 <= k < s.filter(pred).len(),
    ensures
        s.contains(s.filter(pred)[k]),
        pred(s.filter(pred)[k]),
{
    let kept = s.filter(pred);
    assert(kept.contains(kept[k]));
    s.lemma_filter_contains_rev(pred, kept[k]);
    s.lemma_filter_pred(pred, k);
}

/// Where two elements at different places satisfy the predicate, the filtered sequence
/// holds at least two elements.
pub proof fn lemma_filter_two<A>(s: Seq<A>, pred: spec_fn(A) -> bool, i: int, j: int)
    requires
        0 <= i < j < s.len(),
        pred(s[i]),
        pred(s[j]),
    ensures
        s.filter(pred).len() >= 2,
{
    let upto_i = s.take(i + 1);
    let upto_j = s.subrange(i + 1, j + 1);
    let rest = s.skip(j + 1);
    assert(s =~= upto_i + upto_j + rest);
    Seq::filter_distributes_over_add(upto_i + upto_j, rest, pred);
    Seq::filter_distributes_over_add(upto_i, upto_j, pred);
    assert(upto_i =~= s.take(i).push(s[i]));
    s.take(i).lemma_filter_push(s[i], pred);
    assert(upto_j =~= s.subrange(i + 1, j).push(s[j]));
    s.subrange(i + 1, j).lemma_filter_push(s[j], pred);
}

} // verus!
