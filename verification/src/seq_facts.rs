use vstd::prelude::*;

verus! {

/// `idx` tells, for each item of `sub`, where it stands in `full`; the places
/// go strictly from left to right.
pub open spec fn is_embedding<A>(idx: Seq<int>, sub: Seq<A>, full: Seq<A>) -> bool {
    &&& idx.len() == sub.len()
    &&& forall|k: int|
        0 <= k < idx.len() ==> 0 <= #[trigger] idx[k] < full.len() && sub[k] == full[idx[k]]
    &&& forall|j: int, k: int| 0 <= j < k < idx.len() ==> idx[j] < idx[k]
}

/// `sub` can be had from `full` by leaving items out, the rest staying in
/// their relative order.
pub open spec fn is_subsequence<A>(sub: Seq<A>, full: Seq<A>) -> bool {
    exists|idx: Seq<int>| is_embedding(idx, sub, full)
}

/// Filtering leaves items out and moves none.
pub proof fn lemma_filter_embedding<A>(s: Seq<A>, pred: spec_fn(A) -> bool) -> (idx: Seq<int>)
    ensures
        is_embedding(idx, s.filter(pred), s),
    decreases s.len(),
{
    reveal(Seq::filter);
    if s.len() == 0 {
        Seq::empty()
    } else {
        let rest = lemma_filter_embedding(s.drop_last(), pred);
        if pred(s.last()) {
            rest.push(s.len() - 1)
        } else {
            rest
        }
    }
}

/// An embedding into a sequence that is itself embedded reaches the outer
/// sequence.
pub proof fn lemma_embedding_compose<A>(
    inner: Seq<int>,
    outer: Seq<int>,
    a: Seq<A>,
    b: Seq<A>,
    c: Seq<A>,
) -> (idx: Seq<int>)
    requires
        is_embedding(inner, a, b),
        is_embedding(outer, b, c),
    ensures
        is_embedding(idx, a, c),
{
    Seq::new(inner.len(), |k: int| outer[inner[k]])
}

/// Filtering the first `i + 1` items: the filtered first `i` items, with item
/// `i` behind them if it passes.
pub proof fn lemma_filter_one_more<A>(s: Seq<A>, pred: spec_fn(A) -> bool, i: int)
    requires
        0 <= i < s.len(),
    ensures
        s.take(0).filter(pred) == Seq::<A>::empty(),
        s.take(i + 1).filter(pred) == (if pred(s[i]) {
            s.take(i).filter(pred).push(s[i])
        } else {
            s.take(i).filter(pred)
        }),
        i + 1 == s.len() ==> s.take(i + 1) == s,
{
    reveal(Seq::filter);
    assert(s.take(i + 1).drop_last() =~= s.take(i));
    if i + 1 == s.len() {
        assert(s.take(i + 1) =~= s);
    }
}

/// A filter that every item passes changes nothing.
pub proof fn lemma_filter_keeps_all<A>(s: Seq<A>, pred: spec_fn(A) -> bool)
    requires
        forall|i: int| 0 <= i < s.len() ==> pred(#[trigger] s[i]),
    ensures
        s.filter(pred) == s,
    decreases s.len(),
{
    reveal(Seq::filter);
    if s.len() > 0 {
        lemma_filter_keeps_all(s.drop_last(), pred);
        assert(s.drop_last().push(s.last()) =~= s);
    }
}

/// Where `narrow` only passes what `wide` passes, filtering by `narrow` is
/// the same as filtering by `wide` first and by `narrow` after.
pub proof fn lemma_filter_refines<A>(s: Seq<A>, wide: spec_fn(A) -> bool, narrow: spec_fn(A) -> bool)
    requires
        forall|x: A| #[trigger] narrow(x) ==> wide(x),
    ensures
        s.filter(narrow) == s.filter(wide).filter(narrow),
    decreases s.len(),
{
    reveal(Seq::filter);
    if s.len() > 0 {
        lemma_filter_refines(s.drop_last(), wide, narrow);
        if wide(s.last()) {
            s.drop_last().filter(wide).lemma_filter_push(s.last(), narrow);
        }
    }
}

/// Mapping after a filter equals filtering the mapped sequence, where the
/// second filter asks of a mapped item what the first asks of the item.
pub proof fn lemma_filter_then_map<A, B>(
    s: Seq<A>,
    before: spec_fn(A) -> bool,
    f: spec_fn(A) -> B,
    after: spec_fn(B) -> bool,
)
    requires
        forall|x: A| #[trigger] after(f(x)) ==> before(x),
    ensures
        s.filter(before).map_values(f).filter(after) == s.map_values(f).filter(after),
    decreases s.len(),
{
    reveal(Seq::filter);
    if s.len() == 0 {
        assert(s.filter(before).map_values(f) =~= s.map_values(f));
    } else {
        let rest = s.drop_last();
        lemma_filter_then_map(rest, before, f, after);
        assert(s.map_values(f).drop_last() =~= rest.map_values(f));
        assert(s.map_values(f).last() == f(s.last()));
        if before(s.last()) {
            assert(rest.filter(before).push(s.last()).map_values(f) =~= rest.filter(before).map_values(
                f,
            ).push(f(s.last())));
            rest.filter(before).map_values(f).lemma_filter_push(f(s.last()), after);
        }
    }
}

} // verus!
