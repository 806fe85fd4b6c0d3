//! Mapping a sequence through a rule that keeps some elements and drops the
//! others.

use vstd::prelude::*;

verus! {

/// The elements that `rule` keeps of `s`, each as `rule` hands it on, in
/// order.
pub open spec fn filter_map<A, B>(s: Seq<A>, rule: spec_fn(A) -> Option<B>) -> Seq<B>
    decreases s.len(),
{
    if s.len() == 0 {
        Seq::empty()
    } else {
        let before = filter_map(s.drop_last(), rule);
        match rule(s.last()) {
            Some(b) => before.push(b),
            None => before,
        }
    }
}

/// One more element of the input adds what `rule` makes of it, or nothing.
pub proof fn lemma_filter_map_step<A, B>(s: Seq<A>, rule: spec_fn(A) -> Option<B>, i: int)
    requires
        0 <= i < s.len(),
    ensures
        filter_map(s.take(i + 1), rule) == match rule(s[i]) {
            Some(b) => filter_map(s.take(i), rule).push(b),
            None => filter_map(s.take(i), rule),
        },
{
    assert(s.take(i + 1).drop_last() =~= s.take(i));
    assert(s.take(i + 1).last() == s[i]);
}

/// What is kept of a part of the input is the beginning of what is kept of
/// all of it.
pub proof fn lemma_filter_map_prefix<A, B>(s: Seq<A>, rule: spec_fn(A) -> Option<B>, i: int)
    requires
        0 <= i <= s.len(),
    ensures
        filter_map(s.take(i), rule).is_prefix_of(filter_map(s, rule)),
    decreases s.len() - i,
{
    if i == s.len() {
        assert(s.take(i) =~= s);
    } else {
        lemma_filter_map_step(s, rule, i);
        lemma_filter_map_prefix(s, rule, i + 1);
    }
}

/// Each element of the output is what `rule` made of some element of the
/// input.
pub proof fn lemma_filter_map_origin<A, B>(s: Seq<A>, rule: spec_fn(A) -> Option<B>, k: int)
    requires
        0 <= k < filter_map(s, rule).len(),
    ensures
        exists|i: int| 0 <= i < s.len() && rule(#[trigger] s[i]) == Some(filter_map(s, rule)[k]),
    decreases s.len(),
{
    if s.len() > 0 {
        let before = filter_map(s.drop_last(), rule);
        if k < before.len() {
            lemma_filter_map_origin(s.drop_last(), rule, k);
            let i = choose|i: int|
                0 <= i < s.drop_last().len() && rule(#[trigger] s.drop_last()[i]) == Some(
                    before[k],
                );
            assert(s.drop_last()[i] == s[i]);
        } else {
            assert(rule(s[s.len() - 1]) == Some(filter_map(s, rule)[k]));
        }
    }
}

} // verus!
