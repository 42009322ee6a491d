//! Facts about sequences that the loops of this library lean on.

use vstd::prelude::*;

verus! {

/// Filtering a sequence that got one more element filters what it was and
/// then looks at the new element.
pub proof fn lemma_filter_push<A>(s: Seq<A>, last: A, keep: spec_fn(A) -> bool)
    ensures
        s.push(last).filter(keep) == if keep(last) {
            s.filter(keep).push(last)
        } else {
            s.filter(keep)
        },
{
    reveal(Seq::filter);
    assert(s.push(last).drop_last() =~= s);
}

/// The elements of a sequence that got one more element are those that it
/// had, and the new one.
pub proof fn lemma_push_to_set<A>(s: Seq<A>, last: A)
    ensures
        s.push(last).to_set() == s.to_set().insert(last),
{
    let longer = s.push(last);
    assert forall|x: A| longer.to_set().contains(x) <==> s.to_set().insert(last).contains(x) by {
        if longer.to_set().contains(x) {
            let i = choose|i: int| 0 <= i < longer.len() && longer[i] == x;
            if i < s.len() {
                assert(s[i] == x);
            }
        }
        if s.to_set().contains(x) {
            let i = choose|i: int| 0 <= i < s.len() && s[i] == x;
            assert(longer[i] == x);
        }
        if x == last {
            assert(longer[s.len() as int] == x);
        }
    }
    assert(longer.to_set() =~= s.to_set().insert(last));
}

/// What a filter lets through is what the sequence holds and the filter keeps.
pub proof fn lemma_filter_members<A>(s: Seq<A>, keep: spec_fn(A) -> bool)
    ensures
        forall|x: A| #[trigger] s.filter(keep).contains(x) <==> s.contains(x) && keep(x),
    decreases s.len(),
{
    reveal(Seq::filter);
    if s.len() == 0 {
        assert(s.filter(keep) =~= Seq::<A>::empty());
    } else {
        let rest = s.drop_last();
        let last = s.last();
        lemma_filter_members(rest, keep);
        assert(s =~= rest.push(last));
        lemma_filter_push(rest, last, keep);
        let kept = rest.filter(keep);
        assert(s.filter(keep) == if keep(last) {
            kept.push(last)
        } else {
            kept
        });
        assert forall|x: A| #[trigger] s.filter(keep).contains(x) <==> s.contains(x) && keep(
            x,
        ) by {
            if s.filter(keep).contains(x) {
                let i = choose|i: int| 0 <= i < s.filter(keep).len() && s.filter(keep)[i] == x;
                if i < kept.len() {
                    assert(kept[i] == x);
                    assert(kept.contains(x));
                    let j = choose|j: int| 0 <= j < rest.len() && rest[j] == x;
                    assert(s[j] == x);
                } else {
                    assert(x == last);
                    assert(s[s.len() - 1] == x);
                }
            }
            if s.contains(x) && keep(x) {
                let j = choose|j: int| 0 <= j < s.len() && s[j] == x;
                if j < rest.len() {
                    assert(rest[j] == x);
                    assert(rest.contains(x));
                    assert(kept.contains(x));
                    let i = choose|i: int| 0 <= i < kept.len() && kept[i] == x;
                    assert(s.filter(keep)[i] == x);
                } else {
                    assert(x == last);
                    assert(s.filter(keep)[kept.len() as int] == x);
                }
            }
        }
    }
}

} // verus!
