//! Lists of ids that go up: the form in which the members of a dialog are
//! hashed, so that every member arrives at the same chat.

use crate::proto::UserId;
use vstd::prelude::*;
use vstd::std_specs::btree::increasing_seq;
use vstd::std_specs::cmp::OrdSpec;

verus! {

/// `ids` holds no value twice and goes up from each element to the next.
pub open spec fn ascending(ids: Seq<UserId>) -> bool {
    forall|i: int, j: int| 0 <= i < j < ids.len() ==> ids[i] < ids[j]
}

/// The elements of `ids`, each once, from the smallest to the largest.
pub closed spec fn sorted_set(ids: Set<UserId>) -> Seq<UserId> {
    choose|sorted: Seq<UserId>| ascending(sorted) && sorted.to_set() == ids
}

/// Two ascending sequences with the same elements are the same sequence.
pub proof fn lemma_ascending_unique(a: Seq<UserId>, b: Seq<UserId>)
    requires
        ascending(a),
        ascending(b),
        a.to_set() == b.to_set(),
    ensures
        a == b,
    decreases a.len(),
{
    if a.len() == 0 {
        if b.len() > 0 {
            assert(b.to_set().contains(b[0]));
            assert(a.to_set().contains(b[0]));
        }
        assert(a =~= b);
    } else {
        let top = a.last();
        assert(a.to_set().contains(top));
        assert(b.to_set().contains(top));
        let at = choose|i: int| 0 <= i < b.len() && b[i] == top;
        if at != b.len() - 1 {
            let above = b.last();
            assert(b.to_set().contains(above));
            assert(a.to_set().contains(above));
            let k = choose|i: int| 0 <= i < a.len() && a[i] == above;
            assert(a[k] <= top);
        }
        let a_rest = a.drop_last();
        let b_rest = b.drop_last();
        assert forall|x: UserId| a_rest.to_set().contains(x) <==> b_rest.to_set().contains(x) by {
            if a_rest.to_set().contains(x) {
                let i = choose|i: int| 0 <= i < a_rest.len() && a_rest[i] == x;
                assert(a[i] == x);
                assert(a.to_set().contains(x));
                assert(b.to_set().contains(x));
                let j = choose|j: int| 0 <= j < b.len() && b[j] == x;
                assert(b_rest[j] == x);
            }
            if b_rest.to_set().contains(x) {
                let i = choose|i: int| 0 <= i < b_rest.len() && b_rest[i] == x;
                assert(b[i] == x);
                assert(b.to_set().contains(x));
                assert(a.to_set().contains(x));
                let j = choose|j: int| 0 <= j < a.len() && a[j] == x;
                assert(a_rest[j] == x);
            }
        }
        assert(a_rest.to_set() =~= b_rest.to_set());
        lemma_ascending_unique(a_rest, b_rest);
        assert(a =~= a_rest.push(top));
        assert(b =~= b_rest.push(top));
    }
}

/// What a `BTreeSet` of ids hands out goes up from each element to the next.
pub proof fn lemma_increasing_ascends(ids: Seq<&UserId>)
    requires
        increasing_seq(ids),
    ensures
        ascending(ids.unref()),
{
    broadcast use vstd::laws_cmp::group_laws_cmp;

    assert(vstd::laws_cmp::obeys_cmp::<UserId>());
    assert(vstd::laws_cmp::obeys_cmp::<&UserId>());
    vstd::std_specs::btree::axiom_increasing_seq_meaning(ids);
    assert forall|i: int, j: int| 0 <= i < j < ids.len() implies ids.unref()[i] < ids.unref()[j] by {
        assert(OrdSpec::cmp_spec(&ids[i], &ids[j]) is Less);
    }
}

/// Every list of ids has a sorted form: the sorted form of the set of its
/// elements goes up and holds these elements and no others.
pub proof fn lemma_sorted_set_exists(ids: Seq<UserId>)
    ensures
        ascending(sorted_set(ids.to_set())),
        sorted_set(ids.to_set()).to_set() == ids.to_set(),
    decreases ids.len(),
{
    if ids.len() == 0 {
        let none = Seq::<UserId>::empty();
        assert(none.to_set() =~= ids.to_set());
        assert(ascending(none) && none.to_set() == ids.to_set());
    } else {
        let rest = ids.drop_last();
        let last = ids.last();
        lemma_sorted_set_exists(rest);
        let sorted = sorted_set(rest.to_set());
        assert(ids =~= rest.push(last));
        crate::seqs::lemma_push_to_set(rest, last);
        let with_last = inserted(sorted, last);
        lemma_inserted(sorted, last);
        assert(ascending(with_last) && with_last.to_set() == ids.to_set());
    }
}

/// `sorted` with `id` put in its place, unless it is there.
pub open spec fn inserted(sorted: Seq<UserId>, id: UserId) -> Seq<UserId>
    decreases sorted.len(),
{
    if sorted.len() == 0 {
        seq![id]
    } else if sorted.last() < id {
        sorted.push(id)
    } else if sorted.last() == id {
        sorted
    } else {
        inserted(sorted.drop_last(), id).push(sorted.last())
    }
}

/// Putting an id in its place keeps a list ascending and adds the id to
/// its elements.
pub proof fn lemma_inserted(sorted: Seq<UserId>, id: UserId)
    requires
        ascending(sorted),
    ensures
        ascending(inserted(sorted, id)),
        inserted(sorted, id).to_set() == sorted.to_set().insert(id),
        inserted(sorted, id).len() > 0,
        inserted(sorted, id).last() == if sorted.len() > 0 && sorted.last() > id {
            sorted.last()
        } else {
            id
        },
    decreases sorted.len(),
{
    let result = inserted(sorted, id);
    if sorted.len() == 0 {
        assert(result.to_set() =~= sorted.to_set().insert(id)) by {
            assert(result[0] == id);
            assert forall|x: UserId| result.to_set().contains(x) <==> sorted.to_set().insert(
                id,
            ).contains(x) by {
                if sorted.to_set().contains(x) {
                    let i = choose|i: int| 0 <= i < sorted.len() && sorted[i] == x;
                }
            }
        }
    } else if sorted.last() < id {
        crate::seqs::lemma_push_to_set(sorted, id);
    } else if sorted.last() == id {
        assert(sorted.to_set().contains(sorted[sorted.len() - 1]));
        assert(sorted.to_set().insert(id) =~= sorted.to_set());
    } else {
        let rest = sorted.drop_last();
        let top = sorted.last();
        lemma_inserted(rest, id);
        let inner = inserted(rest, id);
        crate::seqs::lemma_push_to_set(inner, top);
        assert(sorted =~= rest.push(top));
        crate::seqs::lemma_push_to_set(rest, top);
        assert(inner.push(top).to_set() =~= sorted.to_set().insert(id));
        assert(inner.last() < top) by {
            if rest.len() > 0 && rest.last() > id {
                assert(rest.last() == sorted[sorted.len() - 2]);
            }
        }
        assert forall|i: int, j: int| 0 <= i < j < result.len() implies result[i] < result[j] by {
            if j == result.len() - 1 {
                if i < inner.len() - 1 {
                    assert(inner[i] < inner[inner.len() - 1]);
                }
            } else {
                assert(inner[i] < inner[j]);
            }
        }
    }
}

/// An ascending sequence is the sorted form of the set of its elements.
pub proof fn lemma_sorted_set_of(ids: Seq<UserId>)
    requires
        ascending(ids),
    ensures
        sorted_set(ids.to_set()) == ids,
{
    let chosen = sorted_set(ids.to_set());
    assert(ascending(chosen) && chosen.to_set() == ids.to_set());
    lemma_ascending_unique(chosen, ids);
}

} // verus!
