//! The order in which matching elements are offered.

use vstd::prelude::*;
use crate::element_semantics as semantics;
use crate::element_semantics::{
    has_snapshot_visible_bbox,
    is_prefer_enabled_blocked_in_snapshot,
};
use crate::model::{Element, ElementModel};
use crate::model;

verus! {

/// The place of an element: by its number, and after all others where blocked
/// elements are demoted and it is one.
pub open spec fn rank(e: ElementModel, demote: bool) -> int {
    if demote && (semantics::disabled(e) || semantics::readonly(e)) {
        0x1_0000_0000 + e.index
    } else {
        e.index as int
    }
}

fn rank_of(e: &Element, demote: bool) -> (r: u64)
    ensures
        r == rank(e@, demote),
{
    if demote && is_prefer_enabled_blocked_in_snapshot(e) {
        0x1_0000_0000u64 + e.index as u64
    } else {
        e.index as u64
    }
}

/// `s` with `e` put behind the elements that do not come after it.
pub open spec fn insert_ranked(s: Seq<ElementModel>, e: ElementModel, demote: bool) -> Seq<
    ElementModel,
>
    decreases s.len(),
{
    if s.len() == 0 || rank(s.last(), demote) <= rank(e, demote) {
        s.push(e)
    } else {
        insert_ranked(s.drop_last(), e, demote).push(s.last())
    }
}

/// The elements in their order; those of one place stay as they were.
pub open spec fn ranked(s: Seq<ElementModel>, demote: bool) -> Seq<ElementModel>
    decreases s.len(),
{
    if s.len() == 0 {
        s
    } else {
        insert_ranked(ranked(s.drop_last(), demote), s.last(), demote)
    }
}

/// The elements are in their order.
pub open spec fn in_order(s: Seq<ElementModel>, demote: bool) -> bool {
    forall|i: int, j: int|
        0 <= i < j < s.len() ==> rank(#[trigger] s[i], demote) <= rank(#[trigger] s[j], demote)
}

/// The elements of one place, in order.
pub open spec fn at_rank(s: Seq<ElementModel>, demote: bool, k: int) -> Seq<ElementModel>
    decreases s.len(),
{
    if s.len() == 0 {
        s
    } else {
        let front = at_rank(s.drop_last(), demote, k);
        if rank(s.last(), demote) == k {
            front.push(s.last())
        } else {
            front
        }
    }
}

proof fn insert_ranked_properties(s: Seq<ElementModel>, e: ElementModel, demote: bool)
    ensures
        insert_ranked(s, e, demote).to_multiset() == s.to_multiset().insert(e),
        insert_ranked(s, e, demote).len() == s.len() + 1,
        in_order(s, demote) ==> in_order(insert_ranked(s, e, demote), demote),
    decreases s.len(),
{
    broadcast use vstd::seq_lib::group_to_multiset_ensures;

    if s.len() == 0 || rank(s.last(), demote) <= rank(e, demote) {
        assert(s.push(e).to_multiset() =~= s.to_multiset().insert(e));
    } else {
        let front = s.drop_last();
        insert_ranked_properties(front, e, demote);
        let inner = insert_ranked(front, e, demote);
        assert(s =~= front.push(s.last()));
        assert(front.push(s.last()).to_multiset() =~= front.to_multiset().insert(s.last()));
        assert(inner.push(s.last()).to_multiset() =~= inner.to_multiset().insert(s.last()));
        assert(s.to_multiset().insert(e) =~= front.to_multiset().insert(e).insert(s.last()));
        if in_order(s, demote) {
            assert(in_order(front, demote)) by {
                assert forall|i: int, j: int| 0 <= i < j < front.len() implies rank(
                    #[trigger] front[i],
                    demote,
                ) <= rank(#[trigger] front[j], demote) by {
                    assert(front[i] == s[i] && front[j] == s[j]);
                }
            }
            let all = inner.push(s.last());
            assert forall|i: int, j: int| 0 <= i < j < all.len() implies rank(
                #[trigger] all[i],
                demote,
            ) <= rank(#[trigger] all[j], demote) by {
                if j < inner.len() {
                    assert(all[i] == inner[i] && all[j] == inner[j]);
                } else {
                    assert(inner.to_multiset().count(inner[i]) > 0);
                    if inner[i] != e {
                        assert(front.to_multiset().count(inner[i]) > 0);
                        let m = choose|m: int| 0 <= m < front.len() && front[m] == inner[i];
                        assert(s[m] == inner[i]);
                        assert(rank(s[m], demote) <= rank(s[s.len() - 1], demote));
                    }
                }
            }
        }
    }
}

proof fn at_rank_push(s: Seq<ElementModel>, e: ElementModel, demote: bool, k: int)
    ensures
        at_rank(s.push(e), demote, k) == (if rank(e, demote) == k {
            at_rank(s, demote, k).push(e)
        } else {
            at_rank(s, demote, k)
        }),
{
    assert(s.push(e).drop_last() =~= s);
}

proof fn insert_ranked_is_stable(s: Seq<ElementModel>, e: ElementModel, demote: bool, k: int)
    ensures
        at_rank(insert_ranked(s, e, demote), demote, k) == at_rank(s.push(e), demote, k),
    decreases s.len(),
{
    if s.len() > 0 && rank(s.last(), demote) > rank(e, demote) {
        let front = s.drop_last();
        let inner = insert_ranked(front, e, demote);
        insert_ranked_is_stable(front, e, demote, k);
        at_rank_push(s, e, demote, k);
        at_rank_push(front, e, demote, k);
        at_rank_push(front, s.last(), demote, k);
        at_rank_push(inner, s.last(), demote, k);
        assert(front.push(s.last()) =~= s);
    }
}

/// Ordering loses and adds nothing, puts the elements in their order, and
/// leaves those of one place as they were.
pub proof fn ranked_is_a_stable_sort(s: Seq<ElementModel>, demote: bool)
    ensures
        ranked(s, demote).to_multiset() == s.to_multiset(),
        ranked(s, demote).len() == s.len(),
        in_order(ranked(s, demote), demote),
        forall|k: int| #[trigger] at_rank(ranked(s, demote), demote, k) == at_rank(s, demote, k),
    decreases s.len(),
{
    broadcast use vstd::seq_lib::group_to_multiset_ensures;

    if s.len() > 0 {
        let front = s.drop_last();
        let done = ranked(front, demote);
        ranked_is_a_stable_sort(front, demote);
        insert_ranked_properties(done, s.last(), demote);
        assert(s =~= front.push(s.last()));
        assert(front.push(s.last()).to_multiset() =~= front.to_multiset().insert(s.last()));
        assert forall|k: int| #[trigger]
            at_rank(ranked(s, demote), demote, k) == at_rank(s, demote, k) by {
            insert_ranked_is_stable(done, s.last(), demote, k);
            assert(done.push(s.last()).drop_last() =~= done);
            assert(at_rank(done, demote, k) == at_rank(front, demote, k));
        }
    }
}

/// Puts the elements in their order.
pub fn rank_elements(elements: Vec<Element>, demote: bool) -> (r: Vec<Element>)
    ensures
        model::element_models(r@) == ranked(model::element_models(elements@), demote),
{
    let ghost all = model::element_models(elements@);
    let n: usize = elements.len();
    let mut rest = elements;
    let mut out: Vec<Element> = Vec::new();
    let mut i: usize = 0;
    assert(model::element_models(out@) =~= ranked(all.take(0), demote));
    while i < n
        invariant
            i <= n == all.len(),
            rest@.len() == n - i,
            model::element_models(rest@) == all.skip(i as int),
            model::element_models(out@) == ranked(all.take(i as int), demote),
        decreases n - i,
    {
        let ghost before = rest@;
        let e = rest.remove(0);
        proof {
            assert(model::element_models(before)[0] == e@);
            assert(all.take(i + 1).drop_last() =~= all.take(i as int));
            assert forall|j: int| 0 <= j < rest@.len() implies #[trigger] rest@[j]@
                == all.skip(i + 1)[j] by {
                assert(rest@[j] == before[j + 1]);
                assert(model::element_models(before)[j + 1] == all.skip(i as int)[j + 1]);
            }
            assert(model::element_models(rest@) =~= all.skip(i + 1));
        }
        insert_element(&mut out, e, demote);
        i += 1;
    }
    assert(all.take(i as int) =~= all);
    out
}

fn insert_element(out: &mut Vec<Element>, e: Element, demote: bool)
    ensures
        model::element_models(final(out)@) == insert_ranked(
            model::element_models(old(out)@),
            e@,
            demote,
        ),
{
    let ghost all = model::element_models(out@);
    let place: u64 = rank_of(&e, demote);
    let mut at: usize = out.len();
    assert(all.take(at as int) =~= all);
    assert(all.skip(at as int) =~= seq![]);
    assert(insert_ranked(all, e@, demote) + all.skip(at as int) =~= insert_ranked(all, e@, demote));
    while at > 0 && rank_of(&out[at - 1], demote) > place
        invariant
            at <= out@.len(),
            all == model::element_models(out@),
            place == rank(e@, demote),
            insert_ranked(all, e@, demote) == insert_ranked(all.take(at as int), e@, demote)
                + all.skip(at as int),
        decreases at,
    {
        proof {
            let s = all.take(at as int);
            assert(s.drop_last() =~= all.take(at - 1));
            assert(s.last() == all[at - 1]);
            assert(insert_ranked(s.drop_last(), e@, demote).push(s.last()) + all.skip(at as int)
                =~= insert_ranked(s.drop_last(), e@, demote) + all.skip(at - 1));
        }
        at -= 1;
    }
    proof {
        let s = all.take(at as int);
        if at > 0 {
            assert(s.last() == all[at - 1]);
        }
        assert(insert_ranked(s, e@, demote) == s.push(e@));
        assert(s.push(e@) + all.skip(at as int) =~= all.insert(at as int, e@));
    }
    out.insert(at, e);
    assert(model::element_models(out@) =~= all.insert(at as int, e@));
}

/// The elements that have an area on the page.
pub open spec fn visible(s: Seq<ElementModel>) -> Seq<ElementModel>
    decreases s.len(),
{
    if s.len() == 0 {
        s
    } else {
        let front = visible(s.drop_last());
        if semantics::visible_bbox(s.last().bounding_box) {
            front.push(s.last())
        } else {
            front
        }
    }
}

/// Keeps the elements that have an area on the page.
pub fn retain_visible(elements: Vec<Element>) -> (r: Vec<Element>)
    ensures
        model::element_models(r@) == visible(model::element_models(elements@)),
{
    let ghost all = model::element_models(elements@);
    let n: usize = elements.len();
    let mut rest = elements;
    let mut out: Vec<Element> = Vec::new();
    let mut i: usize = 0;
    assert(model::element_models(out@) =~= visible(all.take(0)));
    while i < n
        invariant
            i <= n == all.len(),
            rest@.len() == n - i,
            model::element_models(rest@) == all.skip(i as int),
            model::element_models(out@) == visible(all.take(i as int)),
        decreases n - i,
    {
        let ghost before = rest@;
        let e = rest.remove(0);
        proof {
            assert(model::element_models(before)[0] == e@);
            assert(all.take(i + 1).drop_last() =~= all.take(i as int));
            assert forall|j: int| 0 <= j < rest@.len() implies #[trigger] rest@[j]@
                == all.skip(i + 1)[j] by {
                assert(rest@[j] == before[j + 1]);
                assert(model::element_models(before)[j + 1] == all.skip(i as int)[j + 1]);
            }
            assert(model::element_models(rest@) =~= all.skip(i + 1));
        }
        if has_snapshot_visible_bbox(&e) {
            let ghost before = out@;
            out.push(e);
            assert(model::element_models(out@) =~= model::element_models(before).push(e@));
        }
        i += 1;
    }
    assert(all.take(i as int) =~= all);
    out
}

/// Elements that are in their order stay as they are.
pub proof fn ranked_of_ordered(s: Seq<ElementModel>, demote: bool)
    requires
        in_order(s, demote),
    ensures
        ranked(s, demote) == s,
    decreases s.len(),
{
    if s.len() > 0 {
        let front = s.drop_last();
        assert(in_order(front, demote)) by {
            assert forall|i: int, j: int| 0 <= i < j < front.len() implies rank(
                #[trigger] front[i],
                demote,
            ) <= rank(#[trigger] front[j], demote) by {
                assert(front[i] == s[i] && front[j] == s[j]);
            }
        }
        ranked_of_ordered(front, demote);
        if front.len() > 0 {
            assert(front.last() == s[s.len() - 2]);
            assert(rank(s[s.len() - 2], demote) <= rank(s[s.len() - 1], demote));
        }
        assert(front.push(s.last()) =~= s);
    }
}

/// Ordering keeps exactly the elements that were there.
pub proof fn ranked_members(s: Seq<ElementModel>, demote: bool)
    ensures
        forall|e: ElementModel| #[trigger] ranked(s, demote).contains(e) <==> s.contains(e),
{
    broadcast use vstd::seq_lib::group_to_multiset_ensures;

    ranked_is_a_stable_sort(s, demote);
    assert forall|e: ElementModel| #[trigger] ranked(s, demote).contains(e) <==> s.contains(e) by {
        assert(ranked(s, demote).to_multiset().count(e) == s.to_multiset().count(e));
    }
}

/// How many elements stand at a lower place than `k`.
pub open spec fn below(s: Seq<ElementModel>, demote: bool, k: int) -> nat
    decreases s.len(),
{
    if s.len() == 0 {
        0
    } else {
        below(s.drop_last(), demote, k) + if rank(s.last(), demote) < k {
            1nat
        } else {
            0nat
        }
    }
}

proof fn insert_ranked_below(s: Seq<ElementModel>, e: ElementModel, demote: bool, k: int)
    ensures
        below(insert_ranked(s, e, demote), demote, k) == below(s, demote, k) + if rank(e, demote)
            < k {
            1nat
        } else {
            0nat
        },
    decreases s.len(),
{
    if s.len() == 0 || rank(s.last(), demote) <= rank(e, demote) {
        assert(s.push(e).drop_last() =~= s);
    } else {
        let inner = insert_ranked(s.drop_last(), e, demote);
        insert_ranked_below(s.drop_last(), e, demote, k);
        assert(inner.push(s.last()).drop_last() =~= inner);
    }
}

proof fn ranked_below(s: Seq<ElementModel>, demote: bool, k: int)
    ensures
        below(ranked(s, demote), demote, k) == below(s, demote, k),
    decreases s.len(),
{
    if s.len() > 0 {
        ranked_below(s.drop_last(), demote, k);
        insert_ranked_below(ranked(s.drop_last(), demote), s.last(), demote, k);
    }
}

proof fn none_above(t: Seq<ElementModel>, demote: bool, k: int)
    requires
        forall|i: int| 0 <= i < t.len() ==> rank(#[trigger] t[i], demote) <= k,
    ensures
        t.len() == below(t, demote, k) + at_rank(t, demote, k).len(),
    decreases t.len(),
{
    if t.len() > 0 {
        let front = t.drop_last();
        assert forall|i: int| 0 <= i < front.len() implies rank(#[trigger] front[i], demote)
            <= k by {
            assert(front[i] == t[i]);
        }
        none_above(front, demote, k);
        assert(rank(t[t.len() - 1], demote) <= k);
    }
}

proof fn place_in_order(t: Seq<ElementModel>, demote: bool, n: int)
    requires
        in_order(t, demote),
        0 <= n < t.len(),
    ensures
        ({
            let k = rank(t[n], demote);
            let j = n - below(t, demote, k);
            &&& 0 <= j < at_rank(t, demote, k).len()
            &&& at_rank(t, demote, k)[j] == t[n]
        }),
    decreases t.len(),
{
    let k = rank(t[n], demote);
    let front = t.drop_last();
    if n == t.len() - 1 {
        assert forall|i: int| 0 <= i < front.len() implies rank(#[trigger] front[i], demote)
            <= k by {
            assert(front[i] == t[i]);
        }
        none_above(front, demote, k);
    } else {
        assert(in_order(front, demote)) by {
            assert forall|i: int, j: int| 0 <= i < j < front.len() implies rank(
                #[trigger] front[i],
                demote,
            ) <= rank(#[trigger] front[j], demote) by {
                assert(front[i] == t[i] && front[j] == t[j]);
            }
        }
        place_in_order(front, demote, n);
        assert(rank(t[n], demote) <= rank(t[t.len() - 1], demote));
    }
}

/// The element at a place of the order has as many before it as the place says:
/// those that rank lower, and of those that rank alike the ones that came before.
pub proof fn places_count_what_comes_before(s: Seq<ElementModel>, demote: bool, n: int)
    requires
        0 <= n < s.len(),
    ensures
        ({
            let e = ranked(s, demote)[n];
            let k = rank(e, demote);
            let j = n - below(s, demote, k);
            &&& s.contains(e)
            &&& 0 <= j < at_rank(s, demote, k).len()
            &&& at_rank(s, demote, k)[j] == e
        }),
{
    let t = ranked(s, demote);
    let k = rank(t[n], demote);
    ranked_is_a_stable_sort(s, demote);
    ranked_members(s, demote);
    assert(t.contains(t[n]));
    ranked_below(s, demote, k);
    place_in_order(t, demote, n);
    assert(at_rank(t, demote, k) == at_rank(s, demote, k));
}

/// Without a preference elements go by their number. With it, those that can be
/// used go before those that are disabled or cannot be written to, and each of
/// the two by number.
pub proof fn ranks_go_by_use_and_number(a: ElementModel, b: ElementModel)
    ensures
        rank(a, false) <= rank(b, false) <==> a.index <= b.index,
        ({
            let blocked_a = semantics::disabled(a) || semantics::readonly(a);
            let blocked_b = semantics::disabled(b) || semantics::readonly(b);
            rank(a, true) <= rank(b, true) <==> (!blocked_a && blocked_b) || (blocked_a
                == blocked_b && a.index <= b.index)
        }),
{
}

/// Leaving out what has no area keeps every other element, each as often as it
/// was there and in the order that they had.
pub proof fn visible_keeps_what_has_an_area(s: Seq<ElementModel>, t: Seq<ElementModel>)
    ensures
        visible(s + t) == visible(s) + visible(t),
        forall|e: ElementModel| #[trigger]
            visible(seq![e]) == if semantics::visible_bbox(e.bounding_box) {
                seq![e]
            } else {
                seq![]
            },
    decreases t.len(),
{
    if t.len() == 0 {
        assert(s + t =~= s);
        assert(visible(s) + visible(t) =~= visible(s));
    } else {
        visible_keeps_what_has_an_area(s, t.drop_last());
        assert((s + t).drop_last() =~= s + t.drop_last());
        assert((s + t).last() == t.last());
        assert(visible(s + t) =~= visible(s) + visible(t));
    }
    assert forall|e: ElementModel| #[trigger]
        visible(seq![e]) == if semantics::visible_bbox(e.bounding_box) {
            seq![e]
        } else {
            seq![]
        } by {
        let none = Seq::<ElementModel>::empty();
        assert(seq![e].drop_last() =~= none);
        assert(visible(none) =~= none);
        assert(visible(seq![e]) =~= if semantics::visible_bbox(e.bounding_box) {
            seq![e]
        } else {
            seq![]
        });
    }
}

} // verus!
