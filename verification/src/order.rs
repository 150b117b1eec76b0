//! Putting a payout order into ascending position.

use vstd::prelude::*;
use vstd::seq_lib::*;
use crate::state::{ascending, holders_distinct, positions_distinct, Slot};

verus! {

/// Where an entry with `position` goes into `order`: directly behind the last
/// entry whose position is not greater, or at the front if there is none.
pub open spec fn insertion_point(order: Seq<Slot>, position: u8) -> int
    decreases order.len(),
{
    if order.len() == 0 {
        0
    } else if order.last().1 <= position {
        order.len() as int
    } else {
        insertion_point(order.drop_last(), position)
    }
}

/// The entries of `order` by ascending position; entries with the same
/// position keep the order they had.
pub open spec fn sorted_by_position(order: Seq<Slot>) -> Seq<Slot>
    decreases order.len(),
{
    if order.len() == 0 {
        Seq::empty()
    } else {
        let rest = sorted_by_position(order.drop_last());
        rest.insert(insertion_point(rest, order.last().1), order.last())
    }
}

/// The insertion point lies within the sequence, everything from it on has a
/// greater position, and the entry before it has not.
pub proof fn lemma_insertion_point(order: Seq<Slot>, position: u8)
    ensures
        0 <= insertion_point(order, position) <= order.len(),
        forall|i: int|
            insertion_point(order, position) <= i < order.len() ==> (#[trigger] order[i]).1
                > position,
        insertion_point(order, position) > 0 ==> order[insertion_point(order, position) - 1].1
            <= position,
    decreases order.len(),
{
    if order.len() > 0 && order.last().1 > position {
        let front = order.drop_last();
        lemma_insertion_point(front, position);
        assert forall|i: int| insertion_point(order, position) <= i < order.len() implies (
        #[trigger] order[i]).1 > position by {
            if i < front.len() {
                assert(order[i] == front[i]);
            }
        }
    }
}

/// Sorting keeps every entry, as often as it occurred, and leaves the
/// positions ascending.
pub proof fn lemma_sorted_by_position(order: Seq<Slot>)
    ensures
        sorted_by_position(order).len() == order.len(),
        sorted_by_position(order).to_multiset() == order.to_multiset(),
        ascending(sorted_by_position(order)),
        forall|e: Slot| sorted_by_position(order).contains(e) <==> order.contains(e),
    decreases order.len(),
{
    let sorted = sorted_by_position(order);
    if order.len() == 0 {
        assert(order =~= Seq::empty());
    } else {
        let front = order.drop_last();
        let entry = order.last();
        let rest = sorted_by_position(front);
        let at = insertion_point(rest, entry.1);
        lemma_sorted_by_position(front);
        lemma_insertion_point(rest, entry.1);
        to_multiset_insert(rest, at, entry);
        to_multiset_build(front, entry);
        assert(order =~= front.push(entry));
        assert forall|i: int, j: int| 0 <= i < j < sorted.len() implies sorted[i].1
            <= sorted[j].1 by {
            if j < at {
                assert(sorted[i] == rest[i] && sorted[j] == rest[j]);
            } else if j == at {
                assert(sorted[i] == rest[i]);
                assert(rest[i].1 <= rest[at - 1].1);
            } else if i < at {
                assert(sorted[i] == rest[i] && sorted[j] == rest[j - 1]);
                assert(rest[j - 1].1 > entry.1);
                assert(rest[i].1 <= rest[at - 1].1);
            } else if i == at {
                assert(sorted[j] == rest[j - 1]);
                assert(rest[j - 1].1 > entry.1);
            } else {
                assert(sorted[i] == rest[i - 1] && sorted[j] == rest[j - 1]);
            }
        }
    }
    assert forall|e: Slot| sorted.contains(e) <==> order.contains(e) by {
        to_multiset_contains(sorted, e);
        to_multiset_contains(order, e);
    }
}

/// Whether an entry holds `position`.
pub open spec fn holds(position: u8) -> spec_fn(Slot) -> bool {
    |e: Slot| e.1 == position
}

/// The entries of `order` that hold `position`, in the order they have there.
pub open spec fn holding(order: Seq<Slot>, position: u8) -> Seq<Slot> {
    order.filter(holds(position))
}

/// Sorting is stable: the entries that hold one position come out in the
/// order in which they went in.
pub proof fn lemma_sorted_is_stable(order: Seq<Slot>, position: u8)
    ensures
        holding(sorted_by_position(order), position) == holding(order, position),
    decreases order.len(),
{
    let pred = holds(position);
    if order.len() > 0 {
        let front = order.drop_last();
        let entry = order.last();
        let rest = sorted_by_position(front);
        let at = insertion_point(rest, entry.1);
        lemma_sorted_is_stable(front, position);
        lemma_sorted_by_position(front);
        lemma_insertion_point(rest, entry.1);
        let head = rest.take(at);
        let tail = rest.skip(at);
        assert(rest =~= head + tail);
        assert(rest.insert(at, entry) =~= head.push(entry) + tail);
        Seq::filter_distributes_over_add(head, tail, pred);
        Seq::filter_distributes_over_add(head.push(entry), tail, pred);
        head.lemma_filter_push(entry, pred);
        front.lemma_filter_push(entry, pred);
        assert(order =~= front.push(entry));
        if entry.1 == position {
            let kept = tail.filter(pred);
            if kept.len() > 0 {
                tail.lemma_filter_pred(pred, 0);
                assert(kept.contains(kept[0]));
                tail.lemma_filter_contains_rev(pred, kept[0]);
                let k = choose|k: int| 0 <= k < tail.len() && tail[k] == kept[0];
                assert(tail[k] == rest[at + k]);
                assert(false);
            }
            assert(kept =~= Seq::empty());
            assert(head.filter(pred).push(entry) + kept =~= head.filter(pred).push(entry));
            assert(head.filter(pred) + kept =~= head.filter(pred));
        }
    } else {
        assert(order =~= Seq::empty());
    }
}

/// Sorting an order in which no position and no member occurs twice gives
/// one of which the same holds.
pub proof fn lemma_sorted_keeps_distinct(order: Seq<Slot>)
    requires
        positions_distinct(order),
        holders_distinct(order),
    ensures
        positions_distinct(sorted_by_position(order)),
        holders_distinct(sorted_by_position(order)),
    decreases order.len(),
{
    let sorted = sorted_by_position(order);
    if order.len() > 0 {
        let front = order.drop_last();
        let entry = order.last();
        let rest = sorted_by_position(front);
        let at = insertion_point(rest, entry.1);
        lemma_sorted_keeps_distinct(front);
        lemma_sorted_by_position(front);
        lemma_insertion_point(rest, entry.1);
        assert forall|k: int| 0 <= k < rest.len() implies (#[trigger] rest[k]).1 != entry.1
            && rest[k].0 != entry.0 by {
            assert(rest.contains(rest[k]));
            assert(front.contains(rest[k]));
            let m = choose|m: int| 0 <= m < front.len() && front[m] == rest[k];
            assert(order[m] == rest[k]);
            assert(order[order.len() - 1] == entry);
        }
        assert forall|i: int, j: int| 0 <= i < j < sorted.len() implies sorted[i].1
            != sorted[j].1 && sorted[i].0 != sorted[j].0 by {
            let a = if i < at { i } else { i - 1 };
            let b = if j < at { j } else { j - 1 };
            if i == at {
                assert(sorted[j] == rest[b]);
            } else if j == at {
                assert(sorted[i] == rest[a]);
            } else {
                assert(sorted[i] == rest[a] && sorted[j] == rest[b]);
            }
        }
    }
}

/// In an order of `n` entries whose positions ascend, differ from one another
/// and lie in one to `n`, the entry at index `i` holds position `i + 1`.
pub proof fn lemma_full_order_ranks(order: Seq<Slot>, i: int)
    requires
        ascending(order),
        positions_distinct(order),
        forall|k: int| 0 <= k < order.len() ==> 1 <= (#[trigger] order[k]).1 <= order.len(),
        0 <= i < order.len(),
    ensures
        order[i].1 == i + 1,
{
    lemma_rank_from_below(order, i);
    lemma_rank_from_above(order, i);
}

proof fn lemma_rank_from_below(order: Seq<Slot>, i: int)
    requires
        ascending(order),
        positions_distinct(order),
        forall|k: int| 0 <= k < order.len() ==> 1 <= (#[trigger] order[k]).1,
        0 <= i < order.len(),
    ensures
        order[i].1 >= i + 1,
    decreases i,
{
    if i > 0 {
        lemma_rank_from_below(order, i - 1);
        assert(order[i - 1].1 <= order[i].1 && order[i - 1].1 != order[i].1);
    }
}

proof fn lemma_rank_from_above(order: Seq<Slot>, i: int)
    requires
        ascending(order),
        positions_distinct(order),
        forall|k: int| 0 <= k < order.len() ==> (#[trigger] order[k]).1 <= order.len(),
        0 <= i < order.len(),
    ensures
        order[i].1 <= i + 1,
    decreases order.len() - i,
{
    if i + 1 < order.len() {
        lemma_rank_from_above(order, i + 1);
        assert(order[i].1 <= order[i + 1].1 && order[i].1 != order[i + 1].1);
    }
}

/// Sorts a payout order by position.
pub fn sort_by_position(order: &Vec<Slot>) -> (sorted: Vec<Slot>)
    ensures
        sorted@ == sorted_by_position(order@),
{
    let mut sorted: Vec<Slot> = Vec::new();
    let mut i: usize = 0;
    assert(order@.take(0) =~= Seq::empty());
    while i < order.len()
        invariant
            i <= order.len(),
            sorted@ == sorted_by_position(order@.take(i as int)),
        decreases order.len() - i,
    {
        let entry = order[i];
        let mut at: usize = sorted.len();
        assert(sorted@.take(at as int) =~= sorted@);
        while at > 0 && sorted[at - 1].1 > entry.1
            invariant
                at <= sorted.len(),
                insertion_point(sorted@, entry.1) == insertion_point(
                    sorted@.take(at as int),
                    entry.1,
                ),
            decreases at,
        {
            assert(sorted@.take(at as int).drop_last() =~= sorted@.take(at - 1));
            at -= 1;
        }
        proof {
            assert(order@.take(i + 1).drop_last() =~= order@.take(i as int));
            assert(order@.take(i + 1).last() == entry);
        }
        sorted.insert(at, entry);
        i += 1;
    }
    assert(order@.take(i as int) =~= order@);
    sorted
}

} // verus!
