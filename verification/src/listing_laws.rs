use vstd::prelude::*;
use crate::instant::Timestamp;
use crate::listing::{newest_first, slot, ItemView};

verus! {

/// Whether no item of a listing stands before a newer one.
pub open spec fn ordered(listing: Seq<ItemView>) -> bool {
    forall|i: int, j: int|
        0 <= i < j < listing.len() ==> !(#[trigger] listing[i]).pub_datetime.is_before(
            (#[trigger] listing[j]).pub_datetime,
        )
}

/// Whether no two items were published at the same time.
pub open spec fn distinct_times(items: Seq<ItemView>) -> bool {
    forall|i: int, j: int|
        0 <= i < j < items.len() ==> (#[trigger] items[i]).pub_datetime != (
        #[trigger] items[j]).pub_datetime
}

/// The place of a new item lies behind the items that are not older than it and, in an
/// ordered listing, before those that are.
pub proof fn lemma_slot(listing: Seq<ItemView>, stamp: Timestamp)
    ensures
        0 <= slot(listing, stamp) <= listing.len(),
        forall|k: int|
            0 <= k < slot(listing, stamp) ==> !(#[trigger] listing[k]).pub_datetime.is_before(
                stamp,
            ),
        ordered(listing) ==> forall|k: int|
            slot(listing, stamp) <= k < listing.len() ==> (
            #[trigger] listing[k]).pub_datetime.is_before(stamp),
    decreases listing.len(),
{
    if listing.len() > 0 {
        let rest = listing.skip(1);
        lemma_slot(rest, stamp);
        assert forall|k: int| 0 <= k < slot(listing, stamp) implies !(
        #[trigger] listing[k]).pub_datetime.is_before(stamp) by {
            if k > 0 {
                assert(listing[k] == rest[k - 1]);
            }
        }
        if ordered(listing) {
            assert(ordered(rest)) by {
                assert forall|i: int, j: int| 0 <= i < j < rest.len() implies !(
                #[trigger] rest[i]).pub_datetime.is_before((#[trigger] rest[j]).pub_datetime) by {
                    assert(rest[i] == listing[i + 1]);
                    assert(rest[j] == listing[j + 1]);
                }
            }
            assert forall|k: int| slot(listing, stamp) <= k < listing.len() implies (
            #[trigger] listing[k]).pub_datetime.is_before(stamp) by {
                if listing[0].pub_datetime.is_before(stamp) {
                    if k > 0 {
                        assert(!listing[0].pub_datetime.is_before(listing[k].pub_datetime));
                    }
                } else {
                    assert(listing[k] == rest[k - 1]);
                }
            }
        }
    }
}

/// A listing has as many items as it was made of, each of them one of these, and none of
/// them stands before a newer one.
pub proof fn lemma_newest_first_is_ordered(items: Seq<ItemView>)
    ensures
        newest_first(items).len() == items.len(),
        ordered(newest_first(items)),
        forall|k: int|
            0 <= k < items.len() ==> items.contains(#[trigger] newest_first(items)[k]),
    decreases items.len(),
{
    if items.len() > 0 {
        let before = newest_first(items.drop_last());
        let item = items.last();
        let at = slot(before, item.pub_datetime);
        lemma_newest_first_is_ordered(items.drop_last());
        lemma_slot(before, item.pub_datetime);
        let after = before.insert(at, item);
        assert forall|i: int, j: int| 0 <= i < j < after.len() implies !(
        #[trigger] after[i]).pub_datetime.is_before((#[trigger] after[j]).pub_datetime) by {
            if j < at {
                assert(after[i] == before[i] && after[j] == before[j]);
            } else if j == at {
                assert(after[i] == before[i]);
            } else if i < at {
                assert(after[i] == before[i] && after[j] == before[j - 1]);
            } else if i == at {
                assert(after[j] == before[j - 1]);
            } else {
                assert(after[i] == before[i - 1] && after[j] == before[j - 1]);
            }
        }
        assert forall|k: int| 0 <= k < items.len() implies items.contains(
            #[trigger] after[k],
        ) by {
            if k == at {
                assert(items[items.len() - 1] == item);
            } else {
                let m = if k < at {
                    k
                } else {
                    k - 1
                };
                assert(after[k] == before[m]);
                assert(items.drop_last().contains(before[m]));
                let n = choose|n: int|
                    0 <= n < items.drop_last().len() && items.drop_last()[n] == before[m];
                assert(items[n] == before[m]);
            }
        }
    }
}

/// A listing holds each item as often as what it was made of holds it.
pub proof fn lemma_newest_first_keeps_items(items: Seq<ItemView>)
    ensures
        newest_first(items).to_multiset() == items.to_multiset(),
    decreases items.len(),
{
    broadcast use vstd::seq_lib::group_to_multiset_ensures;

    if items.len() == 0 {
    } else {
        let before = newest_first(items.drop_last());
        let item = items.last();
        lemma_newest_first_keeps_items(items.drop_last());
        lemma_slot(before, item.pub_datetime);
        assert(items == items.drop_last().push(item));
        before.to_multiset_ensures();
        items.drop_last().to_multiset_ensures();
        assert(before.insert(slot(before, item.pub_datetime), item).to_multiset()
            == before.to_multiset().insert(item));
        assert(items.drop_last().push(item).to_multiset() == items.drop_last().to_multiset().insert(
            item,
        ));
    }
}

/// Articles published at different times are listed from the newest to the oldest,
/// whatever the order in which they were found.
pub proof fn lemma_distinct_times_descend(items: Seq<ItemView>)
    requires
        distinct_times(items),
    ensures
        forall|i: int, j: int|
            0 <= i < j < items.len() ==> (#[trigger] newest_first(items)[j]).pub_datetime.is_before(
                (#[trigger] newest_first(items)[i]).pub_datetime,
            ),
    decreases items.len(),
{
    if items.len() > 0 {
        let before = newest_first(items.drop_last());
        let item = items.last();
        let at = slot(before, item.pub_datetime);
        assert(distinct_times(items.drop_last())) by {
            assert forall|i: int, j: int| 0 <= i < j < items.drop_last().len() implies (
            #[trigger] items.drop_last()[i]).pub_datetime != (
            #[trigger] items.drop_last()[j]).pub_datetime by {
                assert(items.drop_last()[i] == items[i]);
                assert(items.drop_last()[j] == items[j]);
            }
        }
        lemma_distinct_times_descend(items.drop_last());
        lemma_newest_first_is_ordered(items.drop_last());
        lemma_slot(before, item.pub_datetime);
        let after = before.insert(at, item);
        assert forall|k: int| 0 <= k < before.len() implies (
        #[trigger] before[k]).pub_datetime != item.pub_datetime by {
            assert(items.drop_last().contains(before[k]));
            let n = choose|n: int|
                0 <= n < items.drop_last().len() && items.drop_last()[n] == before[k];
            assert(items[n] == before[k]);
            assert(items[items.len() - 1] == item);
        }
        assert forall|i: int, j: int| 0 <= i < j < after.len() implies (
        #[trigger] after[j]).pub_datetime.is_before((#[trigger] after[i]).pub_datetime) by {
            if j < at {
                assert(after[i] == before[i] && after[j] == before[j]);
            } else if j == at {
                assert(after[i] == before[i]);
            } else if i < at {
                assert(after[i] == before[i] && after[j] == before[j - 1]);
            } else if i == at {
                assert(after[j] == before[j - 1]);
            } else {
                assert(after[i] == before[i - 1] && after[j] == before[j - 1]);
            }
        }
    }
}

/// Articles published at the same time are listed in the order in which they were found:
/// of two such items, the one found first stands before the other.
pub proof fn lemma_equal_times_keep_order(items: Seq<ItemView>, i: int, j: int)
    requires
        0 <= i < j < items.len(),
        items[i].pub_datetime == items[j].pub_datetime,
    ensures
        exists|p: int, q: int|
            0 <= p < q < items.len() && #[trigger] newest_first(items)[p] == items[i]
                && #[trigger] newest_first(items)[q] == items[j],
    decreases items.len(),
{
    let found = items.drop_last();
    let before = newest_first(found);
    let item = items.last();
    let at = slot(before, item.pub_datetime);
    let after = before.insert(at, item);
    lemma_newest_first_is_ordered(found);
    lemma_slot(before, item.pub_datetime);
    if j == items.len() - 1 {
        lemma_newest_first_keeps_items(found);
        found.to_multiset_ensures();
        before.to_multiset_ensures();
        assert(found[i] == items[i]);
        assert(found.contains(items[i]));
        assert(found.to_multiset().count(items[i]) > 0);
        assert(before.to_multiset().count(items[i]) > 0);
        assert(before.contains(items[i]));
        let p = choose|p: int| 0 <= p < before.len() && before[p] == items[i];
        assert(!before[p].pub_datetime.is_before(item.pub_datetime));
        assert(p < at);
        assert(newest_first(items) == after);
        assert(0 <= p < at < items.len() && newest_first(items)[p] == items[i] && newest_first(
            items,
        )[at] == items[j]);
    } else {
        assert(found[i] == items[i] && found[j] == items[j]);
        lemma_equal_times_keep_order(found, i, j);
        let (p, q) = choose|p: int, q: int|
            0 <= p < q < found.len() && #[trigger] before[p] == found[i] && #[trigger] before[q]
                == found[j];
        let to = if p < at {
            p
        } else {
            p + 1
        };
        let tq = if q < at {
            q
        } else {
            q + 1
        };
        assert(newest_first(items) == after);
        assert(0 <= to < tq < items.len() && newest_first(items)[to] == items[i] && newest_first(
            items,
        )[tq] == items[j]);
    }
}

} // verus!
