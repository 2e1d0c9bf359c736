//! Frecency ranking: frequent and recent projects first.
//!
//! The score of a record is its access count, decayed exponentially by the
//! hours since its last access. The decay is computed in floating point by
//! the caller; this module computes the age that goes into it and orders
//! the records once each has its score, given as an integer key whose
//! order is the order of the scores.
//!
//! Records with equal scores keep the order in which they were given, which
//! from the store is the order of first insertion.

use crate::storage::models::{ProjectRecord, ProjectRecordView};
use vstd::prelude::*;

verus! {

/// The age of a record at `now` in seconds: the time since its last access,
/// never negative; 0 for a record that was never accessed.
pub open spec fn age_of(last_accessed: Option<i64>, now: i64) -> int {
    match last_accessed {
        Some(then) => if now - then > 0 {
            now - then
        } else {
            0
        },
        None => 0,
    }
}

/// The age of `record` at `now` in seconds.
pub fn age_seconds(record: &ProjectRecord, now: i64) -> (age: u64)
    ensures
        age == age_of(record.last_accessed, now),
{
    match record.last_accessed {
        Some(then) => {
            let elapsed: i128 = now as i128 - then as i128;
            if elapsed > 0 {
                elapsed as u64
            } else {
                0
            }
        },
        None => 0,
    }
}

/// A record that was never accessed has no age, so nothing of its access
/// count decays.
pub proof fn lemma_never_accessed_has_no_age(now: i64)
    ensures
        age_of(None, now) == 0,
{
}

/// After the last access the age grows with the time: of two moments, the
/// later one gives the larger age. Before the last access the age is 0.
pub proof fn lemma_age_grows_with_time(last_accessed: i64, earlier: i64, later: i64)
    requires
        earlier < later,
    ensures
        age_of(Some(last_accessed), earlier) <= age_of(Some(last_accessed), later),
        last_accessed <= earlier ==> age_of(Some(last_accessed), earlier) < age_of(
            Some(last_accessed),
            later,
        ),
        later <= last_accessed ==> age_of(Some(last_accessed), later) == 0,
{
}

/// The key of the record at `index`: the one given for it, and 0 where
/// none was given.
pub open spec fn key_at(keys: Seq<u64>, index: int) -> u64 {
    if 0 <= index < keys.len() {
        keys[index]
    } else {
        0
    }
}

/// `order` with `index` put behind every index whose key is at least as
/// large, and before the others. `order` is taken to be in descending order
/// of keys.
pub open spec fn placed(order: Seq<int>, keys: Seq<u64>, index: int) -> Seq<int>
    decreases order.len(),
{
    if order.len() == 0 {
        seq![index]
    } else if key_at(keys, order.last()) >= key_at(keys, index) {
        order.push(index)
    } else {
        placed(order.drop_last(), keys, index).push(order.last())
    }
}

/// The indices `0..count` in descending order of their keys; indices with
/// equal keys in ascending order.
pub open spec fn rank_order(keys: Seq<u64>, count: nat) -> Seq<int>
    decreases count,
{
    if count == 0 {
        Seq::empty()
    } else {
        placed(rank_order(keys, (count - 1) as nat), keys, count - 1)
    }
}

/// The records in the order of [`rank_order`].
pub open spec fn ranked(records: Seq<ProjectRecordView>, keys: Seq<u64>) -> Seq<ProjectRecordView> {
    rank_order(keys, records.len()).map_values(|index: int| records[index])
}

/// Whether `order` lists each of `0..count` exactly once.
pub open spec fn is_arrangement(order: Seq<int>, count: nat) -> bool {
    &&& order.len() == count
    &&& forall|k: int| 0 <= k < order.len() ==> 0 <= #[trigger] order[k] < count
    &&& forall|a: int, b: int| 0 <= a < b < order.len() ==> order[a] != order[b]
}

/// Whether `order` goes by descending keys, and by ascending index where
/// the keys are equal.
pub open spec fn is_ranked(order: Seq<int>, keys: Seq<u64>) -> bool {
    forall|a: int, b: int|
        0 <= a < b < order.len() ==> {
            ||| key_at(keys, #[trigger] order[a]) > key_at(keys, #[trigger] order[b])
            ||| (key_at(keys, order[a]) == key_at(keys, order[b]) && order[a] < order[b])
        }
}

proof fn lemma_placed(order: Seq<int>, keys: Seq<u64>, index: int)
    requires
        is_arrangement(order, index as nat),
        is_ranked(order, keys),
        0 <= index,
    ensures
        is_arrangement(placed(order, keys, index), (index + 1) as nat),
        is_ranked(placed(order, keys, index), keys),
        placed(order, keys, index).to_set() == order.to_set().insert(index),
    decreases order.len(),
{
    lemma_placed_shape(order, keys, index);
    let at = place_of(order, keys, index);
    let result = placed(order, keys, index);
    assert(result =~= order.take(at).push(index) + order.skip(at));
    assert forall|k: int| 0 <= k < result.len() implies 0 <= #[trigger] result[k] < index + 1 by {
        if k < at {
            assert(result[k] == order[k]);
        } else if k > at {
            assert(result[k] == order[k - 1]);
        }
    }
    assert forall|a: int, b: int| 0 <= a < b < result.len() implies result[a] != result[b] by {
        let oa = if a < at { a } else { a - 1 };
        let ob = if b < at { b } else { b - 1 };
        if a != at && b != at {
            assert(result[a] == order[oa] && result[b] == order[ob]);
        }
    }
    assert forall|a: int, b: int| 0 <= a < b < result.len() implies ({
        ||| key_at(keys, #[trigger] result[a]) > key_at(keys, #[trigger] result[b])
        ||| (key_at(keys, result[a]) == key_at(keys, result[b]) && result[a] < result[b])
    }) by {
        let oa = if a < at { a } else { a - 1 };
        let ob = if b < at { b } else { b - 1 };
        if a != at && b != at {
            assert(result[a] == order[oa] && result[b] == order[ob]);
        } else if a == at {
            assert(result[b] == order[ob]);
            assert(key_at(keys, order[ob]) < key_at(keys, index));
        } else {
            assert(result[a] == order[oa]);
            assert(key_at(keys, order[oa]) >= key_at(keys, index));
            assert(order[oa] < index);
        }
    }
    assert(result.to_set() =~= order.to_set().insert(index)) by {
        assert forall|v: int| result.to_set().contains(v) <==> order.to_set().insert(
            index,
        ).contains(v) by {
            if result.to_set().contains(v) {
                let k = choose|k: int| 0 <= k < result.len() && result[k] == v;
                if k < at {
                    assert(order[k] == v);
                } else if k > at {
                    assert(order[k - 1] == v);
                }
            }
            if order.to_set().contains(v) {
                let k = choose|k: int| 0 <= k < order.len() && order[k] == v;
                if k < at {
                    assert(result[k] == v);
                } else {
                    assert(result[k + 1] == v);
                }
            }
            if v == index {
                assert(result[at] == v);
            }
        }
    }
}

/// Where [`placed`] puts the new index: behind the last index of `order`
/// whose key is at least as large.
pub open spec fn place_of(order: Seq<int>, keys: Seq<u64>, index: int) -> int
    decreases order.len(),
{
    if order.len() == 0 {
        0
    } else if key_at(keys, order.last()) >= key_at(keys, index) {
        order.len() as int
    } else {
        place_of(order.drop_last(), keys, index)
    }
}

proof fn lemma_placed_shape(order: Seq<int>, keys: Seq<u64>, index: int)
    ensures
        0 <= place_of(order, keys, index) <= order.len(),
        placed(order, keys, index) == order.take(place_of(order, keys, index)).push(index)
            + order.skip(place_of(order, keys, index)),
        forall|k: int|
            place_of(order, keys, index) <= k < order.len() ==> key_at(keys, #[trigger] order[k])
                < key_at(keys, index),
        place_of(order, keys, index) > 0 ==> key_at(
            keys,
            order[place_of(order, keys, index) - 1],
        ) >= key_at(keys, index),
    decreases order.len(),
{
    let at = place_of(order, keys, index);
    if order.len() == 0 {
        assert(placed(order, keys, index) =~= order.take(at).push(index) + order.skip(at));
    } else if key_at(keys, order.last()) >= key_at(keys, index) {
        assert(placed(order, keys, index) =~= order.take(at).push(index) + order.skip(at));
    } else {
        let front = order.drop_last();
        lemma_placed_shape(front, keys, index);
        assert(front.take(at) =~= order.take(at));
        assert(front.skip(at).push(order.last()) =~= order.skip(at));
        assert(placed(order, keys, index) =~= order.take(at).push(index) + order.skip(at));
        assert forall|k: int| at <= k < order.len() implies key_at(keys, #[trigger] order[k])
            < key_at(keys, index) by {
            if k < front.len() {
                assert(front[k] == order[k]);
            }
        }
        if at > 0 {
            assert(front[at - 1] == order[at - 1]);
        }
    }
}

/// The ranking lists every record exactly once, in descending order of the
/// keys, and records with equal keys in the order in which they were given.
pub proof fn lemma_rank_order(keys: Seq<u64>, count: nat)
    ensures
        is_arrangement(rank_order(keys, count), count),
        is_ranked(rank_order(keys, count), keys),
    decreases count,
{
    if count > 0 {
        lemma_rank_order(keys, (count - 1) as nat);
        lemma_placed(rank_order(keys, (count - 1) as nat), keys, count - 1);
    }
}

fn key_of(keys: &Vec<u64>, index: usize) -> (key: u64)
    ensures
        key == key_at(keys@, index as int),
{
    if index < keys.len() {
        keys[index]
    } else {
        0
    }
}

/// The view of a list of indices as mathematical integers.
pub open spec fn indices(order: Seq<usize>) -> Seq<int> {
    order.map_values(|index: usize| index as int)
}

fn place(order: &mut Vec<usize>, keys: &Vec<u64>, index: usize)
    requires
        old(order).len() < usize::MAX,
    ensures
        indices(final(order)@) == placed(indices(old(order)@), keys@, index as int),
{
    let ghost before = indices(order@);
    let key = key_of(keys, index);
    let mut at: usize = order.len();
    assert(before.take(at as int) =~= before);
    assert(placed(before, keys@, index as int) =~= placed(before, keys@, index as int)
        + before.skip(at as int));
    while at > 0 && key_of(keys, order[at - 1]) < key
        invariant
            at <= order.len(),
            order@ == old(order)@,
            before == indices(order@),
            key == key_at(keys@, index as int),
            placed(before, keys@, index as int) == placed(
                before.take(at as int),
                keys@,
                index as int,
            ) + before.skip(at as int),
        decreases at,
    {
        proof {
            let part = before.take(at as int);
            assert(part.last() == order@[at - 1] as int);
            assert(part.drop_last() =~= before.take(at - 1));
            assert(placed(part.drop_last(), keys@, index as int).push(part.last()) + before.skip(
                at as int,
            ) =~= placed(part.drop_last(), keys@, index as int) + before.skip(at - 1));
        }
        at -= 1;
    }
    proof {
        let part = before.take(at as int);
        if at > 0 {
            assert(part.last() == order@[at - 1] as int);
        }
        assert(placed(part, keys@, index as int) == part.push(index as int));
    }
    order.insert(at, index);
    assert(indices(order@) =~= before.take(at as int).push(index as int) + before.skip(at as int));
}

/// The indices of `count` records in ranking order.
fn ranking(keys: &Vec<u64>, count: usize) -> (order: Vec<usize>)
    ensures
        indices(order@) == rank_order(keys@, count as nat),
        order.len() == count,
        forall|k: int| 0 <= k < order.len() ==> order@[k] < count,
{
    let mut order: Vec<usize> = Vec::new();
    let mut i: usize = 0;
    assert(indices(order@) =~= Seq::<int>::empty());
    while i < count
        invariant
            i <= count,
            order.len() == i,
            indices(order@) == rank_order(keys@, i as nat),
        decreases count - i,
    {
        place(&mut order, keys, i);
        i += 1;
        proof {
            lemma_rank_order(keys@, i as nat);
            assert(indices(order@).len() == order.len());
        }
    }
    proof {
        lemma_rank_order(keys@, count as nat);
        assert forall|k: int| 0 <= k < order.len() implies order@[k] < count by {
            assert(indices(order@)[k] == order@[k] as int);
        }
    }
    order
}

/// Puts the records in frecency order. `keys` gives a key for each record,
/// by position; a larger key stands for a higher score. A record without a
/// key has key 0. Records with equal keys keep their order.
pub fn sort_by_frecency(records: &mut Vec<ProjectRecord>, keys: &Vec<u64>)
    ensures
        final(records).deep_view() == ranked(old(records).deep_view(), keys@),
        final(records).len() == old(records).len(),
{
    let order = ranking(keys, records.len());
    let mut sorted: Vec<ProjectRecord> = Vec::new();
    let ghost views = records.deep_view();
    let ghost pick = |index: int| views[index];
    let mut i: usize = 0;
    assert(sorted.deep_view() =~= indices(order@).take(0).map_values(pick));
    while i < order.len()
        invariant
            i <= order.len(),
            order.len() == records.len(),
            views == records.deep_view(),
            pick == (|index: int| views[index]),
            forall|k: int| 0 <= k < order.len() ==> order@[k] < records.len(),
            sorted.deep_view() == indices(order@).take(i as int).map_values(pick),
        decreases order.len() - i,
    {
        let ghost before = sorted.deep_view();
        sorted.push(records[order[i]].clone());
        i += 1;
        assert(sorted.deep_view() =~= before.push(views[order@[i - 1] as int]));
        assert(sorted.deep_view() =~= indices(order@).take(i as int).map_values(pick));
    }
    assert(indices(order@).take(order.len() as int) =~= indices(order@));
    *records = sorted;
}

} // verus!
