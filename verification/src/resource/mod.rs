//! Resources, and the steps that all of them share: rows that were loaded in any order are
//! brought into the order of the resources they belong to.

pub mod comment;
pub mod field;
pub mod laws;
pub mod pool;
pub mod post;
pub mod tag;
pub mod user;

use std::collections::{HashMap, HashSet};
use std::sync::Arc;
use vstd::prelude::*;
use vstd::slice::slice_subrange;

verus! {

broadcast use {vstd::std_specs::hash::group_hash_axioms, vstd::seq_lib::group_seq_properties};

/// A record with a primary key.
pub trait Identified {
    spec fn key(&self) -> i64;

    fn id(&self) -> (id: i64)
        ensures
            id == self.key(),
    ;
}

/// The primary keys of the records, in their order.
pub open spec fn keys<V: Identified>(values: Seq<V>) -> Seq<i64> {
    values.map_values(|value: V| value.key())
}

/// The primary keys of the records, in their order.
pub fn ids_of<V: Identified>(values: &[V]) -> (ids: Vec<i64>)
    ensures
        ids@ == keys(values@),
{
    let mut ids: Vec<i64> = Vec::new();
    for at in 0..values.len()
        invariant
            ids@ == keys(values@.take(at as int)),
    {
        ids.push(values[at].id());
        assert(keys(values@.take(at + 1)) =~= keys(values@.take(at as int)).push(
            values@[at as int].key(),
        ));
    }
    assert(values@.take(values@.len() as int) =~= values@);
    ids
}

/// The first record with the given key.
pub open spec fn record<V: Identified>(values: Seq<V>, id: i64) -> Option<V>
    decreases values.len(),
{
    if values.len() == 0 {
        None
    } else if values[0].key() == id {
        Some(values[0])
    } else {
        record(values.drop_first(), id)
    }
}

/// The value of the first row with the given key.
pub open spec fn lookup<T>(rows: Seq<(i64, T)>, id: i64) -> Option<T>
    decreases rows.len(),
{
    if rows.len() == 0 {
        None
    } else if rows[0].0 == id {
        Some(rows[0].1)
    } else {
        lookup(rows.drop_first(), id)
    }
}

/// A key that can be looked up is the key of some row.
pub proof fn lemma_lookup_row<T>(rows: Seq<(i64, T)>, id: i64)
    ensures
        lookup(rows, id) is Some <==> exists|row: int|
            0 <= row < rows.len() && (#[trigger] rows[row]).0 == id,
    decreases rows.len(),
{
    if rows.len() > 0 {
        let rest = rows.drop_first();
        lemma_lookup_row(rest, id);
        if exists|row: int| 0 <= row < rest.len() && (#[trigger] rest[row]).0 == id {
            let row = choose|row: int| 0 <= row < rest.len() && (#[trigger] rest[row]).0 == id;
            assert(rows[row + 1].0 == id);
        }
        if exists|row: int| 0 <= row < rows.len() && (#[trigger] rows[row]).0 == id {
            let row = choose|row: int| 0 <= row < rows.len() && (#[trigger] rows[row]).0 == id;
            if row > 0 {
                assert(rest[row - 1].0 == id);
            }
        }
    }
}

/// A parent that can be looked up has children.
pub proof fn lemma_lookup_children<T>(rows: Seq<(i64, T)>, id: i64)
    requires
        lookup(rows, id) is Some,
    ensures
        children_of(rows, id).len() > 0,
{
    lemma_lookup_row(rows, id);
    let row = choose|row: int| 0 <= row < rows.len() && (#[trigger] rows[row]).0 == id;
    rows.lemma_filter_contains(belongs_to(id), row);
    assert(rows.filter(belongs_to(id)).contains(rows[row]));
}

/// A key that can be looked up is a key of the map.
pub proof fn lemma_lookup_collected<T>(rows: Seq<(i64, T)>, id: i64)
    ensures
        collected(rows).contains_key(id) <==> lookup(rows, id) is Some,
    decreases rows.len(),
{
    lemma_lookup_row(rows, id);
    if rows.len() > 0 {
        let rest = rows.drop_last();
        lemma_lookup_collected(rest, id);
        lemma_lookup_row(rest, id);
        if lookup(rows, id) is Some && rows.last().0 != id {
            let row = choose|row: int| 0 <= row < rows.len() && (#[trigger] rows[row]).0 == id;
            assert(rest[row].0 == id);
        }
        if lookup(rest, id) is Some {
            let row = choose|row: int| 0 <= row < rest.len() && (#[trigger] rest[row]).0 == id;
            assert(rows[row].0 == id);
        }
    }
}

/// No two rows have one key.
pub open spec fn has_distinct_keys<T>(rows: Seq<(i64, T)>) -> bool {
    forall|i: int, j: int|
        0 <= i < j < rows.len() ==> (#[trigger] rows[i]).0 != (#[trigger] rows[j]).0
}

proof fn lemma_lookup_distinct<T>(rows: Seq<(i64, T)>, row: int)
    requires
        has_distinct_keys(rows),
        0 <= row < rows.len(),
    ensures
        lookup(rows, rows[row].0) == Some(rows[row].1),
    decreases rows.len(),
{
    if row > 0 {
        assert(rows.drop_first()[row - 1] == rows[row]);
        lemma_lookup_distinct(rows.drop_first(), row - 1);
    }
}

/// Values that are the same but for their order: each of them is found among the others.
proof fn lemma_same_values<T>(values: Seq<T>, reordered: Seq<T>)
    requires
        values.to_multiset() == reordered.to_multiset(),
        values.no_duplicates(),
    ensures
        reordered.no_duplicates(),
        forall|value: T| #[trigger] values.contains(value) <==> reordered.contains(value),
{
    broadcast use vstd::seq_lib::group_to_multiset_ensures;

    values.lemma_multiset_has_no_duplicates();
    reordered.lemma_multiset_has_no_duplicates_conv();
    assert forall|value: T| #[trigger] values.contains(value) <==> reordered.contains(value) by {
        assert(values.contains(value) <==> values.to_multiset().count(value) > 0);
        assert(reordered.contains(value) <==> reordered.to_multiset().count(value) > 0);
    }
}

/// The order in which rows with distinct keys are loaded makes no difference to what is found in
/// them.
pub proof fn law_load_order_is_irrelevant<T>(
    rows: Seq<(i64, T)>,
    reordered: Seq<(i64, T)>,
    id: i64,
)
    requires
        rows.to_multiset() == reordered.to_multiset(),
        has_distinct_keys(rows),
    ensures
        lookup(rows, id) == lookup(reordered, id),
{
    lemma_same_values(rows, reordered);
    assert forall|i: int, j: int| 0 <= i < j < reordered.len() implies (#[trigger] reordered[i]).0
        != (#[trigger] reordered[j]).0 by {
        assert(rows.contains(reordered[i]) && rows.contains(reordered[j]));
        let (k, l) = (rows.index_of(reordered[i]), rows.index_of(reordered[j]));
        assert(rows[k] == reordered[i] && rows[l] == reordered[j] && k != l);
    }
    lemma_lookup_row(rows, id);
    lemma_lookup_row(reordered, id);
    if lookup(rows, id) is Some {
        let row = choose|row: int| 0 <= row < rows.len() && (#[trigger] rows[row]).0 == id;
        lemma_lookup_distinct(rows, row);
        assert(rows.contains(rows[row]));
        assert(reordered.contains(rows[row]));
        lemma_lookup_distinct(reordered, reordered.index_of(rows[row]));
    } else if lookup(reordered, id) is Some {
        let row = choose|row: int|
            0 <= row < reordered.len() && (#[trigger] reordered[row]).0 == id;
        assert(reordered.contains(reordered[row]) && rows.contains(reordered[row]));
        assert(rows[rows.index_of(reordered[row])].0 == id);
    }
}

/// Each of the keys has a row.
pub open spec fn covers<T>(rows: Seq<(i64, T)>, ids: Seq<i64>) -> bool {
    forall|i: int| 0 <= i < ids.len() ==> lookup(rows, #[trigger] ids[i]) is Some
}

/// Finds the value of the first row with the given key.
pub fn find<T>(rows: &Vec<(i64, T)>, id: i64) -> (found: Option<&T>)
    ensures
        match found {
            Some(value) => lookup(rows@, id) == Some(*value),
            None => lookup(rows@, id) is None,
        },
{
    assert(rows@.skip(0) =~= rows@);
    for at in 0..rows.len()
        invariant
            lookup(rows@, id) == lookup(rows@.skip(at as int), id),
    {
        if rows[at].0 == id {
            return Some(&rows[at].1);
        }
        assert(rows@.skip(at as int).drop_first() =~= rows@.skip(at + 1));
    }
    None
}

/// Whether `id` is one of the keys.
pub fn has_id(ids: &[i64], id: i64) -> (found: bool)
    ensures
        found == ids@.contains(id),
{
    for at in 0..ids.len()
        invariant
            forall|i: int| 0 <= i < at ==> #[trigger] ids@[i] != id,
    {
        if ids[at] == id {
            assert(ids@[at as int] == id);
            return true;
        }
    }
    false
}

/// Whether each of the keys has a row.
pub fn has_rows<T>(rows: &Vec<(i64, T)>, ids: &[i64]) -> (all: bool)
    ensures
        all == covers(rows@, ids@),
{
    for at in 0..ids.len()
        invariant
            forall|i: int| 0 <= i < at ==> lookup(rows@, #[trigger] ids@[i]) is Some,
    {
        if find(rows, ids[at]).is_none() {
            assert(lookup(rows@, ids@[at as int]) is None);
            return false;
        }
    }
    true
}

/// The statistic of each of the keys, in the order of the keys.
pub fn order_transformed_as<T: Copy>(rows: &Vec<(i64, T)>, ids: &[i64]) -> (ordered: Vec<T>)
    requires
        covers(rows@, ids@),
    ensures
        ordered@.len() == ids@.len(),
        forall|i: int|
            0 <= i < ids@.len() ==> Some(#[trigger] ordered@[i]) == lookup(rows@, ids@[i]),
{
    let mut ordered: Vec<T> = Vec::new();
    for at in 0..ids.len()
        invariant
            covers(rows@, ids@),
            ordered@.len() == at,
            forall|i: int|
                0 <= i < at ==> Some(#[trigger] ordered@[i]) == lookup(rows@, ids@[i]),
    {
        let id = ids[at];
        assert(lookup(rows@, ids@[at as int]) is Some);
        if let Some(value) = find(rows, id) {
            ordered.push(*value);
        }
    }
    ordered
}

/// The records that `order_as` can bring into the given order: each key occurs once, and each
/// has a record.
pub open spec fn can_order<V: Identified>(values: Seq<V>, order: Seq<i64>) -> bool {
    &&& order.no_duplicates()
    &&& forall|i: int| 0 <= i < order.len() ==> record(values, #[trigger] order[i]) is Some
}

/// The records with the given keys, in the order of the keys.
pub open spec fn ordered<V: Identified>(values: Seq<V>, order: Seq<i64>) -> Seq<V> {
    order.map_values(|id: i64| record(values, id)->0)
}

proof fn lemma_record_after_remove<V: Identified>(values: Seq<V>, at: int, id: i64)
    requires
        0 <= at < values.len(),
        values[at].key() != id,
    ensures
        record(values.remove(at), id) == record(values, id),
    decreases values.len(),
{
    if at == 0 {
        assert(values.remove(0) =~= values.drop_first());
    } else {
        assert(values.remove(at)[0] == values[0]);
        assert(values.remove(at).drop_first() =~= values.drop_first().remove(at - 1));
        if values[0].key() != id {
            lemma_record_after_remove(values.drop_first(), at - 1, id);
        }
    }
}

proof fn lemma_record_row<V: Identified>(values: Seq<V>, id: i64)
    ensures
        match record(values, id) {
            Some(value) => values.contains(value) && value.key() == id,
            None => !keys(values).contains(id),
        },
    decreases values.len(),
{
    if values.len() > 0 {
        let rest = values.drop_first();
        lemma_record_row(rest, id);
        if values[0].key() == id {
            assert(values.contains(values[0]));
        } else if let Some(value) = record(rest, id) {
            assert(values[rest.index_of(value) + 1] == value);
        } else if keys(values).contains(id) {
            let i = keys(values).index_of(id);
            assert(keys(rest)[i - 1] == id);
        }
    }
}

/// The order in which records with distinct keys are loaded makes no difference to the order
/// that they are brought into.
pub proof fn law_load_order_of_records_is_irrelevant<V: Identified>(
    values: Seq<V>,
    reordered: Seq<V>,
    order: Seq<i64>,
)
    requires
        values.to_multiset() == reordered.to_multiset(),
        keys(values).no_duplicates(),
    ensures
        can_order(values, order) == can_order(reordered, order),
        ordered(values, order) == ordered(reordered, order),
{
    assert forall|i: int, j: int|
        0 <= i < values.len() && 0 <= j < values.len() && i != j implies values[i] != values[j] by {
        assert(keys(values)[i] != keys(values)[j]);
    }
    lemma_same_values(values, reordered);
    assert forall|id: i64| #[trigger] record(values, id) == record(reordered, id) by {
        lemma_record_row(values, id);
        lemma_record_row(reordered, id);
        match (record(values, id), record(reordered, id)) {
            (Some(value), Some(other)) => {
                assert(values.contains(other));
                let (i, j) = (values.index_of(value), values.index_of(other));
                assert(keys(values)[i] == keys(values)[j]);
            },
            (Some(value), None) => {
                assert(keys(reordered)[reordered.index_of(value)] == id);
            },
            (None, Some(other)) => {
                assert(values.contains(other));
                assert(keys(values)[values.index_of(other)] == id);
            },
            (None, None) => {},
        }
    }
    assert(ordered(values, order) =~= ordered(reordered, order));
}

/// Finds the first record with the given key.
fn position<V: Identified>(values: &Vec<V>, id: i64) -> (found: Option<usize>)
    ensures
        match found {
            Some(at) => at < values@.len() && values@[at as int].key() == id && record(values@, id)
                == Some(values@[at as int]),
            None => record(values@, id) is None,
        },
{
    assert(values@.skip(0) =~= values@);
    for at in 0..values.len()
        invariant
            record(values@, id) == record(values@.skip(at as int), id),
    {
        if values[at].id() == id {
            return Some(at);
        }
        assert(values@.skip(at as int).drop_first() =~= values@.skip(at + 1));
    }
    None
}

/// Whether the records can be brought into the given order.
pub fn is_orderable<V: Identified>(values: &Vec<V>, order: &[i64]) -> (orderable: bool)
    ensures
        orderable == can_order(values@, order@),
{
    for at in 0..order.len()
        invariant
            order@.take(at as int).no_duplicates(),
            forall|i: int| 0 <= i < at ==> record(values@, #[trigger] order@[i]) is Some,
    {
        for earlier in 0..at
            invariant
                at < order@.len(),
                forall|i: int| 0 <= i < earlier ==> #[trigger] order@[i] != order@[at as int],
        {
            if order[earlier] == order[at] {
                assert(order@[earlier as int] == order@[at as int]);
                return false;
            }
        }
        if position(values, order[at]).is_none() {
            assert(record(values@, order@[at as int]) is None);
            return false;
        }
        assert(order@.take(at + 1) =~= order@.take(at as int).push(order@[at as int]));
    }
    assert(order@.take(order@.len() as int) =~= order@);
    true
}

/// Brings the records into the order of the given keys.
pub fn order_as<V: Identified>(values: Vec<V>, order: &[i64]) -> (ordered: Vec<V>)
    requires
        can_order(values@, order@),
    ensures
        ordered@ == self::ordered(values@, order@),
        keys(ordered@) == order@,
{
    let ghost given = values@;
    let mut rest = values;
    let mut ordered: Vec<V> = Vec::new();
    for at in 0..order.len()
        invariant
            can_order(given, order@),
            ordered@.len() == at,
            forall|i: int|
                0 <= i < at ==> Some(#[trigger] ordered@[i]) == record(given, order@[i])
                    && ordered@[i].key() == order@[i],
            forall|i: int|
                at <= i < order@.len() ==> record(rest@, #[trigger] order@[i]) == record(
                    given,
                    order@[i],
                ),
    {
        assert(record(given, order@[at as int]) is Some);
        if let Some(found) = position(&rest, order[at]) {
            let ghost before = rest@;
            ordered.push(rest.remove(found));
            assert forall|i: int| at < i < order@.len() implies record(
                rest@,
                #[trigger] order@[i],
            ) == record(given, order@[i]) by {
                lemma_record_after_remove(before, found as int, order@[i]);
            }
        }
    }
    assert(keys(ordered@) =~= order@);
    assert(ordered@ =~= self::ordered(given, order@));
    ordered
}

/// Tells the children of one parent.
pub open spec fn belongs_to<T>(parent: i64) -> spec_fn((i64, T)) -> bool {
    |child: (i64, T)| child.0 == parent
}

/// The children of one parent, in the order in which they come among all children.
pub open spec fn children_of<T>(children: Seq<(i64, T)>, parent: i64) -> Seq<T> {
    children.filter(belongs_to(parent)).map_values(|child: (i64, T)| child.1)
}

/// The children that go to the parent at position `at`. Where a parent occurs more than once,
/// its last occurrence gets them all.
pub open spec fn group<T>(children: Seq<(i64, T)>, parents: Seq<i64>, at: int) -> Seq<T> {
    if exists|later: int| at < later < parents.len() && #[trigger] parents[later] == parents[at] {
        Seq::empty()
    } else {
        children_of(children, parents[at])
    }
}

pub proof fn lemma_children_push<T>(children: Seq<(i64, T)>, child: (i64, T), parent: i64)
    ensures
        children_of(children.push(child), parent) == (if child.0 == parent {
            children_of(children, parent).push(child.1)
        } else {
            children_of(children, parent)
        }),
{
    reveal(Seq::filter);
    let belongs = belongs_to::<T>(parent);
    assert(children.push(child).drop_last() =~= children);
    if child.0 == parent {
        assert(children.push(child).filter(belongs) == children.filter(belongs).push(child));
    }
    assert(children_of(children.push(child), parent) =~= (if child.0 == parent {
        children_of(children, parent).push(child.1)
    } else {
        children_of(children, parent)
    }));
}

/// What a group holds comes from a row of its parent.
pub proof fn lemma_group_member<T>(
    children: Seq<(i64, T)>,
    parents: Seq<i64>,
    at: int,
    k: int,
) -> (row: int)
    requires
        0 <= at < parents.len(),
        0 <= k < group(children, parents, at).len(),
    ensures
        0 <= row < children.len(),
        children[row].0 == parents[at],
        children[row].1 == group(children, parents, at)[k],
{
    let belongs = belongs_to::<T>(parents[at]);
    let kept = children.filter(belongs);
    assert(kept.contains(kept[k]));
    children.lemma_filter_pred(belongs, k);
    children.lemma_filter_contains_rev(belongs, kept[k]);
    children.index_of(kept[k])
}

/// Groups the children by their parents, in the order of the parents. Children of none of the
/// parents are left out.
pub fn grouped_by<T>(children: Vec<(i64, T)>, parents: &[i64]) -> (groups: Vec<Vec<T>>)
    ensures
        groups@.len() == parents@.len(),
        forall|i: int|
            0 <= i < parents@.len() ==> (#[trigger] groups@[i])@ == group(children@, parents@, i),
{
    let mut indices: HashMap<i64, usize> = HashMap::new();
    let mut groups: Vec<Vec<T>> = Vec::new();
    for at in 0..parents.len()
        invariant
            groups@.len() == at,
            forall|i: int| 0 <= i < at ==> (#[trigger] groups@[i])@ == Seq::<T>::empty(),
            forall|id: i64| #[trigger]
                indices@.contains_key(id) ==> last_position(
                    parents@.take(at as int),
                    id,
                    indices@[id] as int,
                ),
            forall|i: int| 0 <= i < at ==> indices@.contains_key(#[trigger] parents@[i]),
    {
        groups.push(Vec::new());
        indices.insert(parents[at], at);
    }
    assert(parents@.take(parents@.len() as int) =~= parents@);
    let ghost all = children@;
    assert forall|i: int| 0 <= i < parents@.len() implies group(
        all.take(0),
        parents@,
        i,
    ) == Seq::<T>::empty() by {
        reveal(Seq::filter);
        assert(children_of(all.take(0), parents@[i]) =~= Seq::empty());
    }
    for child in rows: children
        invariant
            rows.seq() == all,
            groups@.len() == parents@.len(),
            forall|id: i64| #[trigger]
                indices@.contains_key(id) ==> last_position(parents@, id, indices@[id] as int),
            forall|i: int|
                0 <= i < parents@.len() ==> indices@.contains_key(#[trigger] parents@[i]),
            forall|i: int|
                0 <= i < parents@.len() ==> (#[trigger] groups@[i])@ == group(
                    all.take(rows.index()),
                    parents@,
                    i,
                ),
    {
        let ghost seen = all.take(rows.index());
        proof {
            assert(all.take(rows.index() + 1) =~= seen.push(child));
            assert forall|id: i64| #[trigger]
                children_of(seen.push(child), id) == (if child.0 == id {
                    children_of(seen, id).push(child.1)
                } else {
                    children_of(seen, id)
                }) by {
                lemma_children_push(seen, child, id);
            }
        }
        if let Some(at) = indices.get(&child.0) {
            groups[*at].push(child.1);
        }
    }
    assert(all.take(all.len() as int) =~= all);
    groups
}

/// `at` is the last position of `id`.
pub open spec fn last_position(ids: Seq<i64>, id: i64, at: int) -> bool {
    &&& 0 <= at < ids.len()
    &&& ids[at] == id
    &&& forall|later: int| at < later < ids.len() ==> #[trigger] ids[later] != id
}

/// The number of children in the first `count` groups.
pub open spec fn grouped_total<T>(
    children: Seq<(i64, T)>,
    parents: Seq<i64>,
    count: int,
) -> nat
    decreases count,
{
    if count <= 0 {
        0
    } else {
        grouped_total(children, parents, count - 1) + group(children, parents, count - 1).len()
    }
}

proof fn lemma_total_push<T>(
    children: Seq<(i64, T)>,
    child: (i64, T),
    parents: Seq<i64>,
    count: int,
)
    requires
        0 <= count <= parents.len(),
    ensures
        forall|at: int|
            last_position(parents, child.0, at) ==> grouped_total(
                children.push(child),
                parents,
                count,
            ) == grouped_total(children, parents, count) + (if at < count {
                1int
            } else {
                0int
            }),
        !parents.contains(child.0) ==> grouped_total(children.push(child), parents, count)
            == grouped_total(children, parents, count),
    decreases count,
{
    if count > 0 {
        lemma_total_push(children, child, parents, count - 1);
        lemma_children_push(children, child, parents[count - 1]);
    }
}

proof fn lemma_last_position(ids: Seq<i64>, id: i64) -> (at: int)
    requires
        ids.contains(id),
    ensures
        last_position(ids, id, at),
    decreases ids.len(),
{
    if ids.last() == id {
        ids.len() - 1
    } else {
        let i = ids.index_of(id);
        assert(ids.drop_last()[i] == id);
        let at = lemma_last_position(ids.drop_last(), id);
        assert forall|later: int| at < later < ids.len() implies #[trigger] ids[later] != id by {
            if later < ids.len() - 1 {
                assert(ids.drop_last()[later] != id);
            }
        }
        at
    }
}

/// Grouping neither loses nor doubles a child: the groups together hold as many as there are
/// children of any of the parents.
pub proof fn law_grouping_keeps_children<T>(children: Seq<(i64, T)>, parents: Seq<i64>)
    ensures
        grouped_total(children, parents, parents.len() as int) == children.filter(
            |child: (i64, T)| parents.contains(child.0),
        ).len(),
    decreases children.len(),
{
    let has_parent = |child: (i64, T)| parents.contains(child.0);
    reveal(Seq::filter);
    if children.len() == 0 {
        lemma_total_of_none(children, parents, parents.len() as int);
    } else {
        let rest = children.drop_last();
        let child = children.last();
        assert(children =~= rest.push(child));
        law_grouping_keeps_children(rest, parents);
        lemma_total_push(rest, child, parents, parents.len() as int);
        if parents.contains(child.0) {
            let at = lemma_last_position(parents, child.0);
            assert(last_position(parents, child.0, at));
        }
    }
}

proof fn lemma_total_of_none<T>(children: Seq<(i64, T)>, parents: Seq<i64>, count: int)
    requires
        children.len() == 0,
    ensures
        grouped_total(children, parents, count) == 0,
    decreases count,
{
    if count > 0 {
        reveal(Seq::filter);
        lemma_total_of_none(children, parents, count - 1);
    }
}

/// Where each parent occurs once, a parent gets the same children in a batch as alone.
pub proof fn law_group_alone<T>(children: Seq<(i64, T)>, parents: Seq<i64>, at: int)
    requires
        0 <= at < parents.len(),
        parents.no_duplicates(),
    ensures
        group(children, parents, at) == children_of(children, parents[at]),
        group(children, seq![parents[at]], 0) == children_of(children, parents[at]),
{
}

/// The rows as a map. Of two rows with one key the later one counts.
pub open spec fn collected<T>(rows: Seq<(i64, T)>) -> Map<i64, T>
    decreases rows.len(),
{
    if rows.len() == 0 {
        Map::empty()
    } else {
        collected(rows.drop_last()).insert(rows.last().0, rows.last().1)
    }
}

/// Collects the rows into a map.
pub fn collect_map<T>(rows: Vec<(i64, T)>) -> (map: HashMap<i64, T>)
    ensures
        map@ == collected(rows@),
{
    let mut map: HashMap<i64, T> = HashMap::new();
    let ghost all = rows@;
    assert(all.take(0) =~= Seq::empty());
    for row in iter: rows
        invariant
            iter.seq() == all,
            map@ == collected(all.take(iter.index())),
    {
        assert(all.take(iter.index() + 1).drop_last() =~= all.take(iter.index()));
        map.insert(row.0, row.1);
    }
    assert(all.take(all.len() as int) =~= all);
    map
}

/// Collects the names of each resource, in the order of the rows.
pub fn collect_names(rows: Vec<(i64, String)>) -> (names: HashMap<i64, Arc<Vec<String>>>)
    ensures
        forall|id: i64| #[trigger] names@.contains_key(id) <==> children_of(rows@, id).len() > 0,
        forall|id: i64| #[trigger]
            names@.contains_key(id) ==> names@[id]@ == children_of(rows@, id),
{
    let mut lists: HashMap<i64, Vec<String>> = HashMap::new();
    let mut ids: Vec<i64> = Vec::new();
    let ghost all = rows@;
    assert forall|id: i64| #[trigger] children_of(all.take(0), id).len() == 0 by {
        reveal(Seq::filter);
    }
    for row in iter: rows
        invariant
            iter.seq() == all,
            forall|id: i64| #[trigger]
                lists@.contains_key(id) <==> children_of(all.take(iter.index()), id).len() > 0,
            forall|id: i64| #[trigger]
                lists@.contains_key(id) ==> lists@[id]@ == children_of(all.take(iter.index()), id),
            forall|id: i64| #[trigger] lists@.contains_key(id) ==> ids@.contains(id),
    {
        let ghost seen = all.take(iter.index());
        proof {
            assert(all.take(iter.index() + 1) =~= seen.push(row));
            assert forall|id: i64| #[trigger]
                children_of(seen.push(row), id) == (if row.0 == id {
                    children_of(seen, id).push(row.1)
                } else {
                    children_of(seen, id)
                }) by {
                lemma_children_push(seen, row, id);
            }
        }
        match lists.remove(&row.0) {
            Some(list) => {
                let mut list = list;
                list.push(row.1);
                lists.insert(row.0, list);
            },
            None => {
                let mut list: Vec<String> = Vec::new();
                assert(children_of(seen, row.0) =~= Seq::empty());
                list.push(row.1);
                lists.insert(row.0, list);
                ids.push(row.0);
                assert(ids@[ids@.len() - 1] == row.0);
            },
        }
    }
    assert(all.take(all.len() as int) =~= all);
    let ghost complete = lists@;
    let mut names: HashMap<i64, Arc<Vec<String>>> = HashMap::new();
    for at in 0..ids.len()
        invariant
            forall|id: i64| #[trigger]
                complete.contains_key(id) <==> names@.contains_key(id) || lists@.contains_key(id),
            forall|id: i64| #[trigger] lists@.contains_key(id) ==> lists@[id] == complete[id],
            forall|id: i64| #[trigger] names@.contains_key(id) ==> names@[id] == complete[id],
            forall|i: int| 0 <= i < at ==> !lists@.contains_key(#[trigger] ids@[i]),
    {
        let id = ids[at];
        if let Some(list) = lists.remove(&id) {
            names.insert(id, Arc::new(list));
        }
    }
    assert forall|id: i64| #[trigger] names@.contains_key(id) <==> complete.contains_key(id) by {
        if complete.contains_key(id) && lists@.contains_key(id) {
            assert(ids@.contains(id));
        }
    }
    names
}

/// The set of the keys.
pub fn key_set(ids: &[i64]) -> (set: HashSet<i64>)
    ensures
        set@ == ids@.to_set(),
{
    let mut set: HashSet<i64> = HashSet::new();
    for at in 0..ids.len()
        invariant
            set@ == ids@.take(at as int).to_set(),
    {
        set.insert(ids[at]);
        assert(ids@.take(at + 1) =~= ids@.take(at as int).push(ids@[at as int]));
        assert(set@ =~= ids@.take(at + 1).to_set());
    }
    assert(ids@.take(ids@.len() as int) =~= ids@);
    set
}

/// A field of a resource: its value where it is selected.
pub open spec fn shown<T>(selected: bool, value: T) -> Option<T> {
    if selected {
        Some(value)
    } else {
        None
    }
}

/// A field of a resource: its value where it is selected.
pub fn show<T>(selected: bool, value: T) -> (field: Option<T>)
    ensures
        field == shown(selected, value),
{
    if selected {
        Some(value)
    } else {
        None
    }
}

/// Those for which a field has to be made: all of them where it is selected, and none otherwise.
pub fn wanted<T>(selected: bool, all: &[T]) -> (these: &[T])
    ensures
        these@ == (if selected {
            all@
        } else {
            Seq::empty()
        }),
{
    if selected {
        all
    } else {
        let none = slice_subrange(all, 0, 0);
        assert(none@ =~= Seq::empty());
        none
    }
}

/// The length of the column of a field of `count` resources.
pub open spec fn column_length(selected: bool, count: nat) -> nat {
    if selected {
        count
    } else {
        0
    }
}

/// What is left of a column when the first `count` resources are still to be made. The column
/// of a field that is not selected has no values at all.
pub open spec fn remaining<T>(column: Seq<T>, count: int) -> Seq<T> {
    if column.len() == 0 {
        column
    } else {
        column.take(count)
    }
}

/// The only element of a batch of one.
pub fn single<T>(batch: Vec<T>) -> (only: T)
    requires
        batch@.len() == 1,
    ensures
        only == batch@[0],
{
    let mut batch = batch;
    batch.remove(0)
}

/// The values in the opposite order.
pub fn reversed<T>(values: Vec<T>) -> (reversed: Vec<T>)
    ensures
        reversed@ == values@.reverse(),
{
    let ghost given = values@;
    let mut rest = values;
    let mut reversed: Vec<T> = Vec::new();
    while rest.len() > 0
        invariant
            rest@.len() <= given.len(),
            rest@ == given.take(rest@.len() as int),
            reversed@ == given.skip(rest@.len() as int).reverse(),
        decreases rest@.len(),
    {
        let ghost left = rest@.len() as int;
        if let Some(value) = rest.pop() {
            reversed.push(value);
            assert(given.skip(left - 1).reverse() =~= given.skip(left).reverse().push(
                given[left - 1],
            ));
        }
    }
    assert(given.skip(0) =~= given);
    reversed
}

} // verus!
