//! Laws of rows: what is found in them, and how they are ordered, grouped and collected.

use crate::model::{rating, Comment, Post, Rating, Score, Tag, User};
use crate::resource::{
    can_order, children_of, collect_map, collect_names, collected, covers, find, group, grouped_by,
    has_id, has_rows, ids_of, is_orderable, key_set, keys, lemma_children_push, lemma_lookup_row,
    lookup, order_as, order_transformed_as, ordered, record, reversed, show, single, Identified,
};
use std::collections::{HashMap, HashSet};
use std::sync::Arc;
use vstd::prelude::*;

verus! {

/// The row is the first with that key.
pub open spec fn is_first<T>(rows: Seq<(i64, T)>, row: int, id: i64) -> bool {
    &&& 0 <= row < rows.len()
    &&& rows[row].0 == id
    &&& forall|earlier: int| 0 <= earlier < row ==> (#[trigger] rows[earlier]).0 != id
}

/// The row is the last with that key.
pub open spec fn is_last<T>(rows: Seq<(i64, T)>, row: int, id: i64) -> bool {
    &&& 0 <= row < rows.len()
    &&& rows[row].0 == id
    &&& forall|later: int| row < later < rows.len() ==> (#[trigger] rows[later]).0 != id
}

/// No row has that key.
pub open spec fn is_absent<T>(rows: Seq<(i64, T)>, id: i64) -> bool {
    forall|row: int| 0 <= row < rows.len() ==> (#[trigger] rows[row]).0 != id
}

/// The record is the first with that key.
pub open spec fn is_first_record<V: Identified>(values: Seq<V>, at: int, id: i64) -> bool {
    &&& 0 <= at < values.len()
    &&& values[at].key() == id
    &&& forall|earlier: int| 0 <= earlier < at ==> (#[trigger] values[earlier]).key() != id
}

/// What is looked up is the value of the first row with the key, and nothing where there is none.
pub proof fn law_lookup_is_first_row<T>(rows: Seq<(i64, T)>, id: i64)
    ensures
        forall|row: int| #[trigger]
            is_first(rows, row, id) ==> lookup(rows, id) == Some(rows[row].1),
        is_absent(rows, id) ==> lookup(rows, id) is None,
        !is_absent(rows, id) ==> lookup(rows, id) is Some,
    decreases rows.len(),
{
    lemma_lookup_row(rows, id);
    assert forall|row: int| #[trigger] is_first(rows, row, id) implies lookup(rows, id) == Some(
        rows[row].1,
    ) by {
        lemma_lookup_first(rows, row, id);
    }
}

proof fn lemma_lookup_first<T>(rows: Seq<(i64, T)>, row: int, id: i64)
    requires
        is_first(rows, row, id),
    ensures
        lookup(rows, id) == Some(rows[row].1),
    decreases rows.len(),
{
    if row > 0 {
        assert(rows[0].0 != id);
        let rest = rows.drop_first();
        assert forall|earlier: int| 0 <= earlier < row - 1 implies (#[trigger] rest[earlier]).0
            != id by {
            assert(rows[earlier + 1].0 != id);
        }
        lemma_lookup_first(rest, row - 1, id);
    }
}

/// The record with a key is the first one with it, and there is none where no record has it.
pub proof fn law_record_is_first<V: Identified>(values: Seq<V>, id: i64)
    ensures
        forall|at: int| #[trigger]
            is_first_record(values, at, id) ==> record(values, id) == Some(values[at]),
        (forall|at: int| 0 <= at < values.len() ==> (#[trigger] values[at]).key() != id)
            <==> record(values, id) is None,
        record(values, id) matches Some(value) ==> value.key() == id && values.contains(value),
    decreases values.len(),
{
    if values.len() > 0 {
        let rest = values.drop_first();
        law_record_is_first(rest, id);
        if forall|at: int| 0 <= at < values.len() ==> (#[trigger] values[at]).key() != id {
            assert forall|at: int| 0 <= at < rest.len() implies (#[trigger] rest[at]).key()
                != id by {
                assert(values[at + 1].key() != id);
            }
        }
        if record(values, id) is None {
            assert forall|at: int| 0 <= at < values.len() implies (#[trigger] values[at]).key()
                != id by {
                if at > 0 {
                    assert(rest[at - 1].key() != id);
                }
            }
        }
        if values[0].key() == id {
            assert(values.contains(values[0]));
        } else if let Some(value) = record(rest, id) {
            assert(values[rest.index_of(value) + 1] == value);
        }
        assert forall|at: int| #[trigger] is_first_record(values, at, id) implies record(values, id)
            == Some(values[at]) by {
            if at > 0 {
                assert(values[0].key() != id);
                assert forall|earlier: int| 0 <= earlier < at - 1 implies (
                #[trigger] rest[earlier]).key() != id by {
                    assert(values[earlier + 1].key() != id);
                }
                assert(is_first_record(rest, at - 1, id));
            }
        }
    }
}

/// The key of a record is its identifier.
pub proof fn law_key_is_id(post: Post, comment: Comment, tag: Tag, user: User)
    ensures
        post.key() == post.id,
        comment.key() == comment.id,
        tag.key() == tag.id,
        user.key() == user.id,
{
}

/// The keys of records are in the order of the records.
pub proof fn law_keys_of_records<V: Identified>(values: &[V], ids: Vec<i64>)
    requires
        call_ensures(ids_of::<V>, (values,), ids),
    ensures
        ids@.len() == values@.len(),
        ids@ == keys(values@),
        forall|i: int| 0 <= i < ids@.len() ==> #[trigger] ids@[i] == values@[i].key(),
{
}

/// What is found is the value of the first row with the key.
pub proof fn law_first_row_is_found<'a, T>(rows: &'a Vec<(i64, T)>, id: i64, found: Option<&'a T>)
    requires
        call_ensures(find::<T>, (rows, id), found),
    ensures
        forall|row: int| #[trigger]
            is_first(rows@, row, id) ==> (found matches Some(value) && *value == rows@[row].1),
        is_absent(rows@, id) <==> found is None,
{
    law_lookup_is_first_row(rows@, id);
}

/// Rows cover keys where each of the keys has a row.
pub proof fn law_rows_cover_keys<T>(rows: &Vec<(i64, T)>, ids: &[i64], all: bool)
    requires
        call_ensures(has_rows::<T>, (rows, ids), all),
    ensures
        all <==> forall|i: int| 0 <= i < ids@.len() ==> !is_absent(rows@, #[trigger] ids@[i]),
        all == covers(rows@, ids@),
{
    assert forall|id: i64| #[trigger] is_absent(rows@, id) <==> lookup(rows@, id) is None by {
        law_lookup_is_first_row(rows@, id);
    }
    if all {
        assert forall|i: int| 0 <= i < ids@.len() implies !is_absent(rows@, #[trigger] ids@[i]) by {
            assert(lookup(rows@, ids@[i]) is Some);
        }
    }
}

/// The values that are brought into the order of the keys are those of the first rows.
pub proof fn law_values_take_order_of_keys<T: Copy>(
    rows: &Vec<(i64, T)>,
    ids: &[i64],
    values: Vec<T>,
)
    requires
        call_ensures(order_transformed_as::<T>, (rows, ids), values),
    ensures
        values@.len() == ids@.len(),
        forall|i: int, row: int|
            0 <= i < ids@.len() && #[trigger] is_first(rows@, row, ids@[i]) ==> values@[i]
                == rows@[row].1,
{
    assert forall|i: int, row: int|
        0 <= i < ids@.len() && #[trigger] is_first(rows@, row, ids@[i]) implies values@[i]
        == rows@[row].1 by {
        law_lookup_is_first_row(rows@, ids@[i]);
        assert(Some(values@[i]) == lookup(rows@, ids@[i]));
    }
}

/// The records that are brought into the order of the keys have these keys, and each is the first
/// of its key.
pub proof fn law_records_take_order_of_keys<V: Identified>(
    values: Vec<V>,
    order: &[i64],
    result: Vec<V>,
)
    requires
        can_order(values@, order@),
        call_ensures(order_as::<V>, (values, order), result),
    ensures
        result@.len() == order@.len(),
        result@ == ordered(values@, order@),
        forall|i: int| 0 <= i < order@.len() ==> (#[trigger] result@[i]).key() == order@[i],
        forall|i: int, at: int|
            0 <= i < order@.len() && #[trigger] is_first_record(values@, at, order@[i])
                ==> result@[i] == values@[at],
{
    assert forall|i: int| 0 <= i < order@.len() implies (#[trigger] result@[i]).key()
        == order@[i] by {
        assert(keys(result@)[i] == order@[i]);
    }
    assert forall|i: int, at: int|
        0 <= i < order@.len() && #[trigger] is_first_record(
            values@,
            at,
            order@[i],
        ) implies result@[i] == values@[at] by {
        law_record_is_first(values@, order@[i]);
    }
}

/// Records in an order: there is one for each key, and it is the first with that key.
pub proof fn law_ordered_records<V: Identified>(values: Seq<V>, order: Seq<i64>, i: int)
    requires
        0 <= i < order.len(),
    ensures
        ordered(values, order).len() == order.len(),
        forall|at: int| #[trigger]
            is_first_record(values, at, order[i]) ==> ordered(values, order)[i] == values[at],
{
    law_record_is_first(values, order[i]);
}

/// Records can be brought into an order where no key occurs twice and each has a record.
pub proof fn law_orderable<V: Identified>(values: &Vec<V>, order: &[i64], orderable: bool)
    requires
        call_ensures(is_orderable::<V>, (values, order), orderable),
    ensures
        orderable == can_order(values@, order@),
        orderable <==> {
            &&& forall|i: int, j: int|
                0 <= i < j < order@.len() ==> #[trigger] order@[i] != #[trigger] order@[j]
            &&& forall|i: int|
                0 <= i < order@.len() ==> keys(values@).contains(#[trigger] order@[i])
        },
{
    assert forall|id: i64| #[trigger] keys(values@).contains(id) <==> record(
        values@,
        id,
    ) is Some by {
        law_record_is_first(values@, id);
        if keys(values@).contains(id) {
            assert(values@[keys(values@).index_of(id)].key() == id);
        }
        if let Some(value) = record(values@, id) {
            assert(keys(values@)[values@.index_of(value)] == id);
        }
    }
    if orderable {
        assert forall|i: int| 0 <= i < order@.len() implies keys(values@).contains(
            #[trigger] order@[i],
        ) by {
            assert(record(values@, order@[i]) is Some);
        }
    }
}

/// Where there are no rows, nothing has children.
pub proof fn law_no_rows_no_children<T>(id: i64)
    ensures
        children_of(Seq::<(i64, T)>::empty(), id) == Seq::<T>::empty(),
{
    reveal(Seq::filter);
    assert(children_of(Seq::<(i64, T)>::empty(), id) =~= Seq::empty());
}

/// One more row adds its value at the end of the children of its parent, and changes nothing for
/// the others.
pub proof fn law_one_more_row_adds_one_child<T>(rows: Seq<(i64, T)>, row: (i64, T), id: i64)
    ensures
        row.0 == id ==> children_of(rows.push(row), id) == children_of(rows, id).push(row.1),
        row.0 != id ==> children_of(rows.push(row), id) == children_of(rows, id),
{
    lemma_children_push(rows, row, id);
}

/// Each parent has the children that its rows give it, but where a parent occurs more than once
/// only its last occurrence has them.
pub proof fn law_last_occurrence_has_the_children<T>(
    rows: Vec<(i64, T)>,
    parents: &[i64],
    groups: Vec<Vec<T>>,
    at: int,
)
    requires
        call_ensures(grouped_by::<T>, (rows, parents), groups),
        0 <= at < parents@.len(),
    ensures
        groups@.len() == parents@.len(),
        groups@[at]@ == group(rows@, parents@, at),
        (forall|later: int|
            at < later < parents@.len() ==> #[trigger] parents@[later] != parents@[at])
            ==> groups@[at]@ == children_of(rows@, parents@[at]),
        (exists|later: int|
            at < later < parents@.len() && #[trigger] parents@[later] == parents@[at])
            ==> groups@[at]@ == Seq::<T>::empty(),
{
    assert(groups@[at]@ == group(rows@, parents@, at));
}

/// Two groupings, the second with one more row: the row is added at the end of the group of the
/// last occurrence of its parent, and the other groups are the same.
pub proof fn law_one_more_row_is_grouped<T>(
    rows: Vec<(i64, T)>,
    more_rows: Vec<(i64, T)>,
    row: (i64, T),
    parents: &[i64],
    groups: Vec<Vec<T>>,
    more_groups: Vec<Vec<T>>,
    at: int,
)
    requires
        more_rows@ == rows@.push(row),
        call_ensures(grouped_by::<T>, (rows, parents), groups),
        call_ensures(grouped_by::<T>, (more_rows, parents), more_groups),
        0 <= at < parents@.len(),
    ensures
        parents@[at] == row.0 && (forall|later: int|
            at < later < parents@.len() ==> #[trigger] parents@[later] != parents@[at])
            ==> more_groups@[at]@ == groups@[at]@.push(row.1),
        parents@[at] != row.0 || (exists|later: int|
            at < later < parents@.len() && #[trigger] parents@[later] == parents@[at])
            ==> more_groups@[at]@ == groups@[at]@,
{
    assert(groups@[at]@ == group(rows@, parents@, at));
    assert(more_groups@[at]@ == group(more_rows@, parents@, at));
    law_one_more_row_adds_one_child(rows@, row, parents@[at]);
}

/// The group at a position of a batch, where the parent does not occur again after it, holds the
/// children of the parent, and is empty where it does.
pub proof fn law_group_of_parent<T>(rows: Seq<(i64, T)>, parents: Seq<i64>, at: int)
    ensures
        (forall|later: int| at < later < parents.len() ==> #[trigger] parents[later] != parents[at])
            ==> group(rows, parents, at) == children_of(rows, parents[at]),
        (exists|later: int|
            at < later < parents.len() && #[trigger] parents[later] == parents[at]) ==> group(
            rows,
            parents,
            at,
        ) == Seq::<T>::empty(),
{
}

/// A map of rows holds under each key the value of the last row with that key, and no other keys.
/// Where no two rows have one key, this is the value that is looked up.
pub proof fn law_map_holds_last_rows<T>(rows: Seq<(i64, T)>, id: i64)
    ensures
        forall|row: int| #[trigger]
            is_last(rows, row, id) ==> collected(rows).contains_key(id) && collected(rows)[id]
                == rows[row].1,
        is_absent(rows, id) <==> !collected(rows).contains_key(id),
        (forall|i: int, j: int|
            0 <= i < j < rows.len() ==> (#[trigger] rows[i]).0 != (#[trigger] rows[j]).0)
            && collected(rows).contains_key(id) ==> lookup(rows, id) == Some(collected(rows)[id]),
    decreases rows.len(),
{
    if rows.len() > 0 {
        let rest = rows.drop_last();
        law_map_holds_last_rows(rest, id);
        assert forall|row: int| #[trigger] is_last(rows, row, id) implies collected(
            rows,
        ).contains_key(id) && collected(rows)[id] == rows[row].1 by {
            if row < rows.len() - 1 {
                assert(rows[rows.len() - 1].0 != id);
                assert forall|later: int| row < later < rest.len() implies (
                #[trigger] rest[later]).0 != id by {
                    assert(rows[later].0 != id);
                }
                assert(is_last(rest, row, id));
            }
        }
        if is_absent(rows, id) {
            assert(rows[rows.len() - 1].0 != id);
            assert forall|row: int| 0 <= row < rest.len() implies (#[trigger] rest[row]).0
                != id by {
                assert(rows[row].0 != id);
            }
        }
        if !collected(rows).contains_key(id) {
            assert forall|row: int| 0 <= row < rows.len() implies (#[trigger] rows[row]).0
                != id by {
                if row < rows.len() - 1 {
                    assert(rest[row].0 != id);
                }
            }
        }
        if (forall|i: int, j: int|
            0 <= i < j < rows.len() ==> (#[trigger] rows[i]).0 != (#[trigger] rows[j]).0)
            && collected(rows).contains_key(id) {
            assert(!is_absent(rows, id));
            let row = choose|row: int| 0 <= row < rows.len() && (#[trigger] rows[row]).0 == id;
            assert(is_first(rows, row, id));
            assert(is_last(rows, row, id));
            law_lookup_is_first_row(rows, id);
        }
    }
}

/// The map that rows are collected into holds under each key the value of the last row with it.
pub proof fn law_collected_map<T>(rows: Vec<(i64, T)>, map: HashMap<i64, T>, id: i64)
    requires
        call_ensures(collect_map::<T>, (rows,), map),
    ensures
        map@ == collected(rows@),
        forall|row: int| #[trigger]
            is_last(rows@, row, id) ==> map@.contains_key(id) && map@[id] == rows@[row].1,
        is_absent(rows@, id) <==> !map@.contains_key(id),
{
    law_map_holds_last_rows(rows@, id);
}

/// The names of each resource are collected in the order of the rows.
pub proof fn law_collected_names(
    rows: Vec<(i64, String)>,
    names: HashMap<i64, Arc<Vec<String>>>,
    id: i64,
)
    requires
        call_ensures(collect_names, (rows,), names),
    ensures
        names@.contains_key(id) <==> !is_absent(rows@, id),
        names@.contains_key(id) ==> names@[id]@ == children_of(rows@, id),
{
    lemma_has_children(rows@, id);
    assert(names@.contains_key(id) <==> children_of(rows@, id).len() > 0);
}

proof fn lemma_has_children<T>(rows: Seq<(i64, T)>, id: i64)
    ensures
        is_absent(rows, id) <==> children_of(rows, id).len() == 0,
    decreases rows.len(),
{
    if rows.len() == 0 {
        assert(rows =~= Seq::empty());
        law_no_rows_no_children::<T>(id);
    } else {
        let rest = rows.drop_last();
        assert(rows =~= rest.push(rows.last()));
        lemma_has_children(rest, id);
        law_one_more_row_adds_one_child(rest, rows.last(), id);
        if is_absent(rows, id) {
            assert(rows[rows.len() - 1].0 != id);
            assert forall|row: int| 0 <= row < rest.len() implies (#[trigger] rest[row]).0
                != id by {
                assert(rows[row].0 != id);
            }
        }
        if children_of(rows, id).len() == 0 {
            assert forall|row: int| 0 <= row < rows.len() implies (#[trigger] rows[row]).0
                != id by {
                if row < rows.len() - 1 {
                    assert(rest[row].0 != id);
                }
            }
        }
    }
}

/// The set of keys holds the keys and nothing else.
pub proof fn law_key_set(ids: &[i64], set: HashSet<i64>, id: i64)
    requires
        call_ensures(key_set, (ids,), set),
    ensures
        set@.contains(id) <==> exists|i: int| 0 <= i < ids@.len() && #[trigger] ids@[i] == id,
{
    assert(set@.contains(id) <==> ids@.contains(id));
}

/// What is first in the values is last in their reverse.
pub proof fn law_reversed<T>(values: Vec<T>, result: Vec<T>)
    requires
        call_ensures(reversed::<T>, (values,), result),
    ensures
        result@.len() == values@.len(),
        forall|i: int|
            0 <= i < values@.len() ==> #[trigger] result@[i] == values@[values@.len() - 1 - i],
{
}

/// A batch of one has one element.
pub proof fn law_single<T>(batch: Vec<T>, only: T)
    requires
        batch@.len() == 1,
        call_ensures(single::<T>, (batch,), only),
    ensures
        batch@ == seq![only],
{
    assert(batch@ =~= seq![only]);
}

/// A score is the rating of the same name, and no score is no rating.
pub proof fn law_rating_of_score(score: Option<Score>, result: Rating)
    requires
        call_ensures(rating, (score,), result),
    ensures
        score == Some(Score::Like) <==> result == Rating::Like,
        score == Some(Score::Dislike) <==> result == Rating::Dislike,
        score is None <==> result == Rating::Unrated,
{
}

/// A key is found where it is one of the keys.
pub proof fn law_key_is_found(ids: &[i64], id: i64, found: bool)
    requires
        call_ensures(has_id, (ids, id), found),
    ensures
        found <==> exists|i: int| 0 <= i < ids@.len() && #[trigger] ids@[i] == id,
{
}

/// A selected field has its value, and a field that is not selected has none.
pub proof fn law_selected_field_is_shown<T>(selected: bool, value: T, field: Option<T>)
    requires
        call_ensures(show::<T>, (selected, value), field),
    ensures
        selected ==> field == Some(value),
        !selected ==> field is None,
{
}

} // verus!
