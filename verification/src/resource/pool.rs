//! Pool resources.

use crate::resource::{
    children_of, collect_map, collect_names, collected, find, group, grouped_by, has_id, key_set,
    law_group_alone, lemma_group_member, lemma_lookup_children, lemma_lookup_collected, lookup,
};
use std::collections::HashSet;
use std::sync::Arc;
use vstd::prelude::*;

verus! {

/// A pool resource stripped down to its names, its category, its description and its size.
#[derive(Debug)]
pub struct MicroPool {
    /// The pool identifier.
    pub id: i64,
    /// A list of pool names (aliases).
    pub names: Arc<Vec<String>>,
    /// The name of the category the given pool belongs to.
    pub category: String,
    /// The pool description.
    pub description: String,
    /// The number of posts the pool has.
    pub post_count: i64,
}

/// What a micro pool resource shows.
pub struct MicroPoolView {
    pub id: i64,
    pub names: Seq<Seq<char>>,
    pub category: Seq<char>,
    pub description: Seq<char>,
    pub post_count: i64,
}

impl DeepView for MicroPool {
    type V = MicroPoolView;

    open spec fn deep_view(&self) -> MicroPoolView {
        MicroPoolView {
            id: self.id,
            names: self.names.deep_view(),
            category: self.category@,
            description: self.description@,
            post_count: self.post_count,
        }
    }
}

/// One pool in the list of pools of some post.
#[derive(Clone, Copy, Debug)]
pub struct PoolUse {
    pub pool_id: i64,
    pub category_id: i64,
    pub post_count: i64,
}

/// The rows that were loaded for lists of pools: the pools by the post, the names and
/// descriptions by the pool, and the names of the categories by the category. Lists keep the order
/// of their rows, so the rows have to be loaded in the order in which a list is to be shown.
#[derive(Debug)]
pub struct MicroPoolRows {
    /// To be loaded by the category and then by the pool.
    pub pools: Vec<(i64, PoolUse)>,
    /// To be loaded in the order of the names of a pool, so that its first name comes first.
    pub names: Vec<(i64, String)>,
    /// In any order.
    pub categories: Vec<(i64, String)>,
    /// In any order.
    pub descriptions: Vec<(i64, String)>,
}

/// `pool` is the micro resource of the pool that the row describes.
pub open spec fn is_micro_pool(rows: &MicroPoolRows, row: PoolUse, pool: MicroPool) -> bool {
    &&& pool.id == row.pool_id
    &&& pool.names@ == children_of(rows.names@, row.pool_id)
    &&& pool.category == collected(rows.categories@)[row.category_id]
    &&& pool.description == collected(rows.descriptions@)[row.pool_id]
    &&& pool.post_count == row.post_count
}

/// `pools` are the micro resources of the pools of the post at position `at`.
pub open spec fn is_pool_list(
    rows: &MicroPoolRows,
    ids: Seq<i64>,
    at: int,
    pools: Seq<MicroPool>,
) -> bool {
    let listed = group(rows.pools@, ids, at);
    &&& pools.len() == listed.len()
    &&& forall|k: int| 0 <= k < pools.len() ==> is_micro_pool(rows, listed[k], #[trigger] pools[k])
}

/// Two loads of rows tell the same of the list of pools of one post.
pub open spec fn same_pool_list(rows: &MicroPoolRows, other: &MicroPoolRows, id: i64) -> bool {
    let listed = children_of(rows.pools@, id);
    &&& children_of(other.pools@, id) == listed
    &&& forall|k: int|
        0 <= k < listed.len() ==> {
            &&& children_of(rows.names@, (#[trigger] listed[k]).pool_id) == children_of(
                other.names@,
                listed[k].pool_id,
            )
            &&& collected(rows.categories@)[listed[k].category_id] == collected(
                other.categories@,
            )[listed[k].category_id]
            &&& collected(rows.descriptions@)[listed[k].pool_id] == collected(
                other.descriptions@,
            )[listed[k].pool_id]
        }
}

/// One list of rows makes one list of micro pool resources.
pub proof fn lemma_pool_list_once(
    rows: &MicroPoolRows,
    other_rows: &MicroPoolRows,
    id: i64,
    pools: Vec<MicroPool>,
    other: Vec<MicroPool>,
)
    requires
        same_pool_list(rows, other_rows, id),
        is_pool_list(rows, seq![id], 0, pools@),
        is_pool_list(other_rows, seq![id], 0, other@),
    ensures
        pools.deep_view() == other.deep_view(),
{
    law_group_alone(rows.pools@, seq![id], 0);
    law_group_alone(other_rows.pools@, seq![id], 0);
    let listed = children_of(rows.pools@, id);
    assert forall|k: int| 0 <= k < pools@.len() implies (#[trigger] pools@[k]).deep_view()
        == other@[k].deep_view() by {
        assert(is_micro_pool(rows, listed[k], pools@[k]));
        assert(is_micro_pool(other_rows, listed[k], other@[k]));
        assert(pools@[k].names.deep_view() =~= other@[k].names.deep_view());
    }
    assert(pools.deep_view() =~= other.deep_view());
}

impl MicroPoolRows {
    /// The rows that the pool calls for are there.
    pub open spec fn has_rows_of(&self, pool: PoolUse) -> bool {
        &&& lookup(self.names@, pool.pool_id) is Some
        &&& lookup(self.categories@, pool.category_id) is Some
        &&& lookup(self.descriptions@, pool.pool_id) is Some
    }

    /// Each pool in the list of one of the posts has a name, a category and a description.
    pub open spec fn complete(&self, ids: Seq<i64>) -> bool {
        forall|k: int|
            0 <= k < self.pools@.len() && ids.contains((#[trigger] self.pools@[k]).0)
                ==> self.has_rows_of(self.pools@[k].1)
    }

    /// Whether each pool in the list of one of the posts has a name, a category and a
    /// description.
    pub fn is_complete(&self, ids: &[i64]) -> (complete: bool)
        ensures
            complete == self.complete(ids@),
    {
        for at in 0..self.pools.len()
            invariant
                forall|k: int|
                    0 <= k < at && ids@.contains((#[trigger] self.pools@[k]).0)
                        ==> self.has_rows_of(self.pools@[k].1),
        {
            let pool: PoolUse = self.pools[at].1;
            if has_id(ids, self.pools[at].0) && (find(&self.names, pool.pool_id).is_none() || find(
                &self.categories,
                pool.category_id,
            ).is_none() || find(&self.descriptions, pool.pool_id).is_none()) {
                assert(ids@.contains(self.pools@[at as int].0));
                return false;
            }
        }
        true
    }

    /// The pools whose names and descriptions have to be loaded.
    pub fn pool_ids(&self) -> (ids: HashSet<i64>)
        ensures
            ids@ == self.pools@.map_values(|pool: (i64, PoolUse)| pool.1.pool_id).to_set(),
    {
        let mut ids: Vec<i64> = Vec::new();
        for at in 0..self.pools.len()
            invariant
                ids@ == self.pools@.take(at as int).map_values(
                    |pool: (i64, PoolUse)| pool.1.pool_id,
                ),
        {
            ids.push(self.pools[at].1.pool_id);
            assert(self.pools@.take(at + 1) =~= self.pools@.take(at as int).push(
                self.pools@[at as int],
            ));
            assert(ids@ =~= self.pools@.take(at + 1).map_values(
                |pool: (i64, PoolUse)| pool.1.pool_id,
            ));
        }
        assert(self.pools@.take(self.pools@.len() as int) =~= self.pools@);
        key_set(ids.as_slice())
    }
}

/// The list of pools of each of the posts, in their order.
pub fn get_pools(ids: &[i64], rows: MicroPoolRows) -> (lists: Vec<Vec<MicroPool>>)
    requires
        rows.complete(ids@),
    ensures
        lists@.len() == ids@.len(),
        forall|i: int|
            0 <= i < ids@.len() ==> is_pool_list(&rows, ids@, i, (#[trigger] lists@[i])@),
{
    let ghost loaded = rows;
    let names = collect_names(rows.names);
    let categories = collect_map(rows.categories);
    let descriptions = collect_map(rows.descriptions);
    let groups = grouped_by(rows.pools, ids);
    let mut lists: Vec<Vec<MicroPool>> = Vec::new();
    for at in 0..ids.len()
        invariant
            loaded.complete(ids@),
            groups@.len() == ids@.len(),
            forall|i: int|
                0 <= i < ids@.len() ==> (#[trigger] groups@[i])@ == group(loaded.pools@, ids@, i),
            forall|id: i64| #[trigger]
                names@.contains_key(id) <==> children_of(loaded.names@, id).len() > 0,
            forall|id: i64| #[trigger]
                names@.contains_key(id) ==> names@[id]@ == children_of(loaded.names@, id),
            categories@ == collected(loaded.categories@),
            descriptions@ == collected(loaded.descriptions@),
            lists@.len() == at,
            forall|i: int|
                0 <= i < at ==> is_pool_list(&loaded, ids@, i, (#[trigger] lists@[i])@),
    {
        let ghost listed = group(loaded.pools@, ids@, at as int);
        let mut list: Vec<MicroPool> = Vec::new();
        let length: usize = groups[at].len();
        for k in 0..length
            invariant
                at < ids@.len(),
                loaded.complete(ids@),
                groups@.len() == ids@.len(),
                groups@[at as int]@ == listed,
                listed == group(loaded.pools@, ids@, at as int),
                length == listed.len(),
                forall|id: i64| #[trigger]
                    names@.contains_key(id) <==> children_of(loaded.names@, id).len() > 0,
                forall|id: i64| #[trigger]
                    names@.contains_key(id) ==> names@[id]@ == children_of(loaded.names@, id),
                categories@ == collected(loaded.categories@),
                descriptions@ == collected(loaded.descriptions@),
                list@.len() == k,
                forall|j: int|
                    0 <= j < k ==> is_micro_pool(&loaded, listed[j], #[trigger] list@[j]),
        {
            let pool: PoolUse = groups[at][k];
            proof {
                let row = lemma_group_member(loaded.pools@, ids@, at as int, k as int);
                assert(ids@.contains(loaded.pools@[row].0));
                lemma_lookup_children(loaded.names@, pool.pool_id);
                lemma_lookup_collected(loaded.categories@, pool.category_id);
                lemma_lookup_collected(loaded.descriptions@, pool.pool_id);
            }
            if let (Some(pool_names), Some(category), Some(description)) = (
                names.get(&pool.pool_id),
                categories.get(&pool.category_id),
                descriptions.get(&pool.pool_id),
            ) {
                list.push(
                    MicroPool {
                        id: pool.pool_id,
                        names: Arc::clone(pool_names),
                        category: category.clone(),
                        description: description.clone(),
                        post_count: pool.post_count,
                    },
                );
            }
        }
        lists.push(list);
    }
    lists
}

} // verus!
