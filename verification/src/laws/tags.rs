//! Laws of the resources of tags and pools.

use crate::laws::rows::{
    is_absent, is_first, is_first_record, is_last, law_group_of_parent, law_lookup_is_first_row,
    law_map_holds_last_rows, law_record_is_first,
};
use crate::model::Tag;
use crate::resource::field::Mask;
use crate::resource::pool::{
    get_pools, is_micro_pool, is_pool_list, MicroPool, MicroPoolRows, PoolUse,
};
use crate::resource::tag::{
    category_ids, category_ids_of, get_categories, get_micro_tags, is_micro_tag, is_tag_info,
    is_tag_list, Field, MicroTag, MicroTagRows, TagInfo, TagRows, TagUse,
};
use crate::resource::{children_of, collected, group, keys, lookup, ordered};
use vstd::prelude::*;

verus! {

/// A micro tag has the names of its tag, in the order of their rows, the name of its category and
/// the usage count of its row.
pub proof fn law_micro_tag_of_row(rows: &MicroTagRows, row: TagUse, tag: MicroTag)
    requires
        is_micro_tag(rows, row, tag),
    ensures
        tag.names@ == children_of(rows.names@, row.tag_id),
        forall|category: int| #[trigger]
            is_last(rows.categories@, category, row.category_id) ==> tag.category
                == rows.categories@[category].1,
        tag.usages == row.usages,
{
    law_map_holds_last_rows(rows.categories@, row.category_id);
}

/// The list of tags of a resource has the tags of its rows, in their order. Where the resource
/// occurs again later in the batch, the list is empty.
pub proof fn law_tag_list_of_resource(
    rows: &MicroTagRows,
    ids: Seq<i64>,
    at: int,
    tags: Seq<MicroTag>,
)
    requires
        is_tag_list(rows, ids, at, tags),
    ensures
        (exists|later: int| at < later < ids.len() && #[trigger] ids[later] == ids[at])
            ==> tags.len() == 0,
        (forall|later: int| at < later < ids.len() ==> #[trigger] ids[later] != ids[at]) ==> {
            &&& tags.len() == children_of(rows.tags@, ids[at]).len()
            &&& forall|k: int|
                0 <= k < tags.len() ==> is_micro_tag(
                    rows,
                    children_of(rows.tags@, ids[at])[k],
                    #[trigger] tags[k],
                )
        },
{
    law_group_of_parent(rows.tags@, ids, at);
}

/// The lists of tags are in the order of the resources.
pub proof fn law_tag_lists_in_order(
    ids: &[i64],
    rows: MicroTagRows,
    lists: Vec<Vec<MicroTag>>,
)
    requires
        call_ensures(get_micro_tags, (ids, rows), lists),
    ensures
        lists@.len() == ids@.len(),
        forall|i: int|
            0 <= i < ids@.len() ==> is_tag_list(&rows, ids@, i, (#[trigger] lists@[i])@),
{
}

/// A micro pool has the id and the size of its row, and the names, the category and the
/// description of its pool.
pub proof fn law_micro_pool_of_row(rows: &MicroPoolRows, row: PoolUse, pool: MicroPool)
    requires
        is_micro_pool(rows, row, pool),
    ensures
        pool.id == row.pool_id,
        pool.names@ == children_of(rows.names@, row.pool_id),
        forall|category: int| #[trigger]
            is_last(rows.categories@, category, row.category_id) ==> pool.category
                == rows.categories@[category].1,
        forall|description: int| #[trigger]
            is_last(rows.descriptions@, description, row.pool_id) ==> pool.description
                == rows.descriptions@[description].1,
        pool.post_count == row.post_count,
{
    law_map_holds_last_rows(rows.categories@, row.category_id);
    law_map_holds_last_rows(rows.descriptions@, row.pool_id);
}

/// The list of pools of a post has the pools of its rows, in their order. Where the post occurs
/// again later in the batch, the list is empty.
pub proof fn law_pool_list_of_post(
    rows: &MicroPoolRows,
    ids: Seq<i64>,
    at: int,
    pools: Seq<MicroPool>,
)
    requires
        is_pool_list(rows, ids, at, pools),
    ensures
        (exists|later: int| at < later < ids.len() && #[trigger] ids[later] == ids[at])
            ==> pools.len() == 0,
        (forall|later: int| at < later < ids.len() ==> #[trigger] ids[later] != ids[at]) ==> {
            &&& pools.len() == children_of(rows.pools@, ids[at]).len()
            &&& forall|k: int|
                0 <= k < pools.len() ==> is_micro_pool(
                    rows,
                    children_of(rows.pools@, ids[at])[k],
                    #[trigger] pools[k],
                )
        },
{
    law_group_of_parent(rows.pools@, ids, at);
}

/// The lists of pools are in the order of the posts.
pub proof fn law_pool_lists_in_order(
    ids: &[i64],
    rows: MicroPoolRows,
    lists: Vec<Vec<MicroPool>>,
)
    requires
        call_ensures(get_pools, (ids, rows), lists),
    ensures
        lists@.len() == ids@.len(),
        forall|i: int|
            0 <= i < ids@.len() ==> is_pool_list(&rows, ids@, i, (#[trigger] lists@[i])@),
{
}

/// The name of each category is that of the last row of the category.
pub proof fn law_categories_by_their_ids(
    ids: &[i64],
    rows: Vec<(i64, String)>,
    names: Vec<String>,
    i: int,
)
    requires
        call_ensures(get_categories, (ids, rows), names),
        0 <= i < ids@.len(),
    ensures
        names@.len() == ids@.len(),
        forall|row: int| #[trigger]
            is_last(rows@, row, ids@[i]) ==> names@[i] == rows@[row].1,
{
    law_map_holds_last_rows(rows@, ids@[i]);
    assert(names@[i] == collected(rows@)[ids@[i]]);
}

/// The categories of tags are in the order of the tags.
pub proof fn law_category_ids_of_tags(tags: &[Tag], ids: Vec<i64>)
    requires
        call_ensures(category_ids_of, (tags,), ids),
    ensures
        ids@ == category_ids(tags@),
        ids@.len() == tags@.len(),
        forall|i: int| 0 <= i < ids@.len() ==> #[trigger] ids@[i] == tags@[i].category_id,
{
}

/// Each selected field of a tag is the stored column, or what the rows of the tag give; no other
/// field is there. The category is the name of the row whose key is the category of the tag, for
/// any number of categories.
pub proof fn law_tag_shows_its_columns(
    tags: Seq<Tag>,
    at: int,
    fields: Mask<Field>,
    rows: &TagRows,
    info: TagInfo,
)
    requires
        0 <= at < tags.len(),
        is_tag_info(tags, at, fields, rows, info),
    ensures
        fields.contains(Field::Version) ==> info.version == Some(tags[at].last_edit_time),
        !fields.contains(Field::Version) ==> info.version is None,
        fields.contains(Field::Description) ==> info.description == Some(tags[at].description),
        !fields.contains(Field::Description) ==> info.description is None,
        fields.contains(Field::CreationTime) ==> info.creation_time == Some(tags[at].creation_time),
        !fields.contains(Field::CreationTime) ==> info.creation_time is None,
        fields.contains(Field::LastEditTime) ==> info.last_edit_time == Some(
            tags[at].last_edit_time,
        ),
        !fields.contains(Field::LastEditTime) ==> info.last_edit_time is None,
        forall|row: int| #[trigger]
            is_last(rows.categories@, row, tags[at].category_id) && fields.contains(Field::Category)
                ==> info.category == Some(rows.categories@[row].1),
        !fields.contains(Field::Category) ==> info.category is None,
        fields.contains(Field::Names) ==> info.names is Some && ((forall|later: int|
            at < later < tags.len() ==> (#[trigger] tags[later]).id != tags[at].id)
            ==> info.names->0@ == children_of(rows.names@, tags[at].id)),
        fields.contains(Field::Names) && (exists|later: int|
            at < later < tags.len() && (#[trigger] tags[later]).id == tags[at].id)
            ==> info.names->0@.len() == 0,
        !fields.contains(Field::Names) ==> info.names is None,
        fields.contains(Field::Implications) ==> info.implications is Some && is_tag_list(
            &rows.implications,
            tags.map_values(|tag: Tag| tag.id),
            at,
            info.implications->0@,
        ),
        !fields.contains(Field::Implications) ==> info.implications is None,
        fields.contains(Field::Suggestions) ==> info.suggestions is Some && is_tag_list(
            &rows.suggestions,
            tags.map_values(|tag: Tag| tag.id),
            at,
            info.suggestions->0@,
        ),
        !fields.contains(Field::Suggestions) ==> info.suggestions is None,
        forall|row: int| #[trigger]
            is_first(rows.usages@, row, tags[at].id) && fields.contains(Field::Usages)
                ==> info.usages == Some(rows.usages@[row].1),
        !fields.contains(Field::Usages) ==> info.usages is None,
{
    let ids = keys(tags);
    assert(ids =~= tags.map_values(|tag: Tag| tag.id));
    law_map_holds_last_rows(rows.categories@, tags[at].category_id);
    law_lookup_is_first_row(rows.usages@, tags[at].id);
    law_group_of_parent(rows.names@, ids, at);
    if forall|later: int| at < later < tags.len() ==> (#[trigger] tags[later]).id != tags[at].id {
        assert forall|later: int| at < later < ids.len() implies #[trigger] ids[later]
            != ids[at] by {
            assert(tags[later].id != tags[at].id);
        }
    }
    if exists|later: int| at < later < tags.len() && (#[trigger] tags[later]).id == tags[at].id {
        let later = choose|later: int|
            at < later < tags.len() && (#[trigger] tags[later]).id == tags[at].id;
        assert(ids[later] == ids[at]);
    }
}

/// A batch of tags gives one resource for each tag, in their order.
pub proof fn law_tags_in_their_order(
    tags: Vec<Tag>,
    fields: Mask<Field>,
    rows: TagRows,
    infos: Vec<TagInfo>,
)
    requires
        call_ensures(TagInfo::new_batch, (tags, fields, rows), infos),
    ensures
        infos@.len() == tags@.len(),
        forall|i: int|
            0 <= i < tags@.len() ==> is_tag_info(tags@, i, fields, &rows, #[trigger] infos@[i]),
{
}

/// The resource of one tag is that of the tag alone.
pub proof fn law_one_tag(tag: Tag, fields: Mask<Field>, rows: TagRows, info: TagInfo)
    requires
        call_ensures(TagInfo::new, (tag, fields, rows), info),
    ensures
        is_tag_info(seq![tag], 0, fields, &rows, info),
{
}

/// Tags by their ids: the resources are those of a batch of tags that has at each position the tag
/// with the id at that position.
pub proof fn law_tags_by_ids(
    tag_ids: &[i64],
    unordered_tags: Vec<Tag>,
    fields: Mask<Field>,
    rows: TagRows,
    infos: Vec<TagInfo>,
    i: int,
    at: int,
)
    requires
        call_ensures(
            TagInfo::new_batch_from_ids,
            (tag_ids, unordered_tags, fields, rows),
            infos,
        ),
        0 <= i < tag_ids@.len(),
        is_first_record(unordered_tags@, at, tag_ids@[i]),
    ensures
        infos@.len() == tag_ids@.len(),
        is_tag_info(ordered(unordered_tags@, tag_ids@), i, fields, &rows, infos@[i]),
        ordered(unordered_tags@, tag_ids@)[i] == unordered_tags@[at],
        unordered_tags@[at].id == tag_ids@[i],
{
    law_record_is_first(unordered_tags@, tag_ids@[i]);
    let tags = ordered(unordered_tags@, tag_ids@);
    assert(tags[i] == unordered_tags@[at]);
    assert(is_tag_info(tags, i, fields, &rows, infos@[i]));
}

/// One tag by id: the resource is that of the tag with the id.
pub proof fn law_tag_by_id(
    tag_id: i64,
    unordered_tags: Vec<Tag>,
    fields: Mask<Field>,
    rows: TagRows,
    info: TagInfo,
    at: int,
)
    requires
        call_ensures(TagInfo::new_from_id, (tag_id, unordered_tags, fields, rows), info),
        is_first_record(unordered_tags@, at, tag_id),
    ensures
        is_tag_info(seq![unordered_tags@[at]], 0, fields, &rows, info),
        unordered_tags@[at].id == tag_id,
{
    law_record_is_first(unordered_tags@, tag_id);
}

/// To select more fields of a tag changes nothing in those that were selected before.
pub proof fn law_larger_mask_keeps_tag_fields(
    tags: Seq<Tag>,
    at: int,
    fields: Mask<Field>,
    larger: Mask<Field>,
    rows: &TagRows,
    info: TagInfo,
    larger_info: TagInfo,
)
    requires
        forall|field: Field| #[trigger] fields.contains(field) ==> larger.contains(field),
        is_tag_info(tags, at, fields, rows, info),
        is_tag_info(tags, at, larger, rows, larger_info),
    ensures
        fields.contains(Field::Version) ==> info.version == larger_info.version,
        fields.contains(Field::Description) ==> info.description == larger_info.description,
        fields.contains(Field::CreationTime) ==> info.creation_time == larger_info.creation_time,
        fields.contains(Field::LastEditTime) ==> info.last_edit_time == larger_info.last_edit_time,
        fields.contains(Field::Category) ==> info.category == larger_info.category,
        fields.contains(Field::Names) ==> info.names->0@ == larger_info.names->0@,
        fields.contains(Field::Implications) ==> info.implications.deep_view()
            == larger_info.implications.deep_view(),
        fields.contains(Field::Suggestions) ==> info.suggestions.deep_view()
            == larger_info.suggestions.deep_view(),
        fields.contains(Field::Usages) ==> info.usages == larger_info.usages,
{
    if let (Some(a), Some(b)) = (info.implications, larger_info.implications) {
        lemma_tag_lists_alike(&rows.implications, keys(tags), at, a, b);
    }
    if let (Some(a), Some(b)) = (info.suggestions, larger_info.suggestions) {
        lemma_tag_lists_alike(&rows.suggestions, keys(tags), at, a, b);
    }
}

proof fn lemma_tag_lists_alike(
    rows: &MicroTagRows,
    ids: Seq<i64>,
    at: int,
    tags: Vec<MicroTag>,
    other: Vec<MicroTag>,
)
    requires
        is_tag_list(rows, ids, at, tags@),
        is_tag_list(rows, ids, at, other@),
    ensures
        tags.deep_view() == other.deep_view(),
{
    let listed = group(rows.tags@, ids, at);
    assert forall|k: int| 0 <= k < tags@.len() implies (#[trigger] tags@[k]).deep_view()
        == other@[k].deep_view() by {
        assert(is_micro_tag(rows, listed[k], tags@[k]));
        assert(is_micro_tag(rows, listed[k], other@[k]));
        assert(tags@[k].names.deep_view() =~= other@[k].names.deep_view());
    }
    assert(tags.deep_view() =~= other.deep_view());
}

/// The rows of tag lists are complete where each tag in the list of one of the resources has a name
/// and its category has one.
pub proof fn law_micro_tag_rows_complete(rows: &MicroTagRows, ids: &[i64], complete: bool)
    requires
        call_ensures(MicroTagRows::is_complete, (rows, ids), complete),
    ensures
        complete == rows.complete(ids@),
        complete <==> forall|k: int|
            0 <= k < rows.tags@.len() && ids@.contains((#[trigger] rows.tags@[k]).0) ==> {
                &&& !is_absent(rows.names@, rows.tags@[k].1.tag_id)
                &&& !is_absent(rows.categories@, rows.tags@[k].1.category_id)
            },
{
    assert forall|id: i64| #[trigger] is_absent(rows.names@, id) <==> lookup(
        rows.names@,
        id,
    ) is None by {
        law_lookup_is_first_row(rows.names@, id);
    }
    assert forall|id: i64| #[trigger] is_absent(rows.categories@, id) <==> lookup(
        rows.categories@,
        id,
    ) is None by {
        law_lookup_is_first_row(rows.categories@, id);
    }
    if complete {
        assert forall|k: int|
            0 <= k < rows.tags@.len() && ids@.contains((#[trigger] rows.tags@[k]).0) implies {
            &&& !is_absent(rows.names@, rows.tags@[k].1.tag_id)
            &&& !is_absent(rows.categories@, rows.tags@[k].1.category_id)
        } by {
            assert(lookup(rows.names@, rows.tags@[k].1.tag_id) is Some);
        }
    } else {
        let k = choose|k: int|
            0 <= k < rows.tags@.len() && ids@.contains((#[trigger] rows.tags@[k]).0) && !(lookup(
                rows.names@,
                rows.tags@[k].1.tag_id,
            ) is Some && lookup(rows.categories@, rows.tags@[k].1.category_id) is Some);
        assert(is_absent(rows.names@, rows.tags@[k].1.tag_id) || is_absent(
            rows.categories@,
            rows.tags@[k].1.category_id,
        ));
    }
}

/// The tags whose names have to be loaded are those in the lists, and no others.
pub proof fn law_listed_tag_ids(
    rows: &MicroTagRows,
    ids: std::collections::HashSet<i64>,
    id: i64,
)
    requires
        call_ensures(MicroTagRows::tag_ids, (rows,), ids),
    ensures
        ids@.contains(id) <==> exists|k: int|
            0 <= k < rows.tags@.len() && (#[trigger] rows.tags@[k]).1.tag_id == id,
{
    let tag_ids = rows.tags@.map_values(|tag: (i64, TagUse)| tag.1.tag_id);
    assert(ids@.contains(id) <==> tag_ids.contains(id));
    if tag_ids.contains(id) {
        let k = tag_ids.index_of(id);
        assert(rows.tags@[k].1.tag_id == id);
    }
    if exists|k: int| 0 <= k < rows.tags@.len() && (#[trigger] rows.tags@[k]).1.tag_id == id {
        let k = choose|k: int|
            0 <= k < rows.tags@.len() && (#[trigger] rows.tags@[k]).1.tag_id == id;
        assert(tag_ids[k] == id);
    }
}

/// The pools whose names have to be loaded are those in the lists, and no others.
pub proof fn law_listed_pool_ids(
    rows: &MicroPoolRows,
    ids: std::collections::HashSet<i64>,
    id: i64,
)
    requires
        call_ensures(MicroPoolRows::pool_ids, (rows,), ids),
    ensures
        ids@.contains(id) <==> exists|k: int|
            0 <= k < rows.pools@.len() && (#[trigger] rows.pools@[k]).1.pool_id == id,
{
    let pool_ids = rows.pools@.map_values(|pool: (i64, PoolUse)| pool.1.pool_id);
    assert(ids@.contains(id) <==> pool_ids.contains(id));
    if pool_ids.contains(id) {
        let k = pool_ids.index_of(id);
        assert(rows.pools@[k].1.pool_id == id);
    }
    if exists|k: int| 0 <= k < rows.pools@.len() && (#[trigger] rows.pools@[k]).1.pool_id == id {
        let k = choose|k: int|
            0 <= k < rows.pools@.len() && (#[trigger] rows.pools@[k]).1.pool_id == id;
        assert(pool_ids[k] == id);
    }
}

/// The rows of pool lists are complete where each pool in the list of one of the posts has a name
/// and a description, and its category has a name.
pub proof fn law_micro_pool_rows_complete(rows: &MicroPoolRows, ids: &[i64], complete: bool)
    requires
        call_ensures(MicroPoolRows::is_complete, (rows, ids), complete),
    ensures
        complete == rows.complete(ids@),
        complete <==> forall|k: int|
            0 <= k < rows.pools@.len() && ids@.contains((#[trigger] rows.pools@[k]).0) ==> {
                &&& !is_absent(rows.names@, rows.pools@[k].1.pool_id)
                &&& !is_absent(rows.categories@, rows.pools@[k].1.category_id)
                &&& !is_absent(rows.descriptions@, rows.pools@[k].1.pool_id)
            },
{
    assert forall|id: i64| #[trigger] is_absent(rows.names@, id) <==> lookup(
        rows.names@,
        id,
    ) is None by {
        law_lookup_is_first_row(rows.names@, id);
    }
    assert forall|id: i64| #[trigger] is_absent(rows.categories@, id) <==> lookup(
        rows.categories@,
        id,
    ) is None by {
        law_lookup_is_first_row(rows.categories@, id);
    }
    assert forall|id: i64| #[trigger] is_absent(rows.descriptions@, id) <==> lookup(
        rows.descriptions@,
        id,
    ) is None by {
        law_lookup_is_first_row(rows.descriptions@, id);
    }
}

/// The rows of tags are complete where each selected field has what it needs.
pub proof fn law_tag_rows_complete(
    rows: &TagRows,
    ids: &[i64],
    category_ids: &[i64],
    fields: Mask<Field>,
    complete: bool,
)
    requires
        call_ensures(TagRows::is_complete, (rows, ids, category_ids, fields), complete),
    ensures
        complete == rows.complete(ids@, category_ids@, fields),
        complete <==> {
            &&& fields.contains(Field::Category) ==> forall|i: int|
                0 <= i < category_ids@.len() ==> !is_absent(
                    rows.categories@,
                    #[trigger] category_ids@[i],
                )
            &&& fields.contains(Field::Implications) ==> rows.implications.complete(ids@)
            &&& fields.contains(Field::Suggestions) ==> rows.suggestions.complete(ids@)
            &&& fields.contains(Field::Usages) ==> forall|i: int|
                0 <= i < ids@.len() ==> !is_absent(rows.usages@, #[trigger] ids@[i])
        },
{
    assert forall|id: i64| #[trigger] is_absent(rows.usages@, id) <==> lookup(
        rows.usages@,
        id,
    ) is None by {
        law_lookup_is_first_row(rows.usages@, id);
    }
    assert forall|id: i64| #[trigger] is_absent(rows.categories@, id) <==> lookup(
        rows.categories@,
        id,
    ) is None by {
        law_lookup_is_first_row(rows.categories@, id);
    }
    if complete {
        assert forall|i: int| 0 <= i < ids@.len() && fields.contains(Field::Usages) implies lookup(
            rows.usages@,
            #[trigger] ids@[i],
        ) is Some by {
        }
        assert forall|i: int|
            0 <= i < category_ids@.len() && fields.contains(Field::Category) implies lookup(
            rows.categories@,
            #[trigger] category_ids@[i],
        ) is Some by {
        }
    }
}

/// Resources can be made of all tags with complete rows.
pub proof fn law_tags_can_be_shown(tags: Vec<Tag>, fields: Mask<Field>, rows: TagRows)
    requires
        rows.complete(
            Seq::new(tags@.len(), |i: int| tags@[i].id),
            Seq::new(tags@.len(), |i: int| tags@[i].category_id),
            fields,
        ),
    ensures
        call_requires(TagInfo::new_batch, (tags, fields, rows)),
{
    assert(keys(tags@) =~= Seq::new(tags@.len(), |i: int| tags@[i].id));
    assert(category_ids(tags@) =~= Seq::new(tags@.len(), |i: int| tags@[i].category_id));
}

/// The resource at each position of a batch has the stored columns of the tag at that position.
/// Where each category has one row, the category is the name in the row of the category of the tag.
pub proof fn law_batch_has_columns_of_tags(
    tags: Vec<Tag>,
    fields: Mask<Field>,
    rows: TagRows,
    infos: Vec<TagInfo>,
    at: int,
    row: int,
)
    requires
        call_ensures(TagInfo::new_batch, (tags, fields, rows), infos),
        0 <= at < tags@.len(),
        0 <= row < rows.categories@.len(),
        rows.categories@[row].0 == tags@[at].category_id,
        forall|i: int, j: int|
            0 <= i < j < rows.categories@.len() ==> (#[trigger] rows.categories@[i]).0 != (
            #[trigger] rows.categories@[j]).0,
    ensures
        fields.contains(Field::Version) ==> infos@[at].version == Some(tags@[at].last_edit_time),
        !fields.contains(Field::Version) ==> infos@[at].version is None,
        fields.contains(Field::Description) ==> infos@[at].description == Some(
            tags@[at].description,
        ),
        !fields.contains(Field::Description) ==> infos@[at].description is None,
        fields.contains(Field::CreationTime) ==> infos@[at].creation_time == Some(
            tags@[at].creation_time,
        ),
        !fields.contains(Field::CreationTime) ==> infos@[at].creation_time is None,
        fields.contains(Field::LastEditTime) ==> infos@[at].last_edit_time == Some(
            tags@[at].last_edit_time,
        ),
        !fields.contains(Field::LastEditTime) ==> infos@[at].last_edit_time is None,
        fields.contains(Field::Category) ==> infos@[at].category == Some(rows.categories@[row].1),
        !fields.contains(Field::Category) ==> infos@[at].category is None,
{
    assert(is_tag_info(tags@, at, fields, &rows, infos@[at]));
    assert(is_last(rows.categories@, row, tags@[at].category_id));
    law_map_holds_last_rows(rows.categories@, tags@[at].category_id);
}

} // verus!
