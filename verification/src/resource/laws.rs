//! Laws of the resources of posts: what is shown of a post depends on that post alone.

use crate::config::{answers_once, Client, Config, Context};
use crate::model::{Post, PostNote, Score, UserRow};
use crate::resource::comment;
use crate::resource::comment::{comment_views, is_comment_info, CommentInfo, CommentRows};
use crate::resource::field::Mask;
use crate::resource::pool::{lemma_pool_list_once, same_pool_list};
use crate::resource::post::{
    are_content_urls, are_thumbnail_urls, comment_rating, is_comment_list, is_content_url,
    is_favoriter_list, is_listed_comment, is_note, is_note_list, is_post_batch, is_post_info,
    is_relation_list, is_thumbnail_url, law_post_is_same_in_any_batch, lemma_flattened_once,
    post_views, CommentRow, Field, MicroPost, Note, PostInfo, PostInfoView, PostRows,
};
use crate::resource::tag::{lemma_tag_list_once, same_tag_list};
use crate::resource::user::{is_micro_user, lemma_micro_user_once, lemma_owner_once, MicroUser};
use crate::resource::{
    can_order, children_of, collected, group, keys, law_group_alone,
    law_load_order_of_records_is_irrelevant, lemma_group_member, lookup, ordered, record,
};
use vstd::prelude::*;

verus! {

/// Two loads of rows tell the same of one post.
pub open spec fn same_post_rows<N>(
    client: Client,
    rows: &PostRows<N>,
    other: &PostRows<N>,
    id: i64,
) -> bool {
    &&& lookup(rows.owners@, id) == lookup(other.owners@, id)
    &&& same_tag_list(&rows.tags, &other.tags, id)
    &&& same_comment_list(
        client,
        rows.comments@,
        rows.comment_scores@,
        other.comments@,
        other.comment_scores@,
        id,
    )
    &&& children_of(rows.relations@, id) == children_of(other.relations@, id)
    &&& same_pool_list(&rows.pools, &other.pools, id)
    &&& children_of(rows.notes@, id) == children_of(other.notes@, id)
    &&& lookup(rows.scores@, id) == lookup(other.scores@, id)
    &&& lookup(rows.own_scores@, id) == lookup(other.own_scores@, id)
    &&& rows.own_favorites@.contains(id) == other.own_favorites@.contains(id)
    &&& lookup(rows.tag_counts@, id) == lookup(other.tag_counts@, id)
    &&& lookup(rows.comment_counts@, id) == lookup(other.comment_counts@, id)
    &&& lookup(rows.relation_counts@, id) == lookup(other.relation_counts@, id)
    &&& lookup(rows.note_counts@, id) == lookup(other.note_counts@, id)
    &&& lookup(rows.favorite_counts@, id) == lookup(other.favorite_counts@, id)
    &&& lookup(rows.feature_counts@, id) == lookup(other.feature_counts@, id)
    &&& lookup(rows.last_feature_times@, id) == lookup(other.last_feature_times@, id)
    &&& children_of(rows.favorited_by@, id) == children_of(other.favorited_by@, id)
    &&& lookup(rows.custom_thumbnails@, id) == lookup(other.custom_thumbnails@, id)
}

/// Two loads of rows tell the same of the comments of one post.
pub open spec fn same_comment_list(
    client: Client,
    comments: Seq<(i64, CommentRow)>,
    scores: Seq<(i64, Score)>,
    other_comments: Seq<(i64, CommentRow)>,
    other_scores: Seq<(i64, Score)>,
    id: i64,
) -> bool {
    let listed = children_of(comments, id);
    &&& children_of(other_comments, id) == listed
    &&& forall|k: int|
        0 <= k < listed.len() ==> comment_rating(
            client,
            scores,
            (#[trigger] listed[k]).comment.id,
        ) == comment_rating(client, other_scores, listed[k].comment.id)
}

/// Two post resources show the same in the given fields.
pub open spec fn agree_on<N>(a: PostInfoView<N>, b: PostInfoView<N>, fields: Mask<Field>) -> bool {
    &&& fields.contains(Field::Version) ==> a.version == b.version
    &&& fields.contains(Field::Id) ==> a.id == b.id
    &&& fields.contains(Field::User) ==> a.user == b.user
    &&& fields.contains(Field::FileSize) ==> a.file_size == b.file_size
    &&& fields.contains(Field::CanvasWidth) ==> a.canvas_width == b.canvas_width
    &&& fields.contains(Field::CanvasHeight) ==> a.canvas_height == b.canvas_height
    &&& fields.contains(Field::Safety) ==> a.safety == b.safety
    &&& fields.contains(Field::Type) ==> a.type_ == b.type_
    &&& fields.contains(Field::MimeType) ==> a.mime_type == b.mime_type
    &&& fields.contains(Field::Checksum) ==> a.checksum == b.checksum
    &&& fields.contains(Field::ChecksumMd5) ==> a.checksum_md5 == b.checksum_md5
    &&& fields.contains(Field::Flags) ==> a.flags == b.flags
    &&& fields.contains(Field::Source) ==> a.source == b.source
    &&& fields.contains(Field::Description) ==> a.description == b.description
    &&& fields.contains(Field::CreationTime) ==> a.creation_time == b.creation_time
    &&& fields.contains(Field::LastEditTime) ==> a.last_edit_time == b.last_edit_time
    &&& fields.contains(Field::ContentUrl) ==> a.content_url == b.content_url
    &&& fields.contains(Field::ThumbnailUrl) ==> a.thumbnail_url == b.thumbnail_url
    &&& fields.contains(Field::Tags) ==> a.tags == b.tags
    &&& fields.contains(Field::Comments) ==> a.comments == b.comments
    &&& fields.contains(Field::Relations) ==> a.relations == b.relations
    &&& fields.contains(Field::Pools) ==> a.pools == b.pools
    &&& fields.contains(Field::Notes) ==> a.notes == b.notes
    &&& fields.contains(Field::Score) ==> a.score == b.score
    &&& fields.contains(Field::OwnScore) ==> a.own_score == b.own_score
    &&& fields.contains(Field::OwnFavorite) ==> a.own_favorite == b.own_favorite
    &&& fields.contains(Field::TagCount) ==> a.tag_count == b.tag_count
    &&& fields.contains(Field::CommentCount) ==> a.comment_count == b.comment_count
    &&& fields.contains(Field::RelationCount) ==> a.relation_count == b.relation_count
    &&& fields.contains(Field::NoteCount) ==> a.note_count == b.note_count
    &&& fields.contains(Field::FavoriteCount) ==> a.favorite_count == b.favorite_count
    &&& fields.contains(Field::FeatureCount) ==> a.feature_count == b.feature_count
    &&& fields.contains(Field::LastFeatureTime) ==> a.last_feature_time == b.last_feature_time
    &&& fields.contains(Field::FavoritedBy) ==> a.favorited_by == b.favorited_by
    &&& fields.contains(Field::HasCustomThumbnail) ==> a.has_custom_thumbnail
        == b.has_custom_thumbnail
}

/// Every field that the one mask selects is selected by the other.
pub open spec fn is_part_of(fields: Mask<Field>, larger: Mask<Field>) -> bool {
    forall|field: Field| #[trigger] fields.contains(field) ==> larger.contains(field)
}

proof fn lemma_comments_once<C: Config>(
    ctx: &Context<C>,
    comments: Seq<(i64, CommentRow)>,
    scores: Seq<(i64, Score)>,
    other_comments: Seq<(i64, CommentRow)>,
    other_scores: Seq<(i64, Score)>,
    id: i64,
    infos: Vec<CommentInfo>,
    other: Vec<CommentInfo>,
)
    requires
        answers_once(&ctx.config),
        same_comment_list(ctx.client, comments, scores, other_comments, other_scores, id),
        is_comment_list(ctx, comments, scores, seq![id], 0, infos@),
        is_comment_list(ctx, other_comments, other_scores, seq![id], 0, other@),
    ensures
        infos.deep_view() == other.deep_view(),
{
    law_group_alone(comments, seq![id], 0);
    law_group_alone(other_comments, seq![id], 0);
    let listed = children_of(comments, id);
    assert forall|k: int| 0 <= k < infos@.len() implies (#[trigger] infos@[k]).deep_view()
        == other@[k].deep_view() by {
        assert(is_listed_comment(ctx, id, scores, listed[k], infos@[k]));
        assert(is_listed_comment(ctx, id, other_scores, listed[k], other@[k]));
        lemma_owner_once(
            &ctx.config,
            listed[k].owner,
            infos@[k].user->0,
            other@[k].user->0,
        );
    }
    assert(infos.deep_view() =~= other.deep_view());
}

proof fn lemma_relations_once<C: Config>(
    config: &C,
    relations: Seq<(i64, i64)>,
    other_relations: Seq<(i64, i64)>,
    id: i64,
    posts: Vec<MicroPost>,
    other: Vec<MicroPost>,
)
    requires
        answers_once(config),
        children_of(relations, id) == children_of(other_relations, id),
        is_relation_list(config, relations, seq![id], 0, posts@),
        is_relation_list(config, other_relations, seq![id], 0, other@),
    ensures
        posts.deep_view() == other.deep_view(),
{
    law_group_alone(relations, seq![id], 0);
    law_group_alone(other_relations, seq![id], 0);
    assert forall|k: int| 0 <= k < posts@.len() implies (#[trigger] posts@[k]).deep_view()
        == other@[k].deep_view() by {
        assert(other@[k].id == posts@[k].id);
    }
    assert(posts.deep_view() =~= other.deep_view());
}

proof fn lemma_notes_once<N>(
    rows: Seq<(i64, PostNote<N>)>,
    other_rows: Seq<(i64, PostNote<N>)>,
    id: i64,
    notes: Vec<Note<N>>,
    other: Vec<Note<N>>,
)
    requires
        children_of(rows, id) == children_of(other_rows, id),
        is_note_list(rows, seq![id], 0, notes@),
        is_note_list(other_rows, seq![id], 0, other@),
    ensures
        notes.deep_view() == other.deep_view(),
{
    law_group_alone(rows, seq![id], 0);
    law_group_alone(other_rows, seq![id], 0);
    let listed = children_of(rows, id);
    assert forall|k: int| 0 <= k < notes@.len() implies (#[trigger] notes@[k]).deep_view()
        == other@[k].deep_view() by {
        assert(is_note(listed[k], notes@[k]));
        assert(is_note(listed[k], other@[k]));
        lemma_flattened_once(notes@[k].polygon@, other@[k].polygon@);
        assert(notes@[k].deep_view().polygon =~= other@[k].deep_view().polygon);
    }
    assert(notes.deep_view() =~= other.deep_view());
}

proof fn lemma_favoriters_once<C: Config>(
    config: &C,
    rows: Seq<(i64, UserRow)>,
    other_rows: Seq<(i64, UserRow)>,
    id: i64,
    users: Vec<MicroUser>,
    other: Vec<MicroUser>,
)
    requires
        answers_once(config),
        children_of(rows, id) == children_of(other_rows, id),
        is_favoriter_list(config, rows, seq![id], 0, users@),
        is_favoriter_list(config, other_rows, seq![id], 0, other@),
    ensures
        users.deep_view() == other.deep_view(),
{
    law_group_alone(rows, seq![id], 0);
    law_group_alone(other_rows, seq![id], 0);
    let listed = children_of(rows, id);
    assert forall|k: int| 0 <= k < users@.len() implies (#[trigger] users@[k]).deep_view()
        == other@[k].deep_view() by {
        assert(is_micro_user(config, listed[k], users@[k]));
        lemma_micro_user_once(config, listed[k], users@[k], other@[k]);
    }
    assert(users.deep_view() =~= other.deep_view());
}

/// One post is shown in one way, as far as the fields are selected.
#[verifier::rlimit(40)]
proof fn lemma_post_once<C: Config, N>(
    ctx: &Context<C>,
    post: Post,
    fields: Mask<Field>,
    rows: &PostRows<N>,
    info: PostInfo<N>,
    larger: Mask<Field>,
    other_rows: &PostRows<N>,
    other: PostInfo<N>,
)
    requires
        answers_once(&ctx.config),
        is_part_of(fields, larger),
        same_post_rows(ctx.client, rows, other_rows, post.id),
        is_post_info(ctx, seq![post], 0, fields, rows, info),
        is_post_info(ctx, seq![post], 0, larger, other_rows, other),
    ensures
        agree_on(info.deep_view(), other.deep_view(), fields),
{
    assert(keys(seq![post]) =~= seq![post.id]);
    if let (Some(a), Some(b)) = (info.user, other.user) {
        lemma_owner_once(&ctx.config, lookup(rows.owners@, post.id), a, b);
    }
    if let (Some(a), Some(b)) = (info.tags, other.tags) {
        lemma_tag_list_once(&rows.tags, &other_rows.tags, post.id, a, b);
    }
    if let (Some(a), Some(b)) = (info.comments, other.comments) {
        lemma_comments_once(
            ctx,
            rows.comments@,
            rows.comment_scores@,
            other_rows.comments@,
            other_rows.comment_scores@,
            post.id,
            a,
            b,
        );
    }
    if let (Some(a), Some(b)) = (info.relations, other.relations) {
        lemma_relations_once(
            &ctx.config,
            rows.relations@,
            other_rows.relations@,
            post.id,
            a,
            b,
        );
    }
    if let (Some(a), Some(b)) = (info.pools, other.pools) {
        lemma_pool_list_once(&rows.pools, &other_rows.pools, post.id, a, b);
    }
    if let (Some(a), Some(b)) = (info.notes, other.notes) {
        lemma_notes_once(rows.notes@, other_rows.notes@, post.id, a, b);
    }
    if let (Some(a), Some(b)) = (info.favorited_by, other.favorited_by) {
        lemma_favoriters_once(
            &ctx.config,
            rows.favorited_by@,
            other_rows.favorited_by@,
            post.id,
            a,
            b,
        );
    }
}

/// Nothing is shown in a field that is not selected.
pub proof fn law_unselected_fields_are_absent<C: Config, N>(
    ctx: &Context<C>,
    posts: Seq<Post>,
    at: int,
    fields: Mask<Field>,
    rows: &PostRows<N>,
    info: PostInfo<N>,
)
    requires
        is_post_info(ctx, posts, at, fields, rows, info),
    ensures
        !fields.contains(Field::Version) ==> info.deep_view().version is None,
        !fields.contains(Field::Id) ==> info.deep_view().id is None,
        !fields.contains(Field::User) ==> info.deep_view().user is None,
        !fields.contains(Field::FileSize) ==> info.deep_view().file_size is None,
        !fields.contains(Field::CanvasWidth) ==> info.deep_view().canvas_width is None,
        !fields.contains(Field::CanvasHeight) ==> info.deep_view().canvas_height is None,
        !fields.contains(Field::Safety) ==> info.deep_view().safety is None,
        !fields.contains(Field::Type) ==> info.deep_view().type_ is None,
        !fields.contains(Field::MimeType) ==> info.deep_view().mime_type is None,
        !fields.contains(Field::Checksum) ==> info.deep_view().checksum is None,
        !fields.contains(Field::ChecksumMd5) ==> info.deep_view().checksum_md5 is None,
        !fields.contains(Field::Flags) ==> info.deep_view().flags is None,
        !fields.contains(Field::Source) ==> info.deep_view().source is None,
        !fields.contains(Field::Description) ==> info.deep_view().description is None,
        !fields.contains(Field::CreationTime) ==> info.deep_view().creation_time is None,
        !fields.contains(Field::LastEditTime) ==> info.deep_view().last_edit_time is None,
        !fields.contains(Field::ContentUrl) ==> info.deep_view().content_url is None,
        !fields.contains(Field::ThumbnailUrl) ==> info.deep_view().thumbnail_url is None,
        !fields.contains(Field::Tags) ==> info.deep_view().tags is None,
        !fields.contains(Field::Comments) ==> info.deep_view().comments is None,
        !fields.contains(Field::Relations) ==> info.deep_view().relations is None,
        !fields.contains(Field::Pools) ==> info.deep_view().pools is None,
        !fields.contains(Field::Notes) ==> info.deep_view().notes is None,
        !fields.contains(Field::Score) ==> info.deep_view().score is None,
        !fields.contains(Field::OwnScore) ==> info.deep_view().own_score is None,
        !fields.contains(Field::OwnFavorite) ==> info.deep_view().own_favorite is None,
        !fields.contains(Field::TagCount) ==> info.deep_view().tag_count is None,
        !fields.contains(Field::CommentCount) ==> info.deep_view().comment_count is None,
        !fields.contains(Field::RelationCount) ==> info.deep_view().relation_count is None,
        !fields.contains(Field::NoteCount) ==> info.deep_view().note_count is None,
        !fields.contains(Field::FavoriteCount) ==> info.deep_view().favorite_count is None,
        !fields.contains(Field::FeatureCount) ==> info.deep_view().feature_count is None,
        !fields.contains(Field::LastFeatureTime) ==> info.deep_view().last_feature_time is None,
        !fields.contains(Field::FavoritedBy) ==> info.deep_view().favorited_by is None,
        !fields.contains(Field::HasCustomThumbnail)
            ==> info.deep_view().has_custom_thumbnail is None,
{
}

/// What is shown of a post depends on that post alone: where two batches of different posts have
/// a post in common, and the rows tell the same of it, it is shown alike in both.
pub proof fn law_post_is_shown_alike<C: Config, N>(
    ctx: &Context<C>,
    fields: Mask<Field>,
    posts: Seq<Post>,
    at: int,
    rows: &PostRows<N>,
    info: PostInfo<N>,
    other_posts: Seq<Post>,
    other_at: int,
    other_rows: &PostRows<N>,
    other: PostInfo<N>,
)
    requires
        answers_once(&ctx.config),
        keys(posts).no_duplicates(),
        keys(other_posts).no_duplicates(),
        0 <= at < posts.len(),
        0 <= other_at < other_posts.len(),
        posts[at] == other_posts[other_at],
        same_post_rows(ctx.client, rows, other_rows, posts[at].id),
        is_post_info(ctx, posts, at, fields, rows, info),
        is_post_info(ctx, other_posts, other_at, fields, other_rows, other),
    ensures
        info.deep_view() == other.deep_view(),
{
    let post = posts[at];
    law_post_is_same_in_any_batch(ctx, posts, at, fields, rows, info);
    law_post_is_same_in_any_batch(ctx, other_posts, other_at, fields, other_rows, other);
    lemma_post_once(ctx, post, fields, rows, info, fields, other_rows, other);
    law_unselected_fields_are_absent(ctx, posts, at, fields, rows, info);
    law_unselected_fields_are_absent(ctx, other_posts, other_at, fields, other_rows, other);
}

/// The resources of one batch of different posts after another are those of both in one batch.
pub proof fn law_batches_can_be_joined<C: Config, N>(
    ctx: &Context<C>,
    fields: Mask<Field>,
    first: Seq<Post>,
    first_rows: &PostRows<N>,
    first_infos: Seq<PostInfo<N>>,
    second: Seq<Post>,
    second_rows: &PostRows<N>,
    second_infos: Seq<PostInfo<N>>,
    rows: &PostRows<N>,
    infos: Seq<PostInfo<N>>,
)
    requires
        answers_once(&ctx.config),
        keys(first + second).no_duplicates(),
        forall|i: int|
            0 <= i < first.len() ==> same_post_rows(
                ctx.client,
                rows,
                first_rows,
                (#[trigger] first[i]).id,
            ),
        forall|i: int|
            0 <= i < second.len() ==> same_post_rows(
                ctx.client,
                rows,
                second_rows,
                (#[trigger] second[i]).id,
            ),
        is_post_batch(ctx, first, fields, first_rows, first_infos),
        is_post_batch(ctx, second, fields, second_rows, second_infos),
        is_post_batch(ctx, first + second, fields, rows, infos),
    ensures
        post_views(infos) == post_views(first_infos) + post_views(second_infos),
{
    let all = first + second;
    let split = first.len() as int;
    assert forall|i: int, j: int| 0 <= i < first.len() && 0 <= j < first.len() && i != j implies
        keys(first)[i] != keys(first)[j] by {
        assert(keys(all)[i] != keys(all)[j]);
    }
    assert forall|i: int, j: int| 0 <= i < second.len() && 0 <= j < second.len() && i != j implies
        keys(second)[i] != keys(second)[j] by {
        assert(keys(all)[split + i] != keys(all)[split + j]);
    }
    assert forall|i: int| 0 <= i < all.len() implies (#[trigger] post_views(infos)[i]) == (
    post_views(first_infos) + post_views(second_infos))[i] by {
        let info = infos[i];
        assert(is_post_info(ctx, all, i, fields, rows, info));
        if i < split {
            let other = first_infos[i];
            assert(all[i] == first[i]);
            law_post_is_shown_alike(
                ctx,
                fields,
                all,
                i,
                rows,
                info,
                first,
                i,
                first_rows,
                other,
            );
        } else {
            let other = second_infos[i - split];
            assert(all[i] == second[i - split]);
            law_post_is_shown_alike(
                ctx,
                fields,
                all,
                i,
                rows,
                info,
                second,
                i - split,
                second_rows,
                other,
            );
        }
    }
    assert(post_views(infos) =~= post_views(first_infos) + post_views(second_infos));
}

/// To select more fields changes nothing in those that were selected before.
pub proof fn law_larger_mask_keeps_fields<C: Config, N>(
    ctx: &Context<C>,
    posts: Seq<Post>,
    fields: Mask<Field>,
    rows: &PostRows<N>,
    infos: Seq<PostInfo<N>>,
    larger: Mask<Field>,
    other_rows: &PostRows<N>,
    larger_infos: Seq<PostInfo<N>>,
)
    requires
        answers_once(&ctx.config),
        keys(posts).no_duplicates(),
        is_part_of(fields, larger),
        forall|i: int|
            0 <= i < posts.len() ==> same_post_rows(
                ctx.client,
                rows,
                other_rows,
                (#[trigger] posts[i]).id,
            ),
        is_post_batch(ctx, posts, fields, rows, infos),
        is_post_batch(ctx, posts, larger, other_rows, larger_infos),
    ensures
        infos.len() == larger_infos.len(),
        forall|i: int|
            0 <= i < infos.len() ==> agree_on(
                (#[trigger] infos[i]).deep_view(),
                larger_infos[i].deep_view(),
                fields,
            ),
{
    assert forall|i: int| 0 <= i < infos.len() implies agree_on(
        (#[trigger] infos[i]).deep_view(),
        larger_infos[i].deep_view(),
        fields,
    ) by {
        let (info, other) = (infos[i], larger_infos[i]);
        assert(same_post_rows(ctx.client, rows, other_rows, posts[i].id));
        law_post_is_same_in_any_batch(ctx, posts, i, fields, rows, info);
        law_post_is_same_in_any_batch(ctx, posts, i, larger, other_rows, other);
        lemma_post_once(ctx, posts[i], fields, rows, info, larger, other_rows, other);
    }
}

/// The resources of posts by their ids are those of the batch of the posts in the order of the
/// ids, and their ids are the given ones. The order in which the posts are loaded does not matter.
pub proof fn law_posts_by_ids_are_a_batch<C: Config, N>(
    ctx: &Context<C>,
    post_ids: Seq<i64>,
    unordered_posts: Seq<Post>,
    reordered_posts: Seq<Post>,
    fields: Mask<Field>,
    rows: &PostRows<N>,
    infos: Seq<PostInfo<N>>,
    batch_rows: &PostRows<N>,
    batch: Seq<PostInfo<N>>,
)
    requires
        answers_once(&ctx.config),
        keys(unordered_posts).no_duplicates(),
        unordered_posts.to_multiset() == reordered_posts.to_multiset(),
        can_order(unordered_posts, post_ids),
        forall|i: int|
            0 <= i < post_ids.len() ==> same_post_rows(
                ctx.client,
                rows,
                batch_rows,
                #[trigger] post_ids[i],
            ),
        is_post_batch(ctx, ordered(unordered_posts, post_ids), fields, rows, infos),
        is_post_batch(ctx, ordered(reordered_posts, post_ids), fields, batch_rows, batch),
    ensures
        post_views(infos) == post_views(batch),
        infos.len() == post_ids.len(),
        fields.contains(Field::Id) ==> forall|i: int|
            0 <= i < infos.len() ==> (#[trigger] infos[i]).id == Some(post_ids[i]),
{
    let posts = ordered(unordered_posts, post_ids);
    law_load_order_of_records_is_irrelevant(unordered_posts, reordered_posts, post_ids);
    lemma_ordered_keys(unordered_posts, post_ids);
    assert forall|i: int| 0 <= i < posts.len() implies (#[trigger] post_views(infos)[i])
        == post_views(batch)[i] by {
        assert(keys(posts)[i] == post_ids[i]);
        law_post_is_shown_alike(
            ctx,
            fields,
            posts,
            i,
            rows,
            infos[i],
            posts,
            i,
            batch_rows,
            batch[i],
        );
    }
    assert forall|i: int| 0 <= i < infos.len() && fields.contains(Field::Id) implies (
    #[trigger] infos[i]).id == Some(post_ids[i]) by {
        assert(keys(posts)[i] == post_ids[i]);
    }
    assert(post_views(infos) =~= post_views(batch));
}

/// To permute the ids permutes the resources in the same way: where the id at position `j` is the
/// one that was at position `moved(j)`, so is the resource.
pub proof fn law_permuted_ids_permute_posts<C: Config, N>(
    ctx: &Context<C>,
    post_ids: Seq<i64>,
    permuted_ids: Seq<i64>,
    moved: spec_fn(int) -> int,
    unordered_posts: Seq<Post>,
    reordered_posts: Seq<Post>,
    fields: Mask<Field>,
    rows: &PostRows<N>,
    infos: Seq<PostInfo<N>>,
    permuted_rows: &PostRows<N>,
    permuted_infos: Seq<PostInfo<N>>,
)
    requires
        answers_once(&ctx.config),
        keys(unordered_posts).no_duplicates(),
        unordered_posts.to_multiset() == reordered_posts.to_multiset(),
        can_order(unordered_posts, post_ids),
        can_order(reordered_posts, permuted_ids),
        permuted_ids.len() == post_ids.len(),
        forall|j: int|
            0 <= j < permuted_ids.len() ==> 0 <= #[trigger] moved(j) < post_ids.len()
                && permuted_ids[j] == post_ids[moved(j)],
        forall|i: int|
            0 <= i < post_ids.len() ==> same_post_rows(
                ctx.client,
                rows,
                permuted_rows,
                #[trigger] post_ids[i],
            ),
        is_post_batch(ctx, ordered(unordered_posts, post_ids), fields, rows, infos),
        is_post_batch(
            ctx,
            ordered(reordered_posts, permuted_ids),
            fields,
            permuted_rows,
            permuted_infos,
        ),
    ensures
        post_views(permuted_infos) == Seq::new(
            permuted_ids.len(),
            |j: int| post_views(infos)[moved(j)],
        ),
{
    let posts = ordered(unordered_posts, post_ids);
    let permuted = ordered(reordered_posts, permuted_ids);
    law_load_order_of_records_is_irrelevant(unordered_posts, reordered_posts, permuted_ids);
    lemma_ordered_keys(unordered_posts, post_ids);
    lemma_ordered_keys(unordered_posts, permuted_ids);
    assert forall|j: int| 0 <= j < permuted_ids.len() implies (#[trigger] post_views(
        permuted_infos,
    )[j]) == post_views(infos)[moved(j)] by {
        let i = moved(j);
        assert(posts[i] == permuted[j]);
        assert(keys(posts)[i] == post_ids[i]);
        law_post_is_shown_alike(
            ctx,
            fields,
            posts,
            i,
            rows,
            infos[i],
            permuted,
            j,
            permuted_rows,
            permuted_infos[j],
        );
    }
    assert(post_views(permuted_infos) =~= Seq::new(
        permuted_ids.len(),
        |j: int| post_views(infos)[moved(j)],
    ));
}

proof fn lemma_ordered_keys(posts: Seq<Post>, order: Seq<i64>)
    requires
        can_order(posts, order),
    ensures
        keys(ordered(posts, order)) == order,
{
    assert forall|i: int| 0 <= i < order.len() implies #[trigger] keys(ordered(posts, order))[i]
        == order[i] by {
        assert(record(posts, order[i]) is Some);
        lemma_record_key(posts, order[i]);
    }
    assert(keys(ordered(posts, order)) =~= order);
}

proof fn lemma_record_key(posts: Seq<Post>, id: i64)
    requires
        record(posts, id) is Some,
    ensures
        (record(posts, id)->0).id == id,
    decreases posts.len(),
{
    if posts.len() > 0 && posts[0].id != id {
        lemma_record_key(posts.drop_first(), id);
    }
}

/// The rows for comment resources tell the same of a comment as the row of its post's list does.
pub open spec fn same_comment_rows(
    client: Client,
    rows: &CommentRows,
    scores: Seq<(i64, Score)>,
    row: CommentRow,
) -> bool {
    let id = row.comment.id;
    &&& lookup(rows.owners@, id) == row.owner
    &&& lookup(rows.scores@, id) == Some(row.score)
    &&& client.id is Some ==> lookup(rows.own_scores@, id) == (if collected(scores).contains_key(
        id,
    ) {
        Some(collected(scores)[id])
    } else {
        None
    })
}

/// The comments in the list of a post are shown as they are on their own, with all fields
/// selected. The user is there exactly where the comment has an author.
pub proof fn law_listed_comments_are_whole_comments<C: Config>(
    ctx: &Context<C>,
    comments: Seq<(i64, CommentRow)>,
    scores: Seq<(i64, Score)>,
    ids: Seq<i64>,
    at: int,
    infos: Seq<CommentInfo>,
    fields: Mask<comment::Field>,
    rows: &CommentRows,
    own_infos: Seq<CommentInfo>,
)
    requires
        answers_once(&ctx.config),
        0 <= at < ids.len(),
        forall|k: int|
            0 <= k < comments.len() ==> (#[trigger] comments[k]).0 == comments[k].1.comment.post_id,
        is_comment_list(ctx, comments, scores, ids, at, infos),
        forall|field: comment::Field| #[trigger] fields.contains(field),
        own_infos.len() == infos.len(),
        forall|k: int|
            0 <= k < infos.len() ==> {
                &&& same_comment_rows(
                    ctx.client,
                    rows,
                    scores,
                    #[trigger] group(comments, ids, at)[k],
                )
                &&& is_comment_info(
                    ctx,
                    group(comments, ids, at)[k].comment,
                    fields,
                    rows,
                    own_infos[k],
                )
            },
    ensures
        comment_views(infos) == comment_views(own_infos),
        forall|k: int|
            0 <= k < infos.len() ==> {
                let comment = group(comments, ids, at)[k].comment;
                &&& (#[trigger] infos[k]).version == Some(comment.last_edit_time)
                &&& infos[k].id == Some(comment.id)
                &&& infos[k].post_id == Some(ids[at])
                &&& infos[k].text == Some(comment.text)
                &&& infos[k].creation_time == Some(comment.creation_time)
                &&& infos[k].last_edit_time == Some(comment.last_edit_time)
                &&& infos[k].user matches Some(user) && (user is None
                    <==> group(comments, ids, at)[k].owner is None)
                &&& infos[k].score == Some(group(comments, ids, at)[k].score)
                &&& infos[k].own_score is Some
            },
{
    let listed = group(comments, ids, at);
    assert forall|k: int| 0 <= k < infos.len() implies (#[trigger] infos[k]).deep_view()
        == own_infos[k].deep_view() by {
        let row = lemma_group_member(comments, ids, at, k);
        assert(listed[k].comment.post_id == ids[at]);
        assert(is_listed_comment(ctx, ids[at], scores, listed[k], infos[k]));
        assert(fields.contains(comment::Field::Version));
        assert(fields.contains(comment::Field::Id));
        assert(fields.contains(comment::Field::PostId));
        assert(fields.contains(comment::Field::Text));
        assert(fields.contains(comment::Field::CreationTime));
        assert(fields.contains(comment::Field::LastEditTime));
        assert(fields.contains(comment::Field::User));
        assert(fields.contains(comment::Field::Score));
        assert(fields.contains(comment::Field::OwnScore));
        lemma_owner_once(
            &ctx.config,
            listed[k].owner,
            infos[k].user->0,
            own_infos[k].user->0,
        );
    }
    assert(comment_views(infos) =~= comment_views(own_infos));
}

/// The texts of the URLs.
pub open spec fn texts(urls: Seq<String>) -> Seq<Seq<char>> {
    urls.map_values(|url: String| url@)
}

/// Where a thumbnail is located depends on the id of the post and on the size of its custom
/// thumbnail, and on nothing else.
pub proof fn law_thumbnail_depends_on_id_and_size<C: Config>(
    config: &C,
    post: Post,
    other: Post,
    url: String,
    other_url: String,
)
    requires
        answers_once(config),
        post.id == other.id,
        post.custom_thumbnail_size == other.custom_thumbnail_size,
        is_thumbnail_url(config, post, url),
        is_thumbnail_url(config, other, other_url),
    ensures
        url@ == other_url@,
{
}

/// The thumbnail URLs of one list of posts after another are those of both in one list.
pub proof fn law_thumbnail_urls_can_be_joined<C: Config>(
    config: &C,
    first: Seq<Post>,
    first_urls: Seq<String>,
    second: Seq<Post>,
    second_urls: Seq<String>,
    urls: Seq<String>,
)
    requires
        answers_once(config),
        are_thumbnail_urls(config, first, first_urls),
        are_thumbnail_urls(config, second, second_urls),
        are_thumbnail_urls(config, first + second, urls),
    ensures
        texts(urls) == texts(first_urls) + texts(second_urls),
{
    let all = first + second;
    let split = first.len() as int;
    assert forall|i: int| 0 <= i < all.len() implies #[trigger] texts(urls)[i] == (texts(first_urls)
        + texts(second_urls))[i] by {
        assert(is_thumbnail_url(config, all[i], urls[i]));
        if i < split {
            assert(is_thumbnail_url(config, first[i], first_urls[i]));
        } else {
            assert(is_thumbnail_url(config, second[i - split], second_urls[i - split]));
        }
    }
    assert(texts(urls) =~= texts(first_urls) + texts(second_urls));
}

/// The content URLs of one list of posts after another are those of both in one list.
pub proof fn law_content_urls_can_be_joined<C: Config>(
    config: &C,
    first: Seq<Post>,
    first_urls: Seq<String>,
    second: Seq<Post>,
    second_urls: Seq<String>,
    urls: Seq<String>,
)
    requires
        answers_once(config),
        are_content_urls(config, first, first_urls),
        are_content_urls(config, second, second_urls),
        are_content_urls(config, first + second, urls),
    ensures
        texts(urls) == texts(first_urls) + texts(second_urls),
{
    let all = first + second;
    let split = first.len() as int;
    assert forall|i: int| 0 <= i < all.len() implies #[trigger] texts(urls)[i] == (texts(first_urls)
        + texts(second_urls))[i] by {
        assert(is_content_url(config, all[i], urls[i]));
        if i < split {
            assert(is_content_url(config, first[i], first_urls[i]));
        } else {
            assert(is_content_url(config, second[i - split], second_urls[i - split]));
        }
    }
    assert(texts(urls) =~= texts(first_urls) + texts(second_urls));
}

} // verus!
