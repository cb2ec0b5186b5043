//! Laws of the resources of comments.

use crate::config::{answers_once, Client, Config, Context};
use crate::laws::rows::{
    is_absent, is_first, is_first_record, law_lookup_is_first_row, law_record_is_first,
};
use crate::model::{Comment, Rating, Score};
use crate::resource::comment::{
    get_own_scores, is_comment_info, own_rating, CommentInfo, CommentRows, Field,
};
use crate::resource::field::Mask;
use crate::resource::user::{is_micro_user, lemma_owner_once};
use crate::resource::{keys, lookup, record};
use vstd::prelude::*;

verus! {

/// The client's own rating of a resource is the score in the first row of the resource. Without a
/// row, or without a client, it is no rating.
pub proof fn law_own_rating(client: Client, scores: Seq<(i64, Score)>, id: i64)
    ensures
        client.id is None ==> own_rating(client, scores, id) == Rating::Unrated,
        is_absent(scores, id) ==> own_rating(client, scores, id) == Rating::Unrated,
        forall|row: int| #[trigger]
            is_first(scores, row, id) && client.id is Some ==> {
                &&& scores[row].1 == Score::Like ==> own_rating(client, scores, id) == Rating::Like
                &&& scores[row].1 == Score::Dislike ==> own_rating(client, scores, id)
                    == Rating::Dislike
            },
{
    law_lookup_is_first_row(scores, id);
}

/// The client's own ratings are in the order of the resources.
pub proof fn law_own_ratings_of_resources(
    client: Client,
    ids: &[i64],
    scores: &Vec<(i64, Score)>,
    ratings: Vec<Rating>,
)
    requires
        call_ensures(get_own_scores, (client, ids, scores), ratings),
    ensures
        ratings@.len() == ids@.len(),
        forall|i: int|
            0 <= i < ids@.len() ==> #[trigger] ratings@[i] == own_rating(client, scores@, ids@[i]),
{
}

/// Each selected field of a comment is the stored column, or what the first row of the comment
/// gives; no other field is there.
pub proof fn law_comment_shows_its_columns<C: Config>(
    ctx: &Context<C>,
    comment: Comment,
    fields: Mask<Field>,
    rows: &CommentRows,
    info: CommentInfo,
)
    requires
        is_comment_info(ctx, comment, fields, rows, info),
    ensures
        fields.contains(Field::Version) ==> info.version == Some(comment.last_edit_time),
        !fields.contains(Field::Version) ==> info.version is None,
        fields.contains(Field::Id) ==> info.id == Some(comment.id),
        !fields.contains(Field::Id) ==> info.id is None,
        fields.contains(Field::PostId) ==> info.post_id == Some(comment.post_id),
        !fields.contains(Field::PostId) ==> info.post_id is None,
        fields.contains(Field::Text) ==> info.text == Some(comment.text),
        !fields.contains(Field::Text) ==> info.text is None,
        fields.contains(Field::CreationTime) ==> info.creation_time == Some(comment.creation_time),
        !fields.contains(Field::CreationTime) ==> info.creation_time is None,
        fields.contains(Field::LastEditTime) ==> info.last_edit_time == Some(
            comment.last_edit_time,
        ),
        !fields.contains(Field::LastEditTime) ==> info.last_edit_time is None,
        fields.contains(Field::User) && is_absent(rows.owners@, comment.id) ==> info.user is Some
            && info.user->0 is None,
        forall|row: int| #[trigger]
            is_first(rows.owners@, row, comment.id) && fields.contains(Field::User) ==> info.user
                is Some && info.user->0 is Some && is_micro_user(
                &ctx.config,
                rows.owners@[row].1,
                info.user->0->0,
            ),
        !fields.contains(Field::User) ==> info.user is None,
        forall|row: int| #[trigger]
            is_first(rows.scores@, row, comment.id) && fields.contains(Field::Score) ==> info.score
                == Some(rows.scores@[row].1),
        !fields.contains(Field::Score) ==> info.score is None,
        fields.contains(Field::OwnScore) && ctx.client.id is None ==> info.own_score == Some(
            Rating::Unrated,
        ),
        fields.contains(Field::OwnScore) && is_absent(rows.own_scores@, comment.id)
            ==> info.own_score == Some(Rating::Unrated),
        forall|row: int| #[trigger]
            is_first(rows.own_scores@, row, comment.id) && ctx.client.id is Some && fields.contains(
                Field::OwnScore,
            ) ==> {
                &&& rows.own_scores@[row].1 == Score::Like ==> info.own_score == Some(Rating::Like)
                &&& rows.own_scores@[row].1 == Score::Dislike ==> info.own_score == Some(
                    Rating::Dislike,
                )
            },
        !fields.contains(Field::OwnScore) ==> info.own_score is None,
{
    law_lookup_is_first_row(rows.owners@, comment.id);
    law_lookup_is_first_row(rows.scores@, comment.id);
    law_own_rating(ctx.client, rows.own_scores@, comment.id);
}

/// A batch of comments gives one resource for each comment, in their order.
pub proof fn law_comments_in_their_order<C: Config>(
    ctx: &Context<C>,
    comments: Vec<Comment>,
    fields: Mask<Field>,
    rows: &CommentRows,
    infos: Vec<CommentInfo>,
)
    requires
        call_ensures(CommentInfo::new_batch::<C>, (ctx, comments, fields, rows), infos),
    ensures
        infos@.len() == comments@.len(),
        forall|i: int|
            0 <= i < comments@.len() ==> is_comment_info(
                ctx,
                comments@[i],
                fields,
                rows,
                #[trigger] infos@[i],
            ),
{
}

/// The resource of one comment is that of the comment.
pub proof fn law_one_comment<C: Config>(
    ctx: &Context<C>,
    comment: Comment,
    fields: Mask<Field>,
    rows: &CommentRows,
    info: CommentInfo,
)
    requires
        call_ensures(CommentInfo::new::<C>, (ctx, comment, fields, rows), info),
    ensures
        is_comment_info(ctx, comment, fields, rows, info),
{
}

/// Comments by their ids: the resource at each position is that of the comment with the id at that
/// position.
pub proof fn law_comments_by_ids<C: Config>(
    ctx: &Context<C>,
    comment_ids: &[i64],
    unordered_comments: Vec<Comment>,
    fields: Mask<Field>,
    rows: &CommentRows,
    infos: Vec<CommentInfo>,
    i: int,
    at: int,
)
    requires
        call_ensures(
            CommentInfo::new_batch_from_ids::<C>,
            (ctx, comment_ids, unordered_comments, fields, rows),
            infos,
        ),
        0 <= i < comment_ids@.len(),
        is_first_record(unordered_comments@, at, comment_ids@[i]),
    ensures
        infos@.len() == comment_ids@.len(),
        is_comment_info(ctx, unordered_comments@[at], fields, rows, infos@[i]),
        unordered_comments@[at].id == comment_ids@[i],
{
    law_record_is_first(unordered_comments@, comment_ids@[i]);
    assert(is_comment_info(
        ctx,
        record(unordered_comments@, comment_ids@[i])->0,
        fields,
        rows,
        infos@[i],
    ));
}

/// One comment by id: the resource is that of the comment with the id.
pub proof fn law_comment_by_id<C: Config>(
    ctx: &Context<C>,
    comment_id: i64,
    unordered_comments: Vec<Comment>,
    fields: Mask<Field>,
    rows: &CommentRows,
    info: CommentInfo,
    at: int,
)
    requires
        call_ensures(
            CommentInfo::new_from_id::<C>,
            (ctx, comment_id, unordered_comments, fields, rows),
            info,
        ),
        is_first_record(unordered_comments@, at, comment_id),
    ensures
        is_comment_info(ctx, unordered_comments@[at], fields, rows, info),
        unordered_comments@[at].id == comment_id,
{
    law_record_is_first(unordered_comments@, comment_id);
}

/// To select more fields of a comment changes nothing in those that were selected before.
pub proof fn law_larger_mask_keeps_comment_fields<C: Config>(
    ctx: &Context<C>,
    comment: Comment,
    fields: Mask<Field>,
    larger: Mask<Field>,
    rows: &CommentRows,
    info: CommentInfo,
    larger_info: CommentInfo,
)
    requires
        answers_once(&ctx.config),
        forall|field: Field| #[trigger] fields.contains(field) ==> larger.contains(field),
        is_comment_info(ctx, comment, fields, rows, info),
        is_comment_info(ctx, comment, larger, rows, larger_info),
    ensures
        fields.contains(Field::Version) ==> info.version == larger_info.version,
        fields.contains(Field::Id) ==> info.id == larger_info.id,
        fields.contains(Field::PostId) ==> info.post_id == larger_info.post_id,
        fields.contains(Field::Text) ==> info.text == larger_info.text,
        fields.contains(Field::CreationTime) ==> info.creation_time == larger_info.creation_time,
        fields.contains(Field::LastEditTime) ==> info.last_edit_time == larger_info.last_edit_time,
        fields.contains(Field::User) ==> info.user.deep_view() == larger_info.user.deep_view(),
        fields.contains(Field::Score) ==> info.score == larger_info.score,
        fields.contains(Field::OwnScore) ==> info.own_score == larger_info.own_score,
{
    if let (Some(a), Some(b)) = (info.user, larger_info.user) {
        lemma_owner_once(&ctx.config, lookup(rows.owners@, comment.id), a, b);
    }
}

/// Two comments that differ in no more than the time of the last edit are shown alike in every
/// field but the version and that time.
pub proof fn law_last_edit_shows_in_its_fields_only<C: Config>(
    ctx: &Context<C>,
    comment: Comment,
    other: Comment,
    fields: Mask<Field>,
    rows: &CommentRows,
    info: CommentInfo,
    other_info: CommentInfo,
)
    requires
        answers_once(&ctx.config),
        other == (Comment { last_edit_time: other.last_edit_time, ..comment }),
        is_comment_info(ctx, comment, fields, rows, info),
        is_comment_info(ctx, other, fields, rows, other_info),
    ensures
        info.id == other_info.id,
        info.post_id == other_info.post_id,
        info.text == other_info.text,
        info.creation_time == other_info.creation_time,
        info.user.deep_view() == other_info.user.deep_view(),
        info.score == other_info.score,
        info.own_score == other_info.own_score,
{
    if let (Some(a), Some(b)) = (info.user, other_info.user) {
        lemma_owner_once(&ctx.config, lookup(rows.owners@, comment.id), a, b);
    }
}

/// Rows are complete where each comment has a score, if scores are selected.
pub proof fn law_comment_rows_complete(
    rows: &CommentRows,
    ids: &[i64],
    fields: Mask<Field>,
    complete: bool,
)
    requires
        call_ensures(CommentRows::is_complete, (rows, ids, fields), complete),
    ensures
        complete <==> rows.complete(ids@, fields),
        complete <==> (fields.contains(Field::Score) ==> forall|i: int|
            0 <= i < ids@.len() ==> !is_absent(rows.scores@, #[trigger] ids@[i])),
{
    assert forall|id: i64| #[trigger] is_absent(rows.scores@, id) <==> lookup(
        rows.scores@,
        id,
    ) is None by {
        law_lookup_is_first_row(rows.scores@, id);
    }
    if complete && fields.contains(Field::Score) {
        assert forall|i: int| 0 <= i < ids@.len() implies !is_absent(
            rows.scores@,
            #[trigger] ids@[i],
        ) by {
            assert(lookup(rows.scores@, ids@[i]) is Some);
        }
    }
}

/// Resources can be made of all comments with complete rows.
pub proof fn law_comments_can_be_shown<C: Config>(
    ctx: &Context<C>,
    comments: Vec<Comment>,
    fields: Mask<Field>,
    rows: &CommentRows,
)
    requires
        rows.complete(Seq::new(comments@.len(), |i: int| comments@[i].id), fields),
    ensures
        call_requires(CommentInfo::new_batch::<C>, (ctx, comments, fields, rows)),
{
    assert(keys(comments@) =~= Seq::new(comments@.len(), |i: int| comments@[i].id));
}

/// The resource at each position of a batch has the stored columns of the comment at that position,
/// whatever other fields are selected.
pub proof fn law_batch_has_columns_of_comments<C: Config>(
    ctx: &Context<C>,
    comments: Vec<Comment>,
    fields: Mask<Field>,
    rows: &CommentRows,
    infos: Vec<CommentInfo>,
    at: int,
)
    requires
        call_ensures(CommentInfo::new_batch::<C>, (ctx, comments, fields, rows), infos),
        0 <= at < comments@.len(),
    ensures
        fields.contains(Field::Version) ==> infos@[at].version == Some(
            comments@[at].last_edit_time,
        ),
        !fields.contains(Field::Version) ==> infos@[at].version is None,
        fields.contains(Field::Id) ==> infos@[at].id == Some(comments@[at].id),
        !fields.contains(Field::Id) ==> infos@[at].id is None,
        fields.contains(Field::PostId) ==> infos@[at].post_id == Some(comments@[at].post_id),
        !fields.contains(Field::PostId) ==> infos@[at].post_id is None,
        fields.contains(Field::Text) ==> infos@[at].text == Some(comments@[at].text),
        !fields.contains(Field::Text) ==> infos@[at].text is None,
        fields.contains(Field::CreationTime) ==> infos@[at].creation_time == Some(
            comments@[at].creation_time,
        ),
        !fields.contains(Field::CreationTime) ==> infos@[at].creation_time is None,
        fields.contains(Field::LastEditTime) ==> infos@[at].last_edit_time == Some(
            comments@[at].last_edit_time,
        ),
        !fields.contains(Field::LastEditTime) ==> infos@[at].last_edit_time is None,
{
    assert(is_comment_info(ctx, comments@[at], fields, rows, infos@[at]));
}

} // verus!
