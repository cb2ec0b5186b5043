//! Laws of the resources of posts.

use crate::config::{Client, Config, Context};
use crate::laws::comments::law_own_rating;
use crate::laws::rows::{
    is_absent, is_first, is_first_record, is_last, law_group_of_parent, law_lookup_is_first_row,
    law_map_holds_last_rows, law_ordered_records, law_record_is_first,
};
use crate::model::{NewPostNote, Post, PostNote, Rating, Score, UserRow};
use crate::resource::comment::CommentInfo;
use crate::resource::field::Mask;
use crate::resource::pool::is_pool_list;
use crate::resource::post::{
    coordinates, flattened, get_comments, get_content_urls, get_favorited_by, get_notes,
    get_own_favorites, get_relations, get_thumbnail_urls, has_vertices, is_comment_list,
    is_content_url, is_favoriter_list, is_listed_comment, is_note, is_note_list, is_own_favorite,
    is_post_info, is_relation_list, is_thumbnail_url, CommentRow, Field, MicroPost, Note, PostInfo,
    PostRows,
};
use crate::resource::tag::is_tag_list;
use crate::resource::user::{is_micro_user, MicroUser};
use crate::resource::{children_of, covers, keys, lookup, ordered};
use crate::text::{hex_digit, lower_hex};
use vstd::prelude::*;

verus! {

/// The text writes out the bytes: for each byte two digits in lower case, the higher one first.
pub open spec fn is_written_out(bytes: Seq<u8>, text: Seq<char>) -> bool {
    &&& text.len() == 2 * bytes.len()
    &&& forall|i: int|
        0 <= i < bytes.len() ==> {
            &&& digit_value(text[2 * i]) * 16 + digit_value(text[2 * i + 1]) == #[trigger] bytes[i]
            &&& is_digit(text[2 * i])
            &&& is_digit(text[2 * i + 1])
        }
}

/// A hexadecimal digit in lower case.
pub open spec fn is_digit(digit: char) -> bool {
    '0' <= digit <= '9' || 'a' <= digit <= 'f'
}

/// The value of a hexadecimal digit in lower case.
pub open spec fn digit_value(digit: char) -> int {
    if digit <= '9' {
        digit as int - '0' as int
    } else {
        digit as int - 'a' as int + 10
    }
}

proof fn lemma_hex_digit(value: int)
    requires
        0 <= value < 16,
    ensures
        is_digit(hex_digit(value)),
        digit_value(hex_digit(value)) == value,
{
    reveal_strlit("0123456789abcdef");
    let digits = "0123456789abcdef"@;
    assert(digits[0] == '0' && digits[1] == '1' && digits[2] == '2' && digits[3] == '3');
    assert(digits[4] == '4' && digits[5] == '5' && digits[6] == '6' && digits[7] == '7');
    assert(digits[8] == '8' && digits[9] == '9' && digits[10] == 'a' && digits[11] == 'b');
    assert(digits[12] == 'c' && digits[13] == 'd' && digits[14] == 'e' && digits[15] == 'f');
}

/// Bytes in hexadecimal are written out digit by digit.
pub proof fn law_hex_writes_out_bytes(bytes: Seq<u8>)
    ensures
        is_written_out(bytes, lower_hex(bytes)),
{
    assert forall|i: int| 0 <= i < bytes.len() implies {
        &&& digit_value(lower_hex(bytes)[2 * i]) * 16 + digit_value(lower_hex(bytes)[2 * i + 1])
            == #[trigger] bytes[i]
        &&& is_digit(lower_hex(bytes)[2 * i])
        &&& is_digit(lower_hex(bytes)[2 * i + 1])
    } by {
        lemma_hex_digit(bytes[i] as int / 16);
        lemma_hex_digit(bytes[i] as int % 16);
        assert(lower_hex(bytes)[2 * i] == hex_digit(bytes[i] as int / 16));
        assert(lower_hex(bytes)[2 * i + 1] == hex_digit(bytes[i] as int % 16));
    }
}

/// Each selected stored field of a post is the stored column of that name, whatever the other
/// columns hold; no other stored field is there.
pub proof fn law_post_shows_its_columns<C: Config, N>(
    ctx: &Context<C>,
    posts: Seq<Post>,
    at: int,
    fields: Mask<Field>,
    rows: &PostRows<N>,
    info: PostInfo<N>,
)
    requires
        is_post_info(ctx, posts, at, fields, rows, info),
    ensures
        fields.contains(Field::Version) ==> info.version == Some(posts[at].last_edit_time),
        !fields.contains(Field::Version) ==> info.version is None,
        fields.contains(Field::Id) ==> info.id == Some(posts[at].id),
        !fields.contains(Field::Id) ==> info.id is None,
        fields.contains(Field::FileSize) ==> info.file_size == Some(posts[at].file_size),
        !fields.contains(Field::FileSize) ==> info.file_size is None,
        fields.contains(Field::CanvasWidth) ==> info.canvas_width == Some(posts[at].width),
        !fields.contains(Field::CanvasWidth) ==> info.canvas_width is None,
        fields.contains(Field::CanvasHeight) ==> info.canvas_height == Some(posts[at].height),
        !fields.contains(Field::CanvasHeight) ==> info.canvas_height is None,
        fields.contains(Field::Safety) ==> info.safety == Some(posts[at].safety),
        !fields.contains(Field::Safety) ==> info.safety is None,
        fields.contains(Field::Type) ==> info.type_ == Some(posts[at].type_),
        !fields.contains(Field::Type) ==> info.type_ is None,
        fields.contains(Field::MimeType) ==> info.mime_type == Some(posts[at].mime_type),
        !fields.contains(Field::MimeType) ==> info.mime_type is None,
        fields.contains(Field::Flags) ==> info.flags == Some(posts[at].flags),
        !fields.contains(Field::Flags) ==> info.flags is None,
        fields.contains(Field::Source) ==> info.source == Some(posts[at].source),
        !fields.contains(Field::Source) ==> info.source is None,
        fields.contains(Field::Description) ==> info.description == Some(posts[at].description),
        !fields.contains(Field::Description) ==> info.description is None,
        fields.contains(Field::CreationTime) ==> info.creation_time == Some(
            posts[at].creation_time,
        ),
        !fields.contains(Field::CreationTime) ==> info.creation_time is None,
        fields.contains(Field::LastEditTime) ==> info.last_edit_time == Some(
            posts[at].last_edit_time,
        ),
        !fields.contains(Field::LastEditTime) ==> info.last_edit_time is None,
        fields.contains(Field::Checksum) ==> info.checksum is Some && is_written_out(
            posts[at].checksum@,
            info.checksum->0@,
        ),
        !fields.contains(Field::Checksum) ==> info.checksum is None,
        fields.contains(Field::ChecksumMd5) ==> info.checksum_md5 is Some && is_written_out(
            posts[at].checksum_md5@,
            info.checksum_md5->0@,
        ),
        !fields.contains(Field::ChecksumMd5) ==> info.checksum_md5 is None,
{
    law_hex_writes_out_bytes(posts[at].checksum@);
    law_hex_writes_out_bytes(posts[at].checksum_md5@);
}

/// Each selected statistic of a post is the value of the first row of the post; no other is there.
pub proof fn law_post_shows_its_statistics<C: Config, N>(
    ctx: &Context<C>,
    posts: Seq<Post>,
    at: int,
    fields: Mask<Field>,
    rows: &PostRows<N>,
    info: PostInfo<N>,
)
    requires
        is_post_info(ctx, posts, at, fields, rows, info),
    ensures
        forall|row: int| #[trigger]
            is_first(rows.scores@, row, posts[at].id) && fields.contains(Field::Score)
                ==> info.score == Some(rows.scores@[row].1),
        !fields.contains(Field::Score) ==> info.score is None,
        forall|row: int| #[trigger]
            is_first(rows.tag_counts@, row, posts[at].id) && fields.contains(Field::TagCount)
                ==> info.tag_count == Some(rows.tag_counts@[row].1),
        !fields.contains(Field::TagCount) ==> info.tag_count is None,
        forall|row: int| #[trigger]
            is_first(rows.comment_counts@, row, posts[at].id) && fields.contains(
                Field::CommentCount,
            )
                ==> info.comment_count == Some(rows.comment_counts@[row].1),
        !fields.contains(Field::CommentCount) ==> info.comment_count is None,
        forall|row: int| #[trigger]
            is_first(rows.relation_counts@, row, posts[at].id) && fields.contains(
                Field::RelationCount,
            )
                ==> info.relation_count == Some(rows.relation_counts@[row].1),
        !fields.contains(Field::RelationCount) ==> info.relation_count is None,
        forall|row: int| #[trigger]
            is_first(rows.note_counts@, row, posts[at].id) && fields.contains(Field::NoteCount)
                ==> info.note_count == Some(rows.note_counts@[row].1),
        !fields.contains(Field::NoteCount) ==> info.note_count is None,
        forall|row: int| #[trigger]
            is_first(rows.favorite_counts@, row, posts[at].id) && fields.contains(
                Field::FavoriteCount,
            )
                ==> info.favorite_count == Some(rows.favorite_counts@[row].1),
        !fields.contains(Field::FavoriteCount) ==> info.favorite_count is None,
        forall|row: int| #[trigger]
            is_first(rows.feature_counts@, row, posts[at].id) && fields.contains(
                Field::FeatureCount,
            )
                ==> info.feature_count == Some(rows.feature_counts@[row].1),
        !fields.contains(Field::FeatureCount) ==> info.feature_count is None,
        forall|row: int| #[trigger]
            is_first(rows.last_feature_times@, row, posts[at].id) && fields.contains(
                Field::LastFeatureTime,
            )
                ==> info.last_feature_time == Some(rows.last_feature_times@[row].1),
        !fields.contains(Field::LastFeatureTime) ==> info.last_feature_time is None,
        forall|row: int| #[trigger]
            is_first(rows.custom_thumbnails@, row, posts[at].id) && fields.contains(
                Field::HasCustomThumbnail,
            )
                ==> info.has_custom_thumbnail == Some(rows.custom_thumbnails@[row].1),
        !fields.contains(Field::HasCustomThumbnail) ==> info.has_custom_thumbnail is None,
{
    law_lookup_is_first_row(rows.scores@, posts[at].id);
    law_lookup_is_first_row(rows.tag_counts@, posts[at].id);
    law_lookup_is_first_row(rows.comment_counts@, posts[at].id);
    law_lookup_is_first_row(rows.relation_counts@, posts[at].id);
    law_lookup_is_first_row(rows.note_counts@, posts[at].id);
    law_lookup_is_first_row(rows.favorite_counts@, posts[at].id);
    law_lookup_is_first_row(rows.feature_counts@, posts[at].id);
    law_lookup_is_first_row(rows.last_feature_times@, posts[at].id);
    law_lookup_is_first_row(rows.custom_thumbnails@, posts[at].id);
}

/// The owner, the URLs and the client's own marks of a post are those of the post, each where it is
/// selected and only there.
pub proof fn law_post_shows_owner_places_and_marks<C: Config, N>(
    ctx: &Context<C>,
    posts: Seq<Post>,
    at: int,
    fields: Mask<Field>,
    rows: &PostRows<N>,
    info: PostInfo<N>,
)
    requires
        is_post_info(ctx, posts, at, fields, rows, info),
    ensures
        fields.contains(Field::User) && is_absent(rows.owners@, posts[at].id) ==> info.user is Some
            && info.user->0 is None,
        forall|row: int| #[trigger]
            is_first(rows.owners@, row, posts[at].id) && fields.contains(Field::User)
                ==> info.user is Some && info.user->0 is Some && is_micro_user(
                &ctx.config,
                rows.owners@[row].1,
                info.user->0->0,
            ),
        !fields.contains(Field::User) ==> info.user is None,
        fields.contains(Field::ContentUrl) ==> info.content_url is Some && call_ensures(
            C::content_url,
            (
                &ctx.config,
                posts[at].id,
                Some(posts[at].custom_thumbnail_size),
                posts[at].mime_type,
            ),
            info.content_url->0,
        ),
        !fields.contains(Field::ContentUrl) ==> info.content_url is None,
        fields.contains(Field::ThumbnailUrl) ==> info.thumbnail_url is Some && call_ensures(
            C::thumbnail_url,
            (&ctx.config, posts[at].id, Some(posts[at].custom_thumbnail_size)),
            info.thumbnail_url->0,
        ),
        !fields.contains(Field::ThumbnailUrl) ==> info.thumbnail_url is None,
        fields.contains(Field::OwnScore) && ctx.client.id is None ==> info.own_score == Some(
            Rating::Unrated,
        ),
        fields.contains(Field::OwnScore) && is_absent(rows.own_scores@, posts[at].id)
            ==> info.own_score == Some(Rating::Unrated),
        forall|row: int| #[trigger]
            is_first(rows.own_scores@, row, posts[at].id) && ctx.client.id is Some
                && fields.contains(Field::OwnScore) ==> {
                &&& rows.own_scores@[row].1 == Score::Like ==> info.own_score == Some(Rating::Like)
                &&& rows.own_scores@[row].1 == Score::Dislike ==> info.own_score == Some(
                    Rating::Dislike,
                )
            },
        !fields.contains(Field::OwnScore) ==> info.own_score is None,
        fields.contains(Field::OwnFavorite) ==> info.own_favorite == Some(
            ctx.client.id is Some && exists|k: int|
                0 <= k < rows.own_favorites@.len() && #[trigger] rows.own_favorites@[k]
                    == posts[at].id,
        ),
        !fields.contains(Field::OwnFavorite) ==> info.own_favorite is None,
{
    law_lookup_is_first_row(rows.owners@, posts[at].id);
    law_own_rating(ctx.client, rows.own_scores@, posts[at].id);
}

/// The lists of a post are those of its position in the batch, each where it is selected and only
/// there.
pub proof fn law_post_shows_its_lists<C: Config, N>(
    ctx: &Context<C>,
    posts: Seq<Post>,
    at: int,
    fields: Mask<Field>,
    rows: &PostRows<N>,
    info: PostInfo<N>,
    ids: Seq<i64>,
)
    requires
        is_post_info(ctx, posts, at, fields, rows, info),
        ids == posts.map_values(|post: Post| post.id),
    ensures
        fields.contains(Field::Tags) ==> info.tags is Some && is_tag_list(
            &rows.tags,
            ids,
            at,
            info.tags->0@,
        ),
        !fields.contains(Field::Tags) ==> info.tags is None,
        fields.contains(Field::Comments) ==> info.comments is Some && is_comment_list(
            ctx,
            rows.comments@,
            rows.comment_scores@,
            ids,
            at,
            info.comments->0@,
        ),
        !fields.contains(Field::Comments) ==> info.comments is None,
        fields.contains(Field::Relations) ==> info.relations is Some && is_relation_list(
            &ctx.config,
            rows.relations@,
            ids,
            at,
            info.relations->0@,
        ),
        !fields.contains(Field::Relations) ==> info.relations is None,
        fields.contains(Field::Pools) ==> info.pools is Some && is_pool_list(
            &rows.pools,
            ids,
            at,
            info.pools->0@,
        ),
        !fields.contains(Field::Pools) ==> info.pools is None,
        fields.contains(Field::Notes) ==> info.notes is Some && is_note_list(
            rows.notes@,
            ids,
            at,
            info.notes->0@,
        ),
        !fields.contains(Field::Notes) ==> info.notes is None,
        fields.contains(Field::FavoritedBy) ==> info.favorited_by is Some && is_favoriter_list(
            &ctx.config,
            rows.favorited_by@,
            ids,
            at,
            info.favorited_by->0@,
        ),
        !fields.contains(Field::FavoritedBy) ==> info.favorited_by is None,
{
    assert(keys(posts) =~= ids);
}

/// A comment in the list of a post has all its fields: those of the stored comment, the id of the
/// post, the score of the row, its author if it has one, and the client's own rating.
pub proof fn law_listed_comment_of_row<C: Config>(
    ctx: &Context<C>,
    post_id: i64,
    scores: Seq<(i64, Score)>,
    row: CommentRow,
    info: CommentInfo,
)
    requires
        is_listed_comment(ctx, post_id, scores, row, info),
    ensures
        info.version == Some(row.comment.last_edit_time),
        info.id == Some(row.comment.id),
        info.post_id == Some(post_id),
        info.text == Some(row.comment.text),
        info.creation_time == Some(row.comment.creation_time),
        info.last_edit_time == Some(row.comment.last_edit_time),
        info.score == Some(row.score),
        info.user is Some,
        row.owner is None <==> info.user->0 is None,
        row.owner is Some ==> is_micro_user(&ctx.config, row.owner->0, info.user->0->0),
        ctx.client.id is None ==> info.own_score == Some(Rating::Unrated),
        is_absent(scores, row.comment.id) ==> info.own_score == Some(Rating::Unrated),
        forall|score: int| #[trigger]
            is_last(scores, score, row.comment.id) && ctx.client.id is Some ==> {
                &&& scores[score].1 == Score::Like ==> info.own_score == Some(Rating::Like)
                &&& scores[score].1 == Score::Dislike ==> info.own_score == Some(Rating::Dislike)
            },
{
    law_map_holds_last_rows(scores, row.comment.id);
}

/// The list of comments of a post has the comments of its rows, in their order. Where the post
/// occurs again later in the batch, the list is empty.
pub proof fn law_comment_list_of_post<C: Config>(
    ctx: &Context<C>,
    comments: Seq<(i64, CommentRow)>,
    scores: Seq<(i64, Score)>,
    ids: Seq<i64>,
    at: int,
    infos: Seq<CommentInfo>,
)
    requires
        is_comment_list(ctx, comments, scores, ids, at, infos),
    ensures
        (exists|later: int| at < later < ids.len() && #[trigger] ids[later] == ids[at])
            ==> infos.len() == 0,
        (forall|later: int| at < later < ids.len() ==> #[trigger] ids[later] != ids[at]) ==> {
            &&& infos.len() == children_of(comments, ids[at]).len()
            &&& forall|k: int|
                0 <= k < infos.len() ==> is_listed_comment(
                    ctx,
                    ids[at],
                    scores,
                    children_of(comments, ids[at])[k],
                    #[trigger] infos[k],
                )
        },
{
    law_group_of_parent(comments, ids, at);
}

/// The list of related posts of a post has the posts of its rows, in their order, each with its
/// thumbnail. Where the post occurs again later in the batch, the list is empty.
pub proof fn law_relation_list_of_post<C: Config>(
    config: &C,
    relations: Seq<(i64, i64)>,
    ids: Seq<i64>,
    at: int,
    posts: Seq<MicroPost>,
)
    requires
        is_relation_list(config, relations, ids, at, posts),
    ensures
        (exists|later: int| at < later < ids.len() && #[trigger] ids[later] == ids[at])
            ==> posts.len() == 0,
        (forall|later: int| at < later < ids.len() ==> #[trigger] ids[later] != ids[at]) ==> {
            &&& posts.len() == children_of(relations, ids[at]).len()
            &&& forall|k: int|
                0 <= k < posts.len() ==> (#[trigger] posts[k]).id == children_of(
                    relations,
                    ids[at],
                )[k]
        },
        forall|k: int|
            0 <= k < posts.len() ==> call_ensures(
                C::thumbnail_url,
                (config, (#[trigger] posts[k]).id, None),
                posts[k].thumbnail_url,
            ),
{
    law_group_of_parent(relations, ids, at);
}

/// The list of annotations of a post has the annotations of its rows, in their order. Where the
/// post occurs again later in the batch, the list is empty.
pub proof fn law_note_list_of_post<N>(
    rows: Seq<(i64, PostNote<N>)>,
    ids: Seq<i64>,
    at: int,
    notes: Seq<Note<N>>,
)
    requires
        is_note_list(rows, ids, at, notes),
    ensures
        (exists|later: int| at < later < ids.len() && #[trigger] ids[later] == ids[at])
            ==> notes.len() == 0,
        (forall|later: int| at < later < ids.len() ==> #[trigger] ids[later] != ids[at]) ==> {
            &&& notes.len() == children_of(rows, ids[at]).len()
            &&& forall|k: int|
                0 <= k < notes.len() ==> is_note(children_of(rows, ids[at])[k], #[trigger] notes[k])
        },
{
    law_group_of_parent(rows, ids, at);
}

/// The list of those who favorited a post has the users of its rows, in their order. Where the post
/// occurs again later in the batch, the list is empty.
pub proof fn law_favoriter_list_of_post<C: Config>(
    config: &C,
    rows: Seq<(i64, UserRow)>,
    ids: Seq<i64>,
    at: int,
    users: Seq<MicroUser>,
)
    requires
        is_favoriter_list(config, rows, ids, at, users),
    ensures
        (exists|later: int| at < later < ids.len() && #[trigger] ids[later] == ids[at])
            ==> users.len() == 0,
        (forall|later: int| at < later < ids.len() ==> #[trigger] ids[later] != ids[at]) ==> {
            &&& users.len() == children_of(rows, ids[at]).len()
            &&& forall|k: int|
                0 <= k < users.len() ==> is_micro_user(
                    config,
                    children_of(rows, ids[at])[k],
                    #[trigger] users[k],
                )
        },
{
    law_group_of_parent(rows, ids, at);
}

/// A note that is loaded has the id and the text of its row. Its vertex at each position has the
/// stored coordinate at twice that position first and the next one second, and there are half as
/// many vertices as stored coordinates.
pub proof fn law_note_pairs_stored_coordinates<N>(row: PostNote<N>, note: Note<N>)
    requires
        has_vertices(row.polygon@),
        is_note(row, note),
    ensures
        note.id == row.id,
        note.text == row.text,
        note.polygon@.len() == row.polygon@.len() / 2,
        forall|i: int|
            0 <= i < note.polygon@.len() ==> Some((#[trigger] note.polygon@[i])@[0])
                == row.polygon@[2 * i] && Some(note.polygon@[i]@[1]) == row.polygon@[2 * i + 1],
{
    assert(flattened(note.polygon@).len() == coordinates(row.polygon@).len());
    assert forall|i: int| 0 <= i < note.polygon@.len() implies Some(
        (#[trigger] note.polygon@[i])@[0],
    )
        == row.polygon@[2 * i] && Some(note.polygon@[i]@[1]) == row.polygon@[2 * i + 1] by {
        assert(flattened(note.polygon@)[2 * i] == coordinates(row.polygon@)[2 * i]);
        assert(flattened(note.polygon@)[2 * i + 1] == coordinates(row.polygon@)[2 * i + 1]);
        assert(row.polygon@[2 * i] is Some);
        assert(row.polygon@[2 * i + 1] is Some);
    }
}

/// Loading a row gives the note of the row: the id and the text are those of the row, and the
/// vertices pair the stored coordinates in their order, for polygons of any size.
pub proof fn law_loaded_note<N: Copy>(row: PostNote<N>, note: Note<N>)
    requires
        call_ensures(Note::<N>::new, (row,), note),
        forall|i: int|
            0 <= i < row.polygon@.len() && i + row.polygon@.len() % 2 < row.polygon@.len()
                ==> (#[trigger] row.polygon@[i]) is Some,
    ensures
        is_note(row, note),
        note.id == row.id,
        note.text == row.text,
        note.polygon@.len() == row.polygon@.len() / 2,
        forall|i: int|
            0 <= i < note.polygon@.len() ==> (#[trigger] note.polygon@[i])@[0]
                == row.polygon@[2 * i]->0 && note.polygon@[i]@[1] == row.polygon@[2 * i + 1]->0,
{
    law_vertices_are_there(row.polygon@);
    law_note_pairs_stored_coordinates(row, note);
}

/// The stored coordinates of the vertices are there where none of them is null.
pub proof fn law_vertices_are_there<N>(polygon: Seq<Option<N>>)
    ensures
        has_vertices(polygon) <==> forall|i: int|
            0 <= i < polygon.len() && i + polygon.len() % 2 < polygon.len()
                ==> (#[trigger] polygon[i]) is Some,
{
    if has_vertices(polygon) {
        assert forall|i: int|
            0 <= i < polygon.len() && i + polygon.len() % 2 < polygon.len() implies (
        #[trigger] polygon[i]) is Some by {
            assert(i < 2 * (polygon.len() / 2));
        }
    }
}

/// The stored form of a note belongs to the given post and has the text of the note. At twice the
/// position of a vertex it has the first coordinate of the vertex, and next the second.
pub proof fn law_stored_note_lists_coordinates<'a, N: Copy>(
    note: &'a Note<N>,
    post_id: i64,
    stored: NewPostNote<'a, N>,
)
    requires
        call_ensures(Note::<N>::to_new_post_note, (note, post_id), stored),
    ensures
        stored.post_id == post_id,
        stored.text@ == note.text@,
        stored.polygon@.len() == 2 * note.polygon@.len(),
        forall|i: int|
            0 <= i < note.polygon@.len() ==> stored.polygon@[2 * i] == (
            #[trigger] note.polygon@[i])@[0] && stored.polygon@[2 * i + 1] == note.polygon@[i]@[1],
{
    assert forall|i: int| 0 <= i < note.polygon@.len() implies stored.polygon@[2 * i] == (
    #[trigger] note.polygon@[i])@[0] && stored.polygon@[2 * i + 1] == note.polygon@[i]@[1] by {
        assert(flattened(note.polygon@)[2 * i] == note.polygon@[i]@[0]);
        assert(flattened(note.polygon@)[2 * i + 1] == note.polygon@[i]@[1]);
    }
}

/// The identifier of a note is its id.
pub proof fn law_note_id<N: Copy>(note: &Note<N>, id: i64)
    requires
        call_ensures(Note::<N>::id, (note,), id),
    ensures
        id == note.id,
{
}

/// A batch of posts gives one resource for each post, in their order.
pub proof fn law_posts_in_their_order<C: Config, N: Copy>(
    ctx: &Context<C>,
    posts: Vec<Post>,
    fields: Mask<Field>,
    rows: PostRows<N>,
    infos: Vec<PostInfo<N>>,
)
    requires
        call_ensures(PostInfo::<N>::new_batch::<C>, (ctx, posts, fields, rows), infos),
    ensures
        infos@.len() == posts@.len(),
        forall|i: int|
            0 <= i < posts@.len() ==> is_post_info(
                ctx,
                posts@,
                i,
                fields,
                &rows,
                #[trigger] infos@[i],
            ),
{
}

/// The resource of one post is that of the post alone.
pub proof fn law_one_post<C: Config, N: Copy>(
    ctx: &Context<C>,
    post: Post,
    fields: Mask<Field>,
    rows: PostRows<N>,
    info: PostInfo<N>,
)
    requires
        call_ensures(PostInfo::<N>::new::<C>, (ctx, post, fields, rows), info),
    ensures
        is_post_info(ctx, seq![post], 0, fields, &rows, info),
{
}

/// Posts by their ids: the resources are those of a batch of posts that has at each position the
/// post with the id at that position.
pub proof fn law_posts_by_ids<C: Config, N: Copy>(
    ctx: &Context<C>,
    post_ids: &[i64],
    unordered_posts: Vec<Post>,
    fields: Mask<Field>,
    rows: PostRows<N>,
    infos: Vec<PostInfo<N>>,
    i: int,
    at: int,
)
    requires
        call_ensures(
            PostInfo::<N>::new_batch_from_ids::<C>,
            (ctx, post_ids, unordered_posts, fields, rows),
            infos,
        ),
        0 <= i < post_ids@.len(),
        is_first_record(unordered_posts@, at, post_ids@[i]),
    ensures
        infos@.len() == post_ids@.len(),
        is_post_info(ctx, ordered(unordered_posts@, post_ids@), i, fields, &rows, infos@[i]),
        ordered(unordered_posts@, post_ids@)[i] == unordered_posts@[at],
        unordered_posts@[at].id == post_ids@[i],
{
    law_ordered_records(unordered_posts@, post_ids@, i);
    assert(is_post_info(
        ctx,
        ordered(unordered_posts@, post_ids@),
        i,
        fields,
        &rows,
        infos@[i],
    ));
}

/// One post by id: the resource is that of the post with the id.
pub proof fn law_post_by_id<C: Config, N: Copy>(
    ctx: &Context<C>,
    post_id: i64,
    unordered_posts: Vec<Post>,
    fields: Mask<Field>,
    rows: PostRows<N>,
    info: PostInfo<N>,
    at: int,
)
    requires
        call_ensures(
            PostInfo::<N>::new_from_id::<C>,
            (ctx, post_id, unordered_posts, fields, rows),
            info,
        ),
        is_first_record(unordered_posts@, at, post_id),
    ensures
        is_post_info(ctx, seq![unordered_posts@[at]], 0, fields, &rows, info),
        unordered_posts@[at].id == post_id,
{
    law_record_is_first(unordered_posts@, post_id);
}

/// The content URLs are in the order of the posts, each for the id, the size of the custom
/// thumbnail and the format of its post.
pub proof fn law_content_urls_of_posts<C: Config>(
    config: &C,
    posts: &[Post],
    urls: Vec<String>,
    i: int,
)
    requires
        call_ensures(get_content_urls::<C>, (config, posts), urls),
        0 <= i < posts@.len(),
    ensures
        urls@.len() == posts@.len(),
        call_ensures(
            C::content_url,
            (config, posts@[i].id, Some(posts@[i].custom_thumbnail_size), posts@[i].mime_type),
            urls@[i],
        ),
{
    assert(is_content_url(config, posts@[i], urls@[i]));
}

/// The thumbnail URLs are in the order of the posts, each for the id and the size of the custom
/// thumbnail of its post.
pub proof fn law_thumbnail_urls_of_posts<C: Config>(
    config: &C,
    posts: &[Post],
    urls: Vec<String>,
    i: int,
)
    requires
        call_ensures(get_thumbnail_urls::<C>, (config, posts), urls),
        0 <= i < posts@.len(),
    ensures
        urls@.len() == posts@.len(),
        call_ensures(
            C::thumbnail_url,
            (config, posts@[i].id, Some(posts@[i].custom_thumbnail_size)),
            urls@[i],
        ),
{
    assert(is_thumbnail_url(config, posts@[i], urls@[i]));
}

/// The lists of comments are in the order of the posts.
pub proof fn law_comment_lists_in_order<C: Config>(
    ctx: &Context<C>,
    ids: &[i64],
    comments: Vec<(i64, CommentRow)>,
    scores: Vec<(i64, Score)>,
    lists: Vec<Vec<CommentInfo>>,
)
    requires
        call_ensures(get_comments::<C>, (ctx, ids, comments, scores), lists),
    ensures
        lists@.len() == ids@.len(),
        forall|i: int|
            0 <= i < ids@.len() ==> is_comment_list(
                ctx,
                comments@,
                scores@,
                ids@,
                i,
                (#[trigger] lists@[i])@,
            ),
{
}

/// The lists of related posts are in the order of the posts.
pub proof fn law_relation_lists_in_order<C: Config>(
    config: &C,
    ids: &[i64],
    relations: Vec<(i64, i64)>,
    lists: Vec<Vec<MicroPost>>,
)
    requires
        call_ensures(get_relations::<C>, (config, ids, relations), lists),
    ensures
        lists@.len() == ids@.len(),
        forall|i: int|
            0 <= i < ids@.len() ==> is_relation_list(
                config,
                relations@,
                ids@,
                i,
                (#[trigger] lists@[i])@,
            ),
{
}

/// The lists of annotations are in the order of the posts.
pub proof fn law_note_lists_in_order<N: Copy>(
    ids: &[i64],
    rows: Vec<(i64, PostNote<N>)>,
    lists: Vec<Vec<Note<N>>>,
)
    requires
        call_ensures(get_notes::<N>, (ids, rows), lists),
    ensures
        lists@.len() == ids@.len(),
        forall|i: int|
            0 <= i < ids@.len() ==> is_note_list(rows@, ids@, i, (#[trigger] lists@[i])@),
{
}

/// The lists of those who favorited the posts are in the order of the posts.
pub proof fn law_favoriter_lists_in_order<C: Config>(
    config: &C,
    ids: &[i64],
    rows: Vec<(i64, UserRow)>,
    lists: Vec<Vec<MicroUser>>,
)
    requires
        call_ensures(get_favorited_by::<C>, (config, ids, rows), lists),
    ensures
        lists@.len() == ids@.len(),
        forall|i: int|
            0 <= i < ids@.len() ==> is_favoriter_list(
                config,
                rows@,
                ids@,
                i,
                (#[trigger] lists@[i])@,
            ),
{
}

/// A post is the client's favorite where there is a client and a row with the post.
pub proof fn law_own_favorites_of_posts(
    client: Client,
    ids: &[i64],
    favorites: &Vec<i64>,
    own: Vec<bool>,
    i: int,
)
    requires
        call_ensures(get_own_favorites, (client, ids, favorites), own),
        0 <= i < ids@.len(),
    ensures
        own@.len() == ids@.len(),
        own@[i] <==> client.id is Some && exists|k: int|
            0 <= k < favorites@.len() && #[trigger] favorites@[k] == ids@[i],
{
    assert(own@[i] == is_own_favorite(client, favorites@, ids@[i]));
}

proof fn lemma_absent_is_not_found<T>(rows: Seq<(i64, T)>)
    ensures
        forall|id: i64| #[trigger] is_absent(rows, id) <==> lookup(rows, id) is None,
{
    assert forall|id: i64| #[trigger] is_absent(rows, id) <==> lookup(rows, id) is None by {
        law_lookup_is_first_row(rows, id);
    }
}

proof fn lemma_covered<T>(rows: Seq<(i64, T)>, ids: Seq<i64>)
    ensures
        covers(rows, ids) <==> forall|i: int|
            0 <= i < ids.len() ==> !is_absent(rows, #[trigger] ids[i]),
{
    lemma_absent_is_not_found(rows);
    if covers(rows, ids) {
        assert forall|i: int| 0 <= i < ids.len() implies !is_absent(rows, #[trigger] ids[i]) by {
            assert(lookup(rows, ids[i]) is Some);
        }
    }
}

/// The rows of posts are complete where each selected field has what it needs.
pub proof fn law_post_rows_complete<N>(
    rows: &PostRows<N>,
    ids: &[i64],
    fields: Mask<Field>,
    complete: bool,
)
    requires
        call_ensures(PostRows::<N>::is_complete, (rows, ids, fields), complete),
    ensures
        complete == rows.complete(ids@, fields),
        complete <==> {
            &&& fields.contains(Field::Tags) ==> rows.tags.complete(ids@)
            &&& fields.contains(Field::Pools) ==> rows.pools.complete(ids@)
            &&& fields.contains(Field::Notes) ==> forall|k: int|
                0 <= k < rows.notes@.len() && ids@.contains((#[trigger] rows.notes@[k]).0)
                    ==> has_vertices(rows.notes@[k].1.polygon@)
            &&& fields.contains(Field::Score) ==> forall|i: int|
                0 <= i < ids@.len() ==> !is_absent(rows.scores@, #[trigger] ids@[i])
            &&& fields.contains(Field::TagCount) ==> forall|i: int|
                0 <= i < ids@.len() ==> !is_absent(rows.tag_counts@, #[trigger] ids@[i])
            &&& fields.contains(Field::CommentCount) ==> forall|i: int|
                0 <= i < ids@.len() ==> !is_absent(rows.comment_counts@, #[trigger] ids@[i])
            &&& fields.contains(Field::RelationCount) ==> forall|i: int|
                0 <= i < ids@.len() ==> !is_absent(rows.relation_counts@, #[trigger] ids@[i])
            &&& fields.contains(Field::NoteCount) ==> forall|i: int|
                0 <= i < ids@.len() ==> !is_absent(rows.note_counts@, #[trigger] ids@[i])
            &&& fields.contains(Field::FavoriteCount) ==> forall|i: int|
                0 <= i < ids@.len() ==> !is_absent(rows.favorite_counts@, #[trigger] ids@[i])
            &&& fields.contains(Field::FeatureCount) ==> forall|i: int|
                0 <= i < ids@.len() ==> !is_absent(rows.feature_counts@, #[trigger] ids@[i])
            &&& fields.contains(Field::LastFeatureTime) ==> forall|i: int|
                0 <= i < ids@.len() ==> !is_absent(rows.last_feature_times@, #[trigger] ids@[i])
            &&& fields.contains(Field::HasCustomThumbnail) ==> forall|i: int|
                0 <= i < ids@.len() ==> !is_absent(rows.custom_thumbnails@, #[trigger] ids@[i])
        },
{
    lemma_covered(rows.scores@, ids@);
    lemma_covered(rows.tag_counts@, ids@);
    lemma_covered(rows.comment_counts@, ids@);
    lemma_covered(rows.relation_counts@, ids@);
    lemma_covered(rows.note_counts@, ids@);
    lemma_covered(rows.favorite_counts@, ids@);
    lemma_covered(rows.feature_counts@, ids@);
    lemma_covered(rows.last_feature_times@, ids@);
    lemma_covered(rows.custom_thumbnails@, ids@);
}

/// A note and its copy have the same vertices and the same text.
pub proof fn law_copied_note<N: Copy>(note: &Note<N>, copy: Note<N>)
    requires
        call_ensures(Note::<N>::clone, (note,), copy),
    ensures
        copy.id == note.id,
        copy.polygon@.len() == note.polygon@.len(),
        forall|i: int|
            0 <= i < note.polygon@.len() ==> #[trigger] copy.polygon@[i]@ == note.polygon@[i]@,
        copy.text@ == note.text@,
{
}

/// Resources can be made of all posts with complete rows and with checksums that fit in memory when
/// they are written out.
pub proof fn law_posts_can_be_shown<N: Copy, C: Config>(
    ctx: &Context<C>,
    posts: Vec<Post>,
    fields: Mask<Field>,
    rows: PostRows<N>,
)
    requires
        rows.complete(Seq::new(posts@.len(), |i: int| posts@[i].id), fields),
        forall|i: int|
            0 <= i < posts@.len() ==> 2 * (#[trigger] posts@[i]).checksum@.len() <= isize::MAX && 2
                * posts@[i].checksum_md5@.len() <= isize::MAX,
    ensures
        call_requires(PostInfo::<N>::new_batch::<C>, (ctx, posts, fields, rows)),
{
    assert(keys(posts@) =~= Seq::new(posts@.len(), |i: int| posts@[i].id));
}

/// The resource at each position of a batch has the stored columns of the post at that position:
/// the width is the stored width and the height the stored height, whatever the proportions.
pub proof fn law_batch_has_columns_of_posts<C: Config, N: Copy>(
    ctx: &Context<C>,
    posts: Vec<Post>,
    fields: Mask<Field>,
    rows: PostRows<N>,
    infos: Vec<PostInfo<N>>,
    at: int,
)
    requires
        call_ensures(PostInfo::<N>::new_batch::<C>, (ctx, posts, fields, rows), infos),
        0 <= at < posts@.len(),
    ensures
        fields.contains(Field::Version) ==> infos@[at].version == Some(posts@[at].last_edit_time),
        !fields.contains(Field::Version) ==> infos@[at].version is None,
        fields.contains(Field::Id) ==> infos@[at].id == Some(posts@[at].id),
        !fields.contains(Field::Id) ==> infos@[at].id is None,
        fields.contains(Field::FileSize) ==> infos@[at].file_size == Some(posts@[at].file_size),
        !fields.contains(Field::FileSize) ==> infos@[at].file_size is None,
        fields.contains(Field::CanvasWidth) ==> infos@[at].canvas_width == Some(posts@[at].width),
        !fields.contains(Field::CanvasWidth) ==> infos@[at].canvas_width is None,
        fields.contains(Field::CanvasHeight) ==> infos@[at].canvas_height == Some(
            posts@[at].height,
        ),
        !fields.contains(Field::CanvasHeight) ==> infos@[at].canvas_height is None,
        fields.contains(Field::Safety) ==> infos@[at].safety == Some(posts@[at].safety),
        !fields.contains(Field::Safety) ==> infos@[at].safety is None,
        fields.contains(Field::Type) ==> infos@[at].type_ == Some(posts@[at].type_),
        !fields.contains(Field::Type) ==> infos@[at].type_ is None,
        fields.contains(Field::MimeType) ==> infos@[at].mime_type == Some(posts@[at].mime_type),
        !fields.contains(Field::MimeType) ==> infos@[at].mime_type is None,
        fields.contains(Field::Flags) ==> infos@[at].flags == Some(posts@[at].flags),
        !fields.contains(Field::Flags) ==> infos@[at].flags is None,
        fields.contains(Field::Source) ==> infos@[at].source == Some(posts@[at].source),
        !fields.contains(Field::Source) ==> infos@[at].source is None,
        fields.contains(Field::Description) ==> infos@[at].description == Some(
            posts@[at].description,
        ),
        !fields.contains(Field::Description) ==> infos@[at].description is None,
        fields.contains(Field::CreationTime) ==> infos@[at].creation_time == Some(
            posts@[at].creation_time,
        ),
        !fields.contains(Field::CreationTime) ==> infos@[at].creation_time is None,
        fields.contains(Field::LastEditTime) ==> infos@[at].last_edit_time == Some(
            posts@[at].last_edit_time,
        ),
        !fields.contains(Field::LastEditTime) ==> infos@[at].last_edit_time is None,
{
    assert(is_post_info(ctx, posts@, at, fields, &rows, infos@[at]));
}

} // verus!
