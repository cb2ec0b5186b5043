//! Comment resources.

use crate::config::{Client, Config, Context};
use crate::model::{rating, rating_of, Comment, DateTime, Rating, Score, UserRow};
use crate::resource::field::{Mask, ResourceField};
use crate::resource::user::{get_owners, is_owner, MicroUser, MicroUserView};
use crate::resource::{
    can_order, column_length, covers, find, has_rows, ids_of, keys, lookup, order_as,
    order_transformed_as, record, remaining, reversed, show, shown, single,
};
use crate::text::same_text;
use vstd::prelude::*;
use vstd::std_specs::convert::FromSpecImpl;

verus! {

/// The fields of a comment resource.
#[derive(Clone, Copy, Debug, PartialEq, Eq, Structural)]
pub enum Field {
    Version,
    Id,
    PostId,
    Text,
    CreationTime,
    LastEditTime,
    User,
    Score,
    OwnScore,
}

impl Field {
    /// The number of the field, in the order of their declaration.
    pub open spec fn number(self) -> u64 {
        match self {
            Field::Version => 0,
            Field::Id => 1,
            Field::PostId => 2,
            Field::Text => 3,
            Field::CreationTime => 4,
            Field::LastEditTime => 5,
            Field::User => 6,
            Field::Score => 7,
            Field::OwnScore => 8,
        }
    }

    /// The number of the field, in the order of their declaration.
    pub fn to_number(self) -> (number: u64)
        ensures
            number == self.number(),
    {
        match self {
            Field::Version => 0,
            Field::Id => 1,
            Field::PostId => 2,
            Field::Text => 3,
            Field::CreationTime => 4,
            Field::LastEditTime => 5,
            Field::User => 6,
            Field::Score => 7,
            Field::OwnScore => 8,
        }
    }
}

impl ResourceField for Field {
    open spec fn position(self) -> u64 {
        self.number()
    }

    open spec fn name(self) -> Seq<char> {
        match self {
            Field::Version => "version"@,
            Field::Id => "id"@,
            Field::PostId => "postId"@,
            Field::Text => "text"@,
            Field::CreationTime => "creationTime"@,
            Field::LastEditTime => "lastEditTime"@,
            Field::User => "user"@,
            Field::Score => "score"@,
            Field::OwnScore => "ownScore"@,
        }
    }

    fn index(self) -> (index: u64) {
        self.to_number()
    }

    fn parse(name: &str) -> (field: Option<Self>) {
        if same_text(name, "version") {
            Some(Field::Version)
        } else if same_text(name, "id") {
            Some(Field::Id)
        } else if same_text(name, "postId") {
            Some(Field::PostId)
        } else if same_text(name, "text") {
            Some(Field::Text)
        } else if same_text(name, "creationTime") {
            Some(Field::CreationTime)
        } else if same_text(name, "lastEditTime") {
            Some(Field::LastEditTime)
        } else if same_text(name, "user") {
            Some(Field::User)
        } else if same_text(name, "score") {
            Some(Field::Score)
        } else if same_text(name, "ownScore") {
            Some(Field::OwnScore)
        } else {
            None
        }
    }

    proof fn law_position_fits(self) {
    }

    proof fn law_positions_differ(a: Self, b: Self) {
    }

    proof fn law_names_differ(a: Self, b: Self) {
        reveal_strlit("version");
        reveal_strlit("id");
        reveal_strlit("postId");
        reveal_strlit("text");
        reveal_strlit("creationTime");
        reveal_strlit("lastEditTime");
        reveal_strlit("user");
        reveal_strlit("score");
        reveal_strlit("ownScore");
        assert("version"@.len() == 7 && "version"@[0] == 'v');
        assert("id"@.len() == 2 && "id"@[0] == 'i');
        assert("postId"@.len() == 6 && "postId"@[0] == 'p');
        assert("text"@.len() == 4 && "text"@[0] == 't');
        assert("creationTime"@.len() == 12 && "creationTime"@[0] == 'c');
        assert("lastEditTime"@.len() == 12 && "lastEditTime"@[0] == 'l');
        assert("user"@.len() == 4 && "user"@[0] == 'u');
        assert("score"@.len() == 5 && "score"@[0] == 's');
        assert("ownScore"@.len() == 8 && "ownScore"@[0] == 'o');
    }
}

impl From<Field> for u64 {
    fn from(field: Field) -> (index: u64) {
        field.to_number()
    }
}

impl FromSpecImpl<Field> for u64 {
    open spec fn obeys_from_spec() -> bool {
        true
    }

    open spec fn from_spec(field: Field) -> u64 {
        field.number()
    }
}

/// A comment under a post.
#[derive(Debug)]
pub struct CommentInfo {
    /// Resource version.
    pub version: Option<DateTime>,
    /// The comment identifier.
    pub id: Option<i64>,
    /// ID of the post the comment is for.
    pub post_id: Option<i64>,
    /// The comment content. The client should render this as Markdown.
    pub text: Option<String>,
    /// Time the comment was created.
    pub creation_time: Option<DateTime>,
    /// Time the comment was last edited.
    pub last_edit_time: Option<DateTime>,
    /// A micro user resource for the comment author, or null if anonymous.
    pub user: Option<Option<MicroUser>>,
    /// The collective score (+1/-1 rating) of the comment.
    pub score: Option<i64>,
    /// The score (+1/-1 rating) of the comment by the authenticated user.
    pub own_score: Option<Rating>,
}

/// What a comment resource shows.
pub struct CommentInfoView {
    pub version: Option<DateTime>,
    pub id: Option<i64>,
    pub post_id: Option<i64>,
    pub text: Option<Seq<char>>,
    pub creation_time: Option<DateTime>,
    pub last_edit_time: Option<DateTime>,
    pub user: Option<Option<MicroUserView>>,
    pub score: Option<i64>,
    pub own_score: Option<Rating>,
}

impl DeepView for CommentInfo {
    type V = CommentInfoView;

    open spec fn deep_view(&self) -> CommentInfoView {
        CommentInfoView {
            version: self.version,
            id: self.id,
            post_id: self.post_id,
            text: self.text.deep_view(),
            creation_time: self.creation_time,
            last_edit_time: self.last_edit_time,
            user: self.user.deep_view(),
            score: self.score,
            own_score: self.own_score,
        }
    }
}

/// What the comment resources of a list show.
pub open spec fn comment_views(infos: Seq<CommentInfo>) -> Seq<CommentInfoView> {
    infos.map_values(|info: CommentInfo| info.deep_view())
}

/// The rows that were loaded for a batch of comments, by comment id. Only those for selected
/// fields are looked at. The scores are those that the client has given.
#[derive(Debug)]
pub struct CommentRows {
    pub owners: Vec<(i64, UserRow)>,
    pub scores: Vec<(i64, i64)>,
    pub own_scores: Vec<(i64, Score)>,
}

impl CommentRows {
    /// Each comment has the rows that the selected fields call for.
    pub open spec fn complete(&self, ids: Seq<i64>, fields: Mask<Field>) -> bool {
        fields.contains(Field::Score) ==> covers(self.scores@, ids)
    }

    /// Whether each comment has the rows that the selected fields call for.
    pub fn is_complete(&self, ids: &[i64], fields: Mask<Field>) -> (complete: bool)
        ensures
            complete == self.complete(ids@, fields),
    {
        !fields.has(Field::Score) || has_rows(&self.scores, ids)
    }
}

/// The client's own rating of a resource. A client that is not authenticated has none.
pub open spec fn own_rating(client: Client, scores: Seq<(i64, Score)>, id: i64) -> Rating {
    if client.id is Some {
        rating_of(lookup(scores, id))
    } else {
        rating_of(None)
    }
}

/// The client's own rating of each of the resources, in their order.
pub fn get_own_scores(client: Client, ids: &[i64], scores: &Vec<(i64, Score)>) -> (ratings: Vec<
    Rating,
>)
    ensures
        ratings@.len() == ids@.len(),
        forall|i: int|
            0 <= i < ids@.len() ==> #[trigger] ratings@[i] == own_rating(client, scores@, ids@[i]),
{
    let mut ratings: Vec<Rating> = Vec::new();
    for at in 0..ids.len()
        invariant
            ratings@.len() == at,
            forall|i: int|
                0 <= i < at ==> #[trigger] ratings@[i] == own_rating(client, scores@, ids@[i]),
    {
        let score = if client.id.is_some() {
            match find(scores, ids[at]) {
                Some(score) => Some(*score),
                None => None,
            }
        } else {
            None
        };
        ratings.push(rating(score));
    }
    ratings
}

/// `info` is the resource of the comment: the selected fields, and no others.
pub open spec fn is_comment_info<C: Config>(
    ctx: &Context<C>,
    comment: Comment,
    fields: Mask<Field>,
    rows: &CommentRows,
    info: CommentInfo,
) -> bool {
    &&& info.version == shown(fields.contains(Field::Version), comment.last_edit_time)
    &&& info.id == shown(fields.contains(Field::Id), comment.id)
    &&& info.post_id == shown(fields.contains(Field::PostId), comment.post_id)
    &&& info.text == shown(fields.contains(Field::Text), comment.text)
    &&& info.creation_time == shown(fields.contains(Field::CreationTime), comment.creation_time)
    &&& info.last_edit_time == shown(fields.contains(Field::LastEditTime), comment.last_edit_time)
    &&& info.user is Some <==> fields.contains(Field::User)
    &&& info.user matches Some(user) ==> is_owner(
        &ctx.config,
        lookup(rows.owners@, comment.id),
        user,
    )
    &&& info.score == shown(
        fields.contains(Field::Score),
        lookup(rows.scores@, comment.id)->0,
    )
    &&& info.own_score == shown(
        fields.contains(Field::OwnScore),
        own_rating(ctx.client, rows.own_scores@, comment.id),
    )
}

impl CommentInfo {
    /// The resource of one comment.
    pub fn new<C: Config>(
        ctx: &Context<C>,
        comment: Comment,
        fields: Mask<Field>,
        rows: &CommentRows,
    ) -> (info: CommentInfo)
        requires
            rows.complete(seq![comment.id], fields),
        ensures
            is_comment_info(ctx, comment, fields, rows, info),
    {
        let comments: Vec<Comment> = vec![comment];
        assert(keys(comments@) =~= seq![comment.id]);
        single(CommentInfo::new_batch(ctx, comments, fields, rows))
    }

    /// The resource of the comment with the given id.
    pub fn new_from_id<C: Config>(
        ctx: &Context<C>,
        comment_id: i64,
        unordered_comments: Vec<Comment>,
        fields: Mask<Field>,
        rows: &CommentRows,
    ) -> (info: CommentInfo)
        requires
            record(unordered_comments@, comment_id) is Some,
            rows.complete(seq![comment_id], fields),
        ensures
            is_comment_info(ctx, record(unordered_comments@, comment_id)->0, fields, rows, info),
    {
        let comment_ids: Vec<i64> = vec![comment_id];
        assert(comment_ids@ =~= seq![comment_id]);
        single(
            CommentInfo::new_batch_from_ids(
                ctx,
                comment_ids.as_slice(),
                unordered_comments,
                fields,
                rows,
            ),
        )
    }

    /// The resources of a batch of comments, in their order.
    pub fn new_batch<C: Config>(
        ctx: &Context<C>,
        comments: Vec<Comment>,
        fields: Mask<Field>,
        rows: &CommentRows,
    ) -> (infos: Vec<CommentInfo>)
        requires
            rows.complete(keys(comments@), fields),
        ensures
            infos@.len() == comments@.len(),
            forall|i: int|
                0 <= i < comments@.len() ==> is_comment_info(
                    ctx,
                    comments@[i],
                    fields,
                    rows,
                    #[trigger] infos@[i],
                ),
    {
        let ids = ids_of(comments.as_slice());
        let mut owners: Vec<Option<MicroUser>> = if fields.has(Field::User) {
            get_owners(&ctx.config, ids.as_slice(), &rows.owners)
        } else {
            Vec::new()
        };
        let mut scores: Vec<i64> = if fields.has(Field::Score) {
            order_transformed_as(&rows.scores, ids.as_slice())
        } else {
            Vec::new()
        };
        let mut own_scores: Vec<Rating> = if fields.has(Field::OwnScore) {
            get_own_scores(ctx.client, ids.as_slice(), &rows.own_scores)
        } else {
            Vec::new()
        };

        let ghost given = comments@;
        let ghost all_owners = owners@;
        let ghost all_scores = scores@;
        let ghost all_own_scores = own_scores@;
        let mut comments = comments;
        let mut infos: Vec<CommentInfo> = Vec::new();
        while comments.len() > 0
            invariant
                comments@.len() + infos@.len() == given.len(),
                comments@ == given.take(comments@.len() as int),
                ids@ == keys(given),
                owners@ == remaining(all_owners, comments@.len() as int),
                scores@ == remaining(all_scores, comments@.len() as int),
                own_scores@ == remaining(all_own_scores, comments@.len() as int),
                all_owners.len() == column_length(fields.contains(Field::User), given.len()),
                all_scores.len() == column_length(fields.contains(Field::Score), given.len()),
                all_own_scores.len() == column_length(
                    fields.contains(Field::OwnScore),
                    given.len(),
                ),
                forall|i: int|
                    0 <= i < all_owners.len() ==> is_owner(
                        &ctx.config,
                        lookup(rows.owners@, ids@[i]),
                        #[trigger] all_owners[i],
                    ),
                forall|i: int|
                    0 <= i < all_scores.len() ==> Some(#[trigger] all_scores[i]) == lookup(
                        rows.scores@,
                        ids@[i],
                    ),
                forall|i: int|
                    0 <= i < all_own_scores.len() ==> #[trigger] all_own_scores[i] == own_rating(
                        ctx.client,
                        rows.own_scores@,
                        ids@[i],
                    ),
                forall|k: int|
                    0 <= k < infos@.len() ==> is_comment_info(
                        ctx,
                        given[given.len() - 1 - k],
                        fields,
                        rows,
                        #[trigger] infos@[k],
                    ),
            decreases comments@.len(),
        {
            let ghost last = comments@.len() - 1;
            if let Some(comment) = comments.pop() {
                let info = CommentInfo {
                    version: show(fields.has(Field::Version), comment.last_edit_time),
                    id: show(fields.has(Field::Id), comment.id),
                    post_id: show(fields.has(Field::PostId), comment.post_id),
                    text: show(fields.has(Field::Text), comment.text),
                    creation_time: show(fields.has(Field::CreationTime), comment.creation_time),
                    last_edit_time: show(fields.has(Field::LastEditTime), comment.last_edit_time),
                    user: owners.pop(),
                    score: scores.pop(),
                    own_score: own_scores.pop(),
                };
                assert(ids@[last] == given[last].id);
                infos.push(info);
            }
        }
        reversed(infos)
    }

    /// The resources of the comments with the given ids, in the order of the ids.
    pub fn new_batch_from_ids<C: Config>(
        ctx: &Context<C>,
        comment_ids: &[i64],
        unordered_comments: Vec<Comment>,
        fields: Mask<Field>,
        rows: &CommentRows,
    ) -> (infos: Vec<CommentInfo>)
        requires
            can_order(unordered_comments@, comment_ids@),
            rows.complete(comment_ids@, fields),
        ensures
            infos@.len() == comment_ids@.len(),
            forall|i: int|
                0 <= i < comment_ids@.len() ==> is_comment_info(
                    ctx,
                    record(unordered_comments@, comment_ids@[i])->0,
                    fields,
                    rows,
                    #[trigger] infos@[i],
                ),
    {
        let comments = order_as(unordered_comments, comment_ids);
        CommentInfo::new_batch(ctx, comments, fields, rows)
    }
}

} // verus!
