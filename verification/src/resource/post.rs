//! Post resources.

use crate::config::{Client, Config, Context};
use crate::model::{
    rating, rating_of, Comment, DateTime, MimeType, NewPostNote, Post, PostFlags, PostNote,
    PostSafety, PostType, Rating, Score, UserRow,
};
use crate::resource::comment::{get_own_scores, own_rating, CommentInfo, CommentInfoView};
use crate::resource::field::{Mask, ResourceField};
use crate::resource::pool::{get_pools, is_pool_list, MicroPool, MicroPoolRows, MicroPoolView};
use crate::resource::tag::{get_micro_tags, is_tag_list, MicroTag, MicroTagRows, MicroTagView};
use crate::resource::user::{get_owners, is_micro_user, is_owner, MicroUser, MicroUserView};
use crate::resource::{
    can_order, collect_map, collected, column_length, covers, group, grouped_by, has_id, has_rows,
    ids_of, keys, law_group_alone, lemma_group_member, lookup, order_as, order_transformed_as,
    ordered, record, remaining, reversed, show, shown, single, wanted,
};
use crate::text::{hex_encode, lower_hex, same_text};
use std::collections::HashMap;
use vstd::prelude::*;
use vstd::std_specs::convert::FromSpecImpl;

verus! {

/// An annotation of a post.
#[derive(Debug)]
pub struct Note<N> {
    pub id: i64,
    /// Where to draw the annotation. Each point must have coordinates within 0 to 1.
    pub polygon: Vec<[N; 2]>,
    /// The annotation text. The client should render is as Markdown.
    pub text: String,
}

/// What an annotation shows.
pub struct NoteView<N> {
    pub id: i64,
    pub polygon: Seq<Seq<N>>,
    pub text: Seq<char>,
}

impl<N> DeepView for Note<N> {
    type V = NoteView<N>;

    open spec fn deep_view(&self) -> NoteView<N> {
        NoteView {
            id: self.id,
            polygon: self.polygon@.map_values(|vertex: [N; 2]| vertex@),
            text: self.text@,
        }
    }
}

/// The stored coordinates of each vertex are there.
pub open spec fn has_vertices<N>(polygon: Seq<Option<N>>) -> bool {
    forall|i: int| 0 <= i < 2 * (polygon.len() / 2) ==> (#[trigger] polygon[i]) is Some
}

/// The coordinates of the vertices, one after another. A coordinate that is left over at the end
/// belongs to no vertex.
pub open spec fn coordinates<N>(polygon: Seq<Option<N>>) -> Seq<N> {
    Seq::new(2 * (polygon.len() / 2), |i: int| polygon[i]->0)
}

/// The coordinates of the vertices, one after another.
pub open spec fn flattened<N>(polygon: Seq<[N; 2]>) -> Seq<N> {
    Seq::new(2 * polygon.len(), |i: int| polygon[i / 2]@[i % 2])
}

/// Vertices with the same coordinates are the same.
pub proof fn lemma_flattened_once<N>(polygon: Seq<[N; 2]>, other: Seq<[N; 2]>)
    requires
        flattened(polygon) == flattened(other),
    ensures
        polygon.len() == other.len(),
        forall|i: int| 0 <= i < polygon.len() ==> (#[trigger] polygon[i])@ == other[i]@,
{
    assert(flattened(polygon).len() == 2 * polygon.len());
    assert(flattened(other).len() == 2 * other.len());
    assert forall|i: int| 0 <= i < polygon.len() implies (#[trigger] polygon[i])@ == other[i]@ by {
        assert(flattened(polygon)[2 * i] == polygon[i]@[0]);
        assert(flattened(other)[2 * i] == other[i]@[0]);
        assert(flattened(polygon)[2 * i + 1] == polygon[i]@[1]);
        assert(flattened(other)[2 * i + 1] == other[i]@[1]);
        assert(polygon[i]@ =~= other[i]@);
    }
}

/// `note` is the annotation that the row describes.
pub open spec fn is_note<N>(row: PostNote<N>, note: Note<N>) -> bool {
    &&& note.id == row.id
    &&& note.text == row.text
    &&& flattened(note.polygon@) == coordinates(row.polygon@)
}

impl<N: Copy> Clone for Note<N> {
    fn clone(&self) -> (copy: Self)
        ensures
            copy.id == self.id,
            copy.polygon@ == self.polygon@,
            copy.text@ == self.text@,
    {
        let mut polygon: Vec<[N; 2]> = Vec::new();
        for at in 0..self.polygon.len()
            invariant
                polygon@ == self.polygon@.take(at as int),
        {
            polygon.push(self.polygon[at]);
            assert(polygon@ =~= self.polygon@.take(at + 1));
        }
        assert(self.polygon@.take(self.polygon@.len() as int) =~= self.polygon@);
        Note { id: self.id, polygon, text: self.text.clone() }
    }
}

impl<N: Copy> Note<N> {
    /// The annotation that the row describes.
    pub fn new(note: PostNote<N>) -> (made: Self)
        requires
            has_vertices(note.polygon@),
        ensures
            is_note(note, made),
    {
        let mut polygon: Vec<[N; 2]> = Vec::new();
        for at in 0..(note.polygon.len() / 2)
            invariant
                has_vertices(note.polygon@),
                polygon@.len() == at,
                forall|i: int|
                    0 <= i < at ==> (#[trigger] polygon@[i])@[0] == note.polygon@[2 * i]->0
                        && polygon@[i]@[1] == note.polygon@[2 * i + 1]->0,
        {
            assert(note.polygon@[2 * at as int] is Some && note.polygon@[2 * at + 1] is Some);
            if let (Some(x), Some(y)) = (note.polygon[2 * at], note.polygon[2 * at + 1]) {
                polygon.push([x, y]);
            }
        }
        assert forall|i: int| 0 <= i < flattened(polygon@).len() implies #[trigger] flattened(
            polygon@,
        )[i] == coordinates(note.polygon@)[i] by {
            assert(polygon@[i / 2]@[i % 2] == note.polygon@[i]->0);
        }
        assert(flattened(polygon@) =~= coordinates(note.polygon@));
        Note { id: note.id, polygon, text: note.text }
    }

    /// The annotation as it is to be stored for a post.
    pub fn to_new_post_note(&self, post_id: i64) -> (note: NewPostNote<'_, N>)
        ensures
            note.post_id == post_id,
            note.polygon@ == flattened(self.polygon@),
            note.text@ == self.text@,
    {
        let mut polygon: Vec<N> = Vec::new();
        for at in 0..self.polygon.len()
            invariant
                polygon@ == flattened(self.polygon@.take(at as int)),
        {
            polygon.push(self.polygon[at][0]);
            polygon.push(self.polygon[at][1]);
            assert(polygon@ =~= flattened(self.polygon@.take(at + 1)));
        }
        assert(self.polygon@.take(self.polygon@.len() as int) =~= self.polygon@);
        NewPostNote { post_id, polygon, text: self.text.as_str() }
    }

    /// The identifier of the annotation.
    pub fn id(&self) -> (id: i64)
        ensures
            id == self.id,
    {
        self.id
    }
}

/// A post resource stripped down to `id` and `thumbnailUrl` fields.
#[derive(Debug)]
pub struct MicroPost {
    /// The post identifier.
    pub id: i64,
    /// Where the post thumbnail is located.
    pub thumbnail_url: String,
}

/// What a micro post resource shows.
pub struct MicroPostView {
    pub id: i64,
    pub thumbnail_url: Seq<char>,
}

impl DeepView for MicroPost {
    type V = MicroPostView;

    open spec fn deep_view(&self) -> MicroPostView {
        MicroPostView { id: self.id, thumbnail_url: self.thumbnail_url@ }
    }
}

/// The fields of a post resource.
#[derive(Clone, Copy, Debug, PartialEq, Eq, Structural)]
pub enum Field {
    Version,
    Id,
    User,
    FileSize,
    CanvasWidth,
    CanvasHeight,
    Safety,
    Type,
    MimeType,
    Checksum,
    ChecksumMd5,
    Flags,
    Source,
    Description,
    CreationTime,
    LastEditTime,
    ContentUrl,
    ThumbnailUrl,
    Tags,
    Comments,
    Relations,
    Pools,
    Notes,
    Score,
    OwnScore,
    OwnFavorite,
    TagCount,
    CommentCount,
    RelationCount,
    NoteCount,
    FavoriteCount,
    FeatureCount,
    LastFeatureTime,
    FavoritedBy,
    HasCustomThumbnail,
}

impl Field {
    /// The number of the field, in the order of their declaration.
    pub open spec fn number(self) -> u64 {
        match self {
            Field::Version => 0,
            Field::Id => 1,
            Field::User => 2,
            Field::FileSize => 3,
            Field::CanvasWidth => 4,
            Field::CanvasHeight => 5,
            Field::Safety => 6,
            Field::Type => 7,
            Field::MimeType => 8,
            Field::Checksum => 9,
            Field::ChecksumMd5 => 10,
            Field::Flags => 11,
            Field::Source => 12,
            Field::Description => 13,
            Field::CreationTime => 14,
            Field::LastEditTime => 15,
            Field::ContentUrl => 16,
            Field::ThumbnailUrl => 17,
            Field::Tags => 18,
            Field::Comments => 19,
            Field::Relations => 20,
            Field::Pools => 21,
            Field::Notes => 22,
            Field::Score => 23,
            Field::OwnScore => 24,
            Field::OwnFavorite => 25,
            Field::TagCount => 26,
            Field::CommentCount => 27,
            Field::RelationCount => 28,
            Field::NoteCount => 29,
            Field::FavoriteCount => 30,
            Field::FeatureCount => 31,
            Field::LastFeatureTime => 32,
            Field::FavoritedBy => 33,
            Field::HasCustomThumbnail => 34,
        }
    }

    /// The number of the field, in the order of their declaration.
    pub fn to_number(self) -> (number: u64)
        ensures
            number == self.number(),
    {
        match self {
            Field::Version => 0,
            Field::Id => 1,
            Field::User => 2,
            Field::FileSize => 3,
            Field::CanvasWidth => 4,
            Field::CanvasHeight => 5,
            Field::Safety => 6,
            Field::Type => 7,
            Field::MimeType => 8,
            Field::Checksum => 9,
            Field::ChecksumMd5 => 10,
            Field::Flags => 11,
            Field::Source => 12,
            Field::Description => 13,
            Field::CreationTime => 14,
            Field::LastEditTime => 15,
            Field::ContentUrl => 16,
            Field::ThumbnailUrl => 17,
            Field::Tags => 18,
            Field::Comments => 19,
            Field::Relations => 20,
            Field::Pools => 21,
            Field::Notes => 22,
            Field::Score => 23,
            Field::OwnScore => 24,
            Field::OwnFavorite => 25,
            Field::TagCount => 26,
            Field::CommentCount => 27,
            Field::RelationCount => 28,
            Field::NoteCount => 29,
            Field::FavoriteCount => 30,
            Field::FeatureCount => 31,
            Field::LastFeatureTime => 32,
            Field::FavoritedBy => 33,
            Field::HasCustomThumbnail => 34,
        }
    }
}

impl ResourceField for Field {
    open spec fn position(self) -> u64 {
        self.number()
    }

    open spec fn name(self) -> Seq<char> {
        match self {
            Field::Version => "version"@,
            Field::Id => "id"@,
            Field::User => "user"@,
            Field::FileSize => "fileSize"@,
            Field::CanvasWidth => "canvasWidth"@,
            Field::CanvasHeight => "canvasHeight"@,
            Field::Safety => "safety"@,
            Field::Type => "type"@,
            Field::MimeType => "mimeType"@,
            Field::Checksum => "checksum"@,
            Field::ChecksumMd5 => "checksumMd5"@,
            Field::Flags => "flags"@,
            Field::Source => "source"@,
            Field::Description => "description"@,
            Field::CreationTime => "creationTime"@,
            Field::LastEditTime => "lastEditTime"@,
            Field::ContentUrl => "contentUrl"@,
            Field::ThumbnailUrl => "thumbnailUrl"@,
            Field::Tags => "tags"@,
            Field::Comments => "comments"@,
            Field::Relations => "relations"@,
            Field::Pools => "pools"@,
            Field::Notes => "notes"@,
            Field::Score => "score"@,
            Field::OwnScore => "ownScore"@,
            Field::OwnFavorite => "ownFavorite"@,
            Field::TagCount => "tagCount"@,
            Field::CommentCount => "commentCount"@,
            Field::RelationCount => "relationCount"@,
            Field::NoteCount => "noteCount"@,
            Field::FavoriteCount => "favoriteCount"@,
            Field::FeatureCount => "featureCount"@,
            Field::LastFeatureTime => "lastFeatureTime"@,
            Field::FavoritedBy => "favoritedBy"@,
            Field::HasCustomThumbnail => "hasCustomThumbnail"@,
        }
    }

    fn index(self) -> (index: u64) {
        self.to_number()
    }

    fn parse(name: &str) -> (field: Option<Self>) {
        if same_text(name, "version") {
            Some(Field::Version)
        } else if same_text(name, "id") {
            Some(Field::Id)
        } else if same_text(name, "user") {
            Some(Field::User)
        } else if same_text(name, "fileSize") {
            Some(Field::FileSize)
        } else if same_text(name, "canvasWidth") {
            Some(Field::CanvasWidth)
        } else if same_text(name, "canvasHeight") {
            Some(Field::CanvasHeight)
        } else if same_text(name, "safety") {
            Some(Field::Safety)
        } else if same_text(name, "type") {
            Some(Field::Type)
        } else if same_text(name, "mimeType") {
            Some(Field::MimeType)
        } else if same_text(name, "checksum") {
            Some(Field::Checksum)
        } else if same_text(name, "checksumMd5") {
            Some(Field::ChecksumMd5)
        } else if same_text(name, "flags") {
            Some(Field::Flags)
        } else if same_text(name, "source") {
            Some(Field::Source)
        } else if same_text(name, "description") {
            Some(Field::Description)
        } else if same_text(name, "creationTime") {
            Some(Field::CreationTime)
        } else if same_text(name, "lastEditTime") {
            Some(Field::LastEditTime)
        } else if same_text(name, "contentUrl") {
            Some(Field::ContentUrl)
        } else if same_text(name, "thumbnailUrl") {
            Some(Field::ThumbnailUrl)
        } else if same_text(name, "tags") {
            Some(Field::Tags)
        } else if same_text(name, "comments") {
            Some(Field::Comments)
        } else if same_text(name, "relations") {
            Some(Field::Relations)
        } else if same_text(name, "pools") {
            Some(Field::Pools)
        } else if same_text(name, "notes") {
            Some(Field::Notes)
        } else if same_text(name, "score") {
            Some(Field::Score)
        } else if same_text(name, "ownScore") {
            Some(Field::OwnScore)
        } else if same_text(name, "ownFavorite") {
            Some(Field::OwnFavorite)
        } else if same_text(name, "tagCount") {
            Some(Field::TagCount)
        } else if same_text(name, "commentCount") {
            Some(Field::CommentCount)
        } else if same_text(name, "relationCount") {
            Some(Field::RelationCount)
        } else if same_text(name, "noteCount") {
            Some(Field::NoteCount)
        } else if same_text(name, "favoriteCount") {
            Some(Field::FavoriteCount)
        } else if same_text(name, "featureCount") {
            Some(Field::FeatureCount)
        } else if same_text(name, "lastFeatureTime") {
            Some(Field::LastFeatureTime)
        } else if same_text(name, "favoritedBy") {
            Some(Field::FavoritedBy)
        } else if same_text(name, "hasCustomThumbnail") {
            Some(Field::HasCustomThumbnail)
        } else {
            None
        }
    }

    proof fn law_position_fits(self) {
    }

    proof fn law_positions_differ(a: Self, b: Self) {
    }

    proof fn law_names_differ(a: Self, b: Self) {
        reveal_strlit("version");
        reveal_strlit("id");
        reveal_strlit("user");
        reveal_strlit("fileSize");
        reveal_strlit("canvasWidth");
        reveal_strlit("canvasHeight");
        reveal_strlit("safety");
        reveal_strlit("type");
        reveal_strlit("mimeType");
        reveal_strlit("checksum");
        reveal_strlit("checksumMd5");
        reveal_strlit("flags");
        reveal_strlit("source");
        reveal_strlit("description");
        reveal_strlit("creationTime");
        reveal_strlit("lastEditTime");
        reveal_strlit("contentUrl");
        reveal_strlit("thumbnailUrl");
        reveal_strlit("tags");
        reveal_strlit("comments");
        reveal_strlit("relations");
        reveal_strlit("pools");
        reveal_strlit("notes");
        reveal_strlit("score");
        reveal_strlit("ownScore");
        reveal_strlit("ownFavorite");
        reveal_strlit("tagCount");
        reveal_strlit("commentCount");
        reveal_strlit("relationCount");
        reveal_strlit("noteCount");
        reveal_strlit("favoriteCount");
        reveal_strlit("featureCount");
        reveal_strlit("lastFeatureTime");
        reveal_strlit("favoritedBy");
        reveal_strlit("hasCustomThumbnail");
        assert("version"@.len() == 7 && "version"@[0] == 'v' && "version"@[2] == 'r');
        assert("id"@.len() == 2 && "id"@[0] == 'i');
        assert("user"@.len() == 4 && "user"@[0] == 'u' && "user"@[2] == 'e');
        assert("fileSize"@.len() == 8 && "fileSize"@[0] == 'f' && "fileSize"@[2] == 'l');
        assert("canvasWidth"@.len() == 11 && "canvasWidth"@[0] == 'c' && "canvasWidth"@[2] == 'n');
        assert("canvasHeight"@.len() == 12 && "canvasHeight"@[0] == 'c'
            && "canvasHeight"@[2] == 'n');
        assert("safety"@.len() == 6 && "safety"@[0] == 's' && "safety"@[2] == 'f');
        assert("type"@.len() == 4 && "type"@[0] == 't' && "type"@[2] == 'p');
        assert("mimeType"@.len() == 8 && "mimeType"@[0] == 'm' && "mimeType"@[2] == 'm');
        assert("checksum"@.len() == 8 && "checksum"@[0] == 'c' && "checksum"@[2] == 'e');
        assert("checksumMd5"@.len() == 11 && "checksumMd5"@[0] == 'c' && "checksumMd5"@[2] == 'e');
        assert("flags"@.len() == 5 && "flags"@[0] == 'f' && "flags"@[2] == 'a');
        assert("source"@.len() == 6 && "source"@[0] == 's' && "source"@[2] == 'u');
        assert("description"@.len() == 11 && "description"@[0] == 'd' && "description"@[2] == 's');
        assert("creationTime"@.len() == 12 && "creationTime"@[0] == 'c'
            && "creationTime"@[2] == 'e');
        assert("lastEditTime"@.len() == 12 && "lastEditTime"@[0] == 'l'
            && "lastEditTime"@[2] == 's');
        assert("contentUrl"@.len() == 10 && "contentUrl"@[0] == 'c' && "contentUrl"@[2] == 'n');
        assert("thumbnailUrl"@.len() == 12 && "thumbnailUrl"@[0] == 't'
            && "thumbnailUrl"@[2] == 'u');
        assert("tags"@.len() == 4 && "tags"@[0] == 't' && "tags"@[2] == 'g');
        assert("comments"@.len() == 8 && "comments"@[0] == 'c' && "comments"@[2] == 'm');
        assert("relations"@.len() == 9 && "relations"@[0] == 'r' && "relations"@[2] == 'l');
        assert("pools"@.len() == 5 && "pools"@[0] == 'p' && "pools"@[2] == 'o');
        assert("notes"@.len() == 5 && "notes"@[0] == 'n' && "notes"@[2] == 't');
        assert("score"@.len() == 5 && "score"@[0] == 's' && "score"@[2] == 'o');
        assert("ownScore"@.len() == 8 && "ownScore"@[0] == 'o' && "ownScore"@[2] == 'n');
        assert("ownFavorite"@.len() == 11 && "ownFavorite"@[0] == 'o' && "ownFavorite"@[2] == 'n');
        assert("tagCount"@.len() == 8 && "tagCount"@[0] == 't' && "tagCount"@[2] == 'g');
        assert("commentCount"@.len() == 12 && "commentCount"@[0] == 'c'
            && "commentCount"@[2] == 'm');
        assert("relationCount"@.len() == 13 && "relationCount"@[0] == 'r'
            && "relationCount"@[2] == 'l');
        assert("noteCount"@.len() == 9 && "noteCount"@[0] == 'n' && "noteCount"@[2] == 't');
        assert("favoriteCount"@.len() == 13 && "favoriteCount"@[0] == 'f'
            && "favoriteCount"@[2] == 'v');
        assert("featureCount"@.len() == 12 && "featureCount"@[0] == 'f'
            && "featureCount"@[2] == 'a');
        assert("lastFeatureTime"@.len() == 15 && "lastFeatureTime"@[0] == 'l'
            && "lastFeatureTime"@[2] == 's');
        assert("favoritedBy"@.len() == 11 && "favoritedBy"@[0] == 'f' && "favoritedBy"@[2] == 'v');
        assert("hasCustomThumbnail"@.len() == 18 && "hasCustomThumbnail"@[0] == 'h'
            && "hasCustomThumbnail"@[2] == 's');
    }
}

impl From<Field> for u64 {
    fn from(field: Field) -> (index: u64) {
        field.to_number()
    }
}

impl FromSpecImpl<Field> for u64 {
    open spec fn obeys_from_spec() -> bool {
        true
    }

    open spec fn from_spec(field: Field) -> u64 {
        field.number()
    }
}

/// One comment in the list of comments of some post.
#[derive(Debug)]
pub struct CommentRow {
    pub comment: Comment,
    pub score: i64,
    pub owner: Option<UserRow>,
}

/// The rows that were loaded for a batch of posts, by post id but where it says otherwise. Only
/// those for selected fields are looked at. Lists keep the order of their rows, so the rows have to
/// be loaded in the order in which a list is to be shown; where no order is given, rows may be
/// loaded in any.
#[derive(Debug)]
pub struct PostRows<N> {
    pub owners: Vec<(i64, UserRow)>,
    pub tags: MicroTagRows,
    /// To be loaded by the time of creation.
    pub comments: Vec<(i64, CommentRow)>,
    /// The client's own scores of the comments, by comment id.
    pub comment_scores: Vec<(i64, Score)>,
    /// The related posts, to be loaded by their ids.
    pub relations: Vec<(i64, i64)>,
    pub pools: MicroPoolRows,
    /// To be loaded by the ids of the annotations.
    pub notes: Vec<(i64, PostNote<N>)>,
    pub scores: Vec<(i64, i64)>,
    /// The client's own scores of the posts.
    pub own_scores: Vec<(i64, Score)>,
    /// The posts that the client has in their favorites.
    pub own_favorites: Vec<i64>,
    pub tag_counts: Vec<(i64, i64)>,
    pub comment_counts: Vec<(i64, i64)>,
    pub relation_counts: Vec<(i64, i64)>,
    pub note_counts: Vec<(i64, i64)>,
    pub favorite_counts: Vec<(i64, i64)>,
    pub feature_counts: Vec<(i64, i64)>,
    pub last_feature_times: Vec<(i64, Option<DateTime>)>,
    /// The users that have the post in their favorites, to be loaded by their names.
    pub favorited_by: Vec<(i64, UserRow)>,
    /// Whether there is a file with a custom thumbnail.
    pub custom_thumbnails: Vec<(i64, bool)>,
}

/// Each annotation of one of the posts has its vertices.
pub open spec fn notes_complete<N>(notes: Seq<(i64, PostNote<N>)>, ids: Seq<i64>) -> bool {
    forall|k: int|
        0 <= k < notes.len() && ids.contains((#[trigger] notes[k]).0) ==> has_vertices(
            notes[k].1.polygon@,
        )
}

/// Whether each annotation of one of the posts has its vertices.
fn are_notes_complete<N>(notes: &Vec<(i64, PostNote<N>)>, ids: &[i64]) -> (complete: bool)
    ensures
        complete == notes_complete(notes@, ids@),
{
    for at in 0..notes.len()
        invariant
            forall|k: int|
                0 <= k < at && ids@.contains((#[trigger] notes@[k]).0) ==> has_vertices(
                    notes@[k].1.polygon@,
                ),
    {
        if has_id(ids, notes[at].0) {
            let polygon: &Vec<Option<N>> = &notes[at].1.polygon;
            let end: usize = 2 * (polygon.len() / 2);
            for i in 0..end
                invariant
                    at < notes@.len(),
                    ids@.contains(notes@[at as int].0),
                    polygon@ == notes@[at as int].1.polygon@,
                    end == 2 * (polygon@.len() / 2),
                    forall|j: int| 0 <= j < i ==> (#[trigger] polygon@[j]) is Some,
            {
                if polygon[i].is_none() {
                    assert(polygon@[i as int] is None);
                    assert(!has_vertices(notes@[at as int].1.polygon@));
                    return false;
                }
            }
        }
    }
    true
}

impl<N> PostRows<N> {
    /// Each post has the rows that the selected fields call for.
    pub open spec fn complete(&self, ids: Seq<i64>, fields: Mask<Field>) -> bool {
        &&& fields.contains(Field::Tags) ==> self.tags.complete(ids)
        &&& fields.contains(Field::Pools) ==> self.pools.complete(ids)
        &&& fields.contains(Field::Notes) ==> notes_complete(self.notes@, ids)
        &&& fields.contains(Field::Score) ==> covers(self.scores@, ids)
        &&& fields.contains(Field::TagCount) ==> covers(self.tag_counts@, ids)
        &&& fields.contains(Field::CommentCount) ==> covers(self.comment_counts@, ids)
        &&& fields.contains(Field::RelationCount) ==> covers(self.relation_counts@, ids)
        &&& fields.contains(Field::NoteCount) ==> covers(self.note_counts@, ids)
        &&& fields.contains(Field::FavoriteCount) ==> covers(self.favorite_counts@, ids)
        &&& fields.contains(Field::FeatureCount) ==> covers(self.feature_counts@, ids)
        &&& fields.contains(Field::LastFeatureTime) ==> covers(self.last_feature_times@, ids)
        &&& fields.contains(Field::HasCustomThumbnail) ==> covers(self.custom_thumbnails@, ids)
    }

    /// Whether each post has the rows that the selected fields call for.
    pub fn is_complete(&self, ids: &[i64], fields: Mask<Field>) -> (complete: bool)
        ensures
            complete == self.complete(ids@, fields),
    {
        (!fields.has(Field::Tags) || self.tags.is_complete(ids))
            && (!fields.has(Field::Pools) || self.pools.is_complete(ids))
            && (!fields.has(Field::Notes) || are_notes_complete(&self.notes, ids))
            && (!fields.has(Field::Score) || has_rows(&self.scores, ids))
            && (!fields.has(Field::TagCount) || has_rows(&self.tag_counts, ids))
            && (!fields.has(Field::CommentCount) || has_rows(&self.comment_counts, ids))
            && (!fields.has(Field::RelationCount) || has_rows(&self.relation_counts, ids))
            && (!fields.has(Field::NoteCount) || has_rows(&self.note_counts, ids))
            && (!fields.has(Field::FavoriteCount) || has_rows(&self.favorite_counts, ids))
            && (!fields.has(Field::FeatureCount) || has_rows(&self.feature_counts, ids))
            && (!fields.has(Field::LastFeatureTime) || has_rows(&self.last_feature_times, ids))
            && (!fields.has(Field::HasCustomThumbnail) || has_rows(&self.custom_thumbnails, ids))
    }
}

/// `url` is an answer of the site to the question for the content of the post.
pub open spec fn is_content_url<C: Config>(config: &C, post: Post, url: String) -> bool {
    call_ensures(
        C::content_url,
        (config, post.id, Some(post.custom_thumbnail_size), post.mime_type),
        url,
    )
}

/// `urls` are where the contents of the posts are located, in their order.
pub open spec fn are_content_urls<C: Config>(
    config: &C,
    posts: Seq<Post>,
    urls: Seq<String>,
) -> bool {
    &&& urls.len() == posts.len()
    &&& forall|i: int|
        0 <= i < posts.len() ==> is_content_url(config, posts[i], #[trigger] urls[i])
}

/// Where the content of each of the posts is located, in their order.
pub fn get_content_urls<C: Config>(config: &C, posts: &[Post]) -> (urls: Vec<String>)
    ensures
        are_content_urls(config, posts@, urls@),
{
    let mut urls: Vec<String> = Vec::new();
    for at in 0..posts.len()
        invariant
            urls@.len() == at,
            forall|i: int|
                0 <= i < at ==> is_content_url(config, posts@[i], #[trigger] urls@[i]),
    {
        let post: &Post = &posts[at];
        urls.push(
            config.content_url(post.id, Some(post.custom_thumbnail_size), post.mime_type),
        );
    }
    urls
}

/// `url` is an answer of the site to the question for the thumbnail of the post.
pub open spec fn is_thumbnail_url<C: Config>(config: &C, post: Post, url: String) -> bool {
    call_ensures(C::thumbnail_url, (config, post.id, Some(post.custom_thumbnail_size)), url)
}

/// `urls` are where the thumbnails of the posts are located, in their order.
pub open spec fn are_thumbnail_urls<C: Config>(
    config: &C,
    posts: Seq<Post>,
    urls: Seq<String>,
) -> bool {
    &&& urls.len() == posts.len()
    &&& forall|i: int|
        0 <= i < posts.len() ==> is_thumbnail_url(config, posts[i], #[trigger] urls[i])
}

/// Where the thumbnail of each of the posts is located, in their order.
pub fn get_thumbnail_urls<C: Config>(config: &C, posts: &[Post]) -> (urls: Vec<String>)
    ensures
        are_thumbnail_urls(config, posts@, urls@),
{
    let mut urls: Vec<String> = Vec::new();
    for at in 0..posts.len()
        invariant
            urls@.len() == at,
            forall|i: int|
                0 <= i < at ==> is_thumbnail_url(config, posts@[i], #[trigger] urls@[i]),
    {
        let post: &Post = &posts[at];
        urls.push(config.thumbnail_url(post.id, Some(post.custom_thumbnail_size)));
    }
    urls
}

/// The client's own rating of a comment, by the scores that were loaded.
pub open spec fn comment_rating(
    client: Client,
    comment_scores: Seq<(i64, Score)>,
    comment_id: i64,
) -> Rating {
    if client.id is Some && collected(comment_scores).contains_key(comment_id) {
        rating_of(Some(collected(comment_scores)[comment_id]))
    } else {
        rating_of(None)
    }
}

/// `info` is the whole resource of the comment that the row describes.
pub open spec fn is_listed_comment<C: Config>(
    ctx: &Context<C>,
    post_id: i64,
    comment_scores: Seq<(i64, Score)>,
    row: CommentRow,
    info: CommentInfo,
) -> bool {
    &&& info.version == Some(row.comment.last_edit_time)
    &&& info.id == Some(row.comment.id)
    &&& info.post_id == Some(post_id)
    &&& info.user matches Some(user) && is_owner(&ctx.config, row.owner, user)
    &&& info.text == Some(row.comment.text)
    &&& info.creation_time == Some(row.comment.creation_time)
    &&& info.last_edit_time == Some(row.comment.last_edit_time)
    &&& info.score == Some(row.score)
    &&& info.own_score == Some(comment_rating(ctx.client, comment_scores, row.comment.id))
}

/// `infos` are the whole resources of the comments of the post at position `at`.
pub open spec fn is_comment_list<C: Config>(
    ctx: &Context<C>,
    comments: Seq<(i64, CommentRow)>,
    comment_scores: Seq<(i64, Score)>,
    ids: Seq<i64>,
    at: int,
    infos: Seq<CommentInfo>,
) -> bool {
    let listed = group(comments, ids, at);
    &&& infos.len() == listed.len()
    &&& forall|k: int|
        0 <= k < infos.len() ==> is_listed_comment(
            ctx,
            ids[at],
            comment_scores,
            listed[k],
            #[trigger] infos[k],
        )
}

/// The list of comments of each of the posts, in their order.
pub fn get_comments<C: Config>(
    ctx: &Context<C>,
    ids: &[i64],
    comments: Vec<(i64, CommentRow)>,
    comment_scores: Vec<(i64, Score)>,
) -> (lists: Vec<Vec<CommentInfo>>)
    ensures
        lists@.len() == ids@.len(),
        forall|i: int|
            0 <= i < ids@.len() ==> is_comment_list(
                ctx,
                comments@,
                comment_scores@,
                ids@,
                i,
                (#[trigger] lists@[i])@,
            ),
{
    let ghost all = comments@;
    let ghost all_scores = comment_scores@;
    let client_scores: HashMap<i64, Score> = if ctx.client.id.is_some() {
        collect_map(comment_scores)
    } else {
        HashMap::new()
    };
    let mut lists: Vec<Vec<CommentInfo>> = Vec::new();
    for children in groups: grouped_by(comments, ids)
        invariant
            groups.seq().len() == ids@.len(),
            forall|i: int|
                0 <= i < ids@.len() ==> (#[trigger] groups.seq()[i])@ == group(all, ids@, i),
            ctx.client.id is Some ==> client_scores@ == collected(all_scores),
            ctx.client.id is None ==> client_scores@ == Map::<i64, Score>::empty(),
            lists@.len() == groups.index(),
            forall|i: int|
                0 <= i < groups.index() ==> is_comment_list(
                    ctx,
                    all,
                    all_scores,
                    ids@,
                    i,
                    (#[trigger] lists@[i])@,
                ),
    {
        let at: usize = lists.len();
        let ghost listed = group(all, ids@, at as int);
        let post_id = ids[at];
        let mut list: Vec<CommentInfo> = Vec::new();
        for row in rows: children
            invariant
                rows.seq() == listed,
                ctx.client.id is Some ==> client_scores@ == collected(all_scores),
                ctx.client.id is None ==> client_scores@ == Map::<i64, Score>::empty(),
                list@.len() == rows.index(),
                forall|k: int|
                    0 <= k < rows.index() ==> is_listed_comment(
                        ctx,
                        post_id,
                        all_scores,
                        listed[k],
                        #[trigger] list@[k],
                    ),
        {
            let score = match client_scores.get(&row.comment.id) {
                Some(score) => Some(*score),
                None => None,
            };
            let user = match row.owner {
                Some(owner) => Some(MicroUser::from_row(&ctx.config, &owner)),
                None => None,
            };
            list.push(
                CommentInfo {
                    version: Some(row.comment.last_edit_time),
                    id: Some(row.comment.id),
                    post_id: Some(post_id),
                    user: Some(user),
                    text: Some(row.comment.text),
                    creation_time: Some(row.comment.creation_time),
                    last_edit_time: Some(row.comment.last_edit_time),
                    score: Some(row.score),
                    own_score: Some(rating(score)),
                },
            );
        }
        lists.push(list);
    }
    lists
}

/// `posts` are the micro resources of the posts that the post at position `at` is related to.
pub open spec fn is_relation_list<C: Config>(
    config: &C,
    relations: Seq<(i64, i64)>,
    ids: Seq<i64>,
    at: int,
    posts: Seq<MicroPost>,
) -> bool {
    let related = group(relations, ids, at);
    &&& posts.len() == related.len()
    &&& forall|k: int|
        0 <= k < posts.len() ==> (#[trigger] posts[k]).id == related[k] && call_ensures(
            C::thumbnail_url,
            (config, related[k], None),
            posts[k].thumbnail_url,
        )
}

/// The list of related posts of each of the posts, in their order.
pub fn get_relations<C: Config>(config: &C, ids: &[i64], relations: Vec<(i64, i64)>) -> (lists: Vec<
    Vec<MicroPost>,
>)
    ensures
        lists@.len() == ids@.len(),
        forall|i: int|
            0 <= i < ids@.len() ==> is_relation_list(
                config,
                relations@,
                ids@,
                i,
                (#[trigger] lists@[i])@,
            ),
{
    let ghost all = relations@;
    let mut lists: Vec<Vec<MicroPost>> = Vec::new();
    for children in groups: grouped_by(relations, ids)
        invariant
            groups.seq().len() == ids@.len(),
            forall|i: int|
                0 <= i < ids@.len() ==> (#[trigger] groups.seq()[i])@ == group(all, ids@, i),
            lists@.len() == groups.index(),
            forall|i: int|
                0 <= i < groups.index() ==> is_relation_list(
                    config,
                    all,
                    ids@,
                    i,
                    (#[trigger] lists@[i])@,
                ),
    {
        let mut list: Vec<MicroPost> = Vec::new();
        for k in 0..children.len()
            invariant
                list@.len() == k,
                forall|j: int|
                    0 <= j < k ==> (#[trigger] list@[j]).id == children@[j] && call_ensures(
                        C::thumbnail_url,
                        (config, children@[j], None),
                        list@[j].thumbnail_url,
                    ),
        {
            let id: i64 = children[k];
            list.push(MicroPost { id, thumbnail_url: config.thumbnail_url(id, None) });
        }
        lists.push(list);
    }
    lists
}

/// `notes` are the annotations of the post at position `at`.
pub open spec fn is_note_list<N>(
    rows: Seq<(i64, PostNote<N>)>,
    ids: Seq<i64>,
    at: int,
    notes: Seq<Note<N>>,
) -> bool {
    let listed = group(rows, ids, at);
    &&& notes.len() == listed.len()
    &&& forall|k: int| 0 <= k < notes.len() ==> is_note(listed[k], #[trigger] notes[k])
}

/// The list of annotations of each of the posts, in their order.
pub fn get_notes<N: Copy>(ids: &[i64], rows: Vec<(i64, PostNote<N>)>) -> (lists: Vec<Vec<Note<N>>>)
    requires
        notes_complete(rows@, ids@),
    ensures
        lists@.len() == ids@.len(),
        forall|i: int|
            0 <= i < ids@.len() ==> is_note_list(rows@, ids@, i, (#[trigger] lists@[i])@),
{
    let ghost all = rows@;
    let mut lists: Vec<Vec<Note<N>>> = Vec::new();
    for children in groups: grouped_by(rows, ids)
        invariant
            notes_complete(all, ids@),
            groups.seq().len() == ids@.len(),
            forall|i: int|
                0 <= i < ids@.len() ==> (#[trigger] groups.seq()[i])@ == group(all, ids@, i),
            lists@.len() == groups.index(),
            forall|i: int|
                0 <= i < groups.index() ==> is_note_list(all, ids@, i, (#[trigger] lists@[i])@),
    {
        let ghost at = groups.index();
        let ghost listed = children@;
        let mut list: Vec<Note<N>> = Vec::new();
        for note in notes: children
            invariant
                0 <= at < ids@.len(),
                notes_complete(all, ids@),
                listed == group(all, ids@, at),
                notes.seq() == listed,
                list@.len() == notes.index(),
                forall|k: int|
                    0 <= k < notes.index() ==> is_note(listed[k], #[trigger] list@[k]),
        {
            proof {
                let row = lemma_group_member(all, ids@, at, notes.index());
                assert(ids@.contains(all[row].0));
            }
            list.push(Note::new(note));
        }
        lists.push(list);
    }
    lists
}

/// The client has the post in their favorites. A client that is not authenticated has none.
pub open spec fn is_own_favorite(client: Client, favorites: Seq<i64>, id: i64) -> bool {
    client.id is Some && favorites.contains(id)
}

/// Whether the client has each of the posts in their favorites, in the order of the posts.
pub fn get_own_favorites(client: Client, ids: &[i64], favorites: &Vec<i64>) -> (own: Vec<bool>)
    ensures
        own@.len() == ids@.len(),
        forall|i: int|
            0 <= i < ids@.len() ==> #[trigger] own@[i] == is_own_favorite(
                client,
                favorites@,
                ids@[i],
            ),
{
    let mut own: Vec<bool> = Vec::new();
    for at in 0..ids.len()
        invariant
            own@.len() == at,
            forall|i: int|
                0 <= i < at ==> #[trigger] own@[i] == is_own_favorite(client, favorites@, ids@[i]),
    {
        own.push(client.id.is_some() && has_id(favorites.as_slice(), ids[at]));
    }
    own
}

/// `users` are the micro resources of the users that favorited the post at position `at`.
pub open spec fn is_favoriter_list<C: Config>(
    config: &C,
    rows: Seq<(i64, UserRow)>,
    ids: Seq<i64>,
    at: int,
    users: Seq<MicroUser>,
) -> bool {
    let listed = group(rows, ids, at);
    &&& users.len() == listed.len()
    &&& forall|k: int|
        0 <= k < users.len() ==> is_micro_user(config, listed[k], #[trigger] users[k])
}

/// The list of users that favorited each of the posts, in the order of the posts.
pub fn get_favorited_by<C: Config>(config: &C, ids: &[i64], rows: Vec<(i64, UserRow)>) -> (lists:
    Vec<Vec<MicroUser>>)
    ensures
        lists@.len() == ids@.len(),
        forall|i: int|
            0 <= i < ids@.len() ==> is_favoriter_list(
                config,
                rows@,
                ids@,
                i,
                (#[trigger] lists@[i])@,
            ),
{
    let ghost all = rows@;
    let mut lists: Vec<Vec<MicroUser>> = Vec::new();
    for children in groups: grouped_by(rows, ids)
        invariant
            groups.seq().len() == ids@.len(),
            forall|i: int|
                0 <= i < ids@.len() ==> (#[trigger] groups.seq()[i])@ == group(all, ids@, i),
            lists@.len() == groups.index(),
            forall|i: int|
                0 <= i < groups.index() ==> is_favoriter_list(
                    config,
                    all,
                    ids@,
                    i,
                    (#[trigger] lists@[i])@,
                ),
    {
        let mut list: Vec<MicroUser> = Vec::new();
        for k in 0..children.len()
            invariant
                list@.len() == k,
                forall|j: int|
                    0 <= j < k ==> is_micro_user(config, children@[j], #[trigger] list@[j]),
        {
            list.push(MicroUser::from_row(config, &children[k]));
        }
        lists.push(list);
    }
    lists
}

/// One file together with its metadata posted to the site.
#[derive(Debug)]
pub struct PostInfo<N> {
    /// Resource version.
    pub version: Option<DateTime>,
    /// The post identifier.
    pub id: Option<i64>,
    /// Who created the post.
    pub user: Option<Option<MicroUser>>,
    /// The size of the file in bytes.
    pub file_size: Option<i64>,
    /// The original width of the post content.
    pub canvas_width: Option<i32>,
    /// The original height of the post content.
    pub canvas_height: Option<i32>,
    /// Whether the post is safe for work.
    pub safety: Option<PostSafety>,
    /// The type of the post.
    pub type_: Option<PostType>,
    /// Subsidiary to the type, used to tell exact content format.
    pub mime_type: Option<MimeType>,
    /// The BLAKE3 file checksum.
    pub checksum: Option<String>,
    /// The MD5 file checksum.
    pub checksum_md5: Option<String>,
    /// Various flags such as whether the post is looped.
    pub flags: Option<PostFlags>,
    /// Where the post was grabbed form, supplied by the user.
    pub source: Option<String>,
    /// Text description for the post. The client should render is as Markdown.
    pub description: Option<String>,
    /// Time the post was created.
    pub creation_time: Option<DateTime>,
    /// Time the post was last edited.
    pub last_edit_time: Option<DateTime>,
    /// Where the post content is located.
    pub content_url: Option<String>,
    /// Where the post thumbnail is located.
    pub thumbnail_url: Option<String>,
    /// List of tags the post is tagged with.
    pub tags: Option<Vec<MicroTag>>,
    /// List of comments under the post.
    pub comments: Option<Vec<CommentInfo>>,
    /// List of related posts. Links to related posts are shown to the user by the web client.
    pub relations: Option<Vec<MicroPost>>,
    /// List of pools the post is a member of.
    pub pools: Option<Vec<MicroPool>>,
    /// List of post annotations.
    pub notes: Option<Vec<Note<N>>>,
    /// The collective score (+1/-1 rating) of the given post.
    pub score: Option<i64>,
    /// The score (+1/-1 rating) of the given post by the authenticated user.
    pub own_score: Option<Rating>,
    /// Whether the authenticated user has given post in their favorites.
    pub own_favorite: Option<bool>,
    /// How many tags the post is tagged with.
    pub tag_count: Option<i64>,
    /// How many comments are filed under the post.
    pub comment_count: Option<i64>,
    /// How many posts are related to this post.
    pub relation_count: Option<i64>,
    /// How many notes the post has.
    pub note_count: Option<i64>,
    /// How many users have the post in their favorites.
    pub favorite_count: Option<i64>,
    /// How many times has the post been featured.
    pub feature_count: Option<i64>,
    /// The last time the post was featured.
    pub last_feature_time: Option<Option<DateTime>>,
    /// List of users that favorited the post.
    pub favorited_by: Option<Vec<MicroUser>>,
    /// Whether the post uses custom thumbnail.
    pub has_custom_thumbnail: Option<bool>,
}

/// What a post resource shows.
pub struct PostInfoView<N> {
    pub version: Option<DateTime>,
    pub id: Option<i64>,
    pub user: Option<Option<MicroUserView>>,
    pub file_size: Option<i64>,
    pub canvas_width: Option<i32>,
    pub canvas_height: Option<i32>,
    pub safety: Option<PostSafety>,
    pub type_: Option<PostType>,
    pub mime_type: Option<MimeType>,
    pub checksum: Option<Seq<char>>,
    pub checksum_md5: Option<Seq<char>>,
    pub flags: Option<PostFlags>,
    pub source: Option<Seq<char>>,
    pub description: Option<Seq<char>>,
    pub creation_time: Option<DateTime>,
    pub last_edit_time: Option<DateTime>,
    pub content_url: Option<Seq<char>>,
    pub thumbnail_url: Option<Seq<char>>,
    pub tags: Option<Seq<MicroTagView>>,
    pub comments: Option<Seq<CommentInfoView>>,
    pub relations: Option<Seq<MicroPostView>>,
    pub pools: Option<Seq<MicroPoolView>>,
    pub notes: Option<Seq<NoteView<N>>>,
    pub score: Option<i64>,
    pub own_score: Option<Rating>,
    pub own_favorite: Option<bool>,
    pub tag_count: Option<i64>,
    pub comment_count: Option<i64>,
    pub relation_count: Option<i64>,
    pub note_count: Option<i64>,
    pub favorite_count: Option<i64>,
    pub feature_count: Option<i64>,
    pub last_feature_time: Option<Option<DateTime>>,
    pub favorited_by: Option<Seq<MicroUserView>>,
    pub has_custom_thumbnail: Option<bool>,
}

impl<N> DeepView for PostInfo<N> {
    type V = PostInfoView<N>;

    open spec fn deep_view(&self) -> PostInfoView<N> {
        PostInfoView {
            version: self.version,
            id: self.id,
            user: self.user.deep_view(),
            file_size: self.file_size,
            canvas_width: self.canvas_width,
            canvas_height: self.canvas_height,
            safety: self.safety,
            type_: self.type_,
            mime_type: self.mime_type,
            checksum: self.checksum.deep_view(),
            checksum_md5: self.checksum_md5.deep_view(),
            flags: self.flags,
            source: self.source.deep_view(),
            description: self.description.deep_view(),
            creation_time: self.creation_time,
            last_edit_time: self.last_edit_time,
            content_url: self.content_url.deep_view(),
            thumbnail_url: self.thumbnail_url.deep_view(),
            tags: self.tags.deep_view(),
            comments: self.comments.deep_view(),
            relations: self.relations.deep_view(),
            pools: self.pools.deep_view(),
            notes: self.notes.deep_view(),
            score: self.score,
            own_score: self.own_score,
            own_favorite: self.own_favorite,
            tag_count: self.tag_count,
            comment_count: self.comment_count,
            relation_count: self.relation_count,
            note_count: self.note_count,
            favorite_count: self.favorite_count,
            feature_count: self.feature_count,
            last_feature_time: self.last_feature_time,
            favorited_by: self.favorited_by.deep_view(),
            has_custom_thumbnail: self.has_custom_thumbnail,
        }
    }
}

/// What the resources of a batch of posts show.
pub open spec fn post_views<N>(infos: Seq<PostInfo<N>>) -> Seq<PostInfoView<N>> {
    infos.map_values(|info: PostInfo<N>| info.deep_view())
}

/// The checksums are short enough to be written out.
pub open spec fn checksums_fit(posts: Seq<Post>, fields: Mask<Field>) -> bool {
    forall|i: int|
        0 <= i < posts.len() ==> {
            &&& fields.contains(Field::Checksum) ==> 2 * (#[trigger] posts[i]).checksum@.len()
                <= isize::MAX
            &&& fields.contains(Field::ChecksumMd5) ==> 2 * posts[i].checksum_md5@.len()
                <= isize::MAX
        }
}

/// `info` holds the stored fields of the post that are selected, and no other stored fields.
pub open spec fn has_stored_fields<N>(post: Post, fields: Mask<Field>, info: PostInfo<N>) -> bool {
    &&& info.version == shown(fields.contains(Field::Version), post.last_edit_time)
    &&& info.id == shown(fields.contains(Field::Id), post.id)
    &&& info.file_size == shown(fields.contains(Field::FileSize), post.file_size)
    &&& info.canvas_width == shown(fields.contains(Field::CanvasWidth), post.width)
    &&& info.canvas_height == shown(fields.contains(Field::CanvasHeight), post.height)
    &&& info.safety == shown(fields.contains(Field::Safety), post.safety)
    &&& info.type_ == shown(fields.contains(Field::Type), post.type_)
    &&& info.mime_type == shown(fields.contains(Field::MimeType), post.mime_type)
    &&& info.checksum is Some <==> fields.contains(Field::Checksum)
    &&& info.checksum matches Some(checksum) ==> checksum@ == lower_hex(post.checksum@)
    &&& info.checksum_md5 is Some <==> fields.contains(Field::ChecksumMd5)
    &&& info.checksum_md5 matches Some(checksum) ==> checksum@ == lower_hex(post.checksum_md5@)
    &&& info.flags == shown(fields.contains(Field::Flags), post.flags)
    &&& info.source == shown(fields.contains(Field::Source), post.source)
    &&& info.description == shown(fields.contains(Field::Description), post.description)
    &&& info.creation_time == shown(fields.contains(Field::CreationTime), post.creation_time)
    &&& info.last_edit_time == shown(fields.contains(Field::LastEditTime), post.last_edit_time)
}

/// `info` holds the loaded fields of the post at position `i` that are selected, and no other
/// loaded fields.
pub open spec fn has_loaded_fields<C: Config, N>(
    ctx: &Context<C>,
    posts: Seq<Post>,
    i: int,
    fields: Mask<Field>,
    rows: &PostRows<N>,
    info: PostInfo<N>,
) -> bool {
    &&& info.user is Some <==> fields.contains(Field::User)
    &&& info.user matches Some(owner) ==> is_owner(
        &ctx.config,
        lookup(rows.owners@, posts[i].id),
        owner,
    )
    &&& info.content_url is Some <==> fields.contains(Field::ContentUrl)
    &&& info.content_url matches Some(url) ==> is_content_url(&ctx.config, posts[i], url)
    &&& info.thumbnail_url is Some <==> fields.contains(Field::ThumbnailUrl)
    &&& info.thumbnail_url matches Some(url) ==> is_thumbnail_url(&ctx.config, posts[i], url)
    &&& info.tags is Some <==> fields.contains(Field::Tags)
    &&& info.tags matches Some(tags) ==> is_tag_list(&rows.tags, keys(posts), i, tags@)
    &&& info.comments is Some <==> fields.contains(Field::Comments)
    &&& info.comments matches Some(comments) ==> is_comment_list(
        ctx,
        rows.comments@,
        rows.comment_scores@,
        keys(posts),
        i,
        comments@,
    )
    &&& info.relations is Some <==> fields.contains(Field::Relations)
    &&& info.relations matches Some(relations) ==> is_relation_list(
        &ctx.config,
        rows.relations@,
        keys(posts),
        i,
        relations@,
    )
    &&& info.pools is Some <==> fields.contains(Field::Pools)
    &&& info.pools matches Some(pools) ==> is_pool_list(&rows.pools, keys(posts), i, pools@)
    &&& info.notes is Some <==> fields.contains(Field::Notes)
    &&& info.notes matches Some(notes) ==> is_note_list(rows.notes@, keys(posts), i, notes@)
    &&& info.score == shown(fields.contains(Field::Score), lookup(rows.scores@, posts[i].id)->0)
    &&& info.own_score == shown(
        fields.contains(Field::OwnScore),
        own_rating(ctx.client, rows.own_scores@, posts[i].id),
    )
    &&& info.own_favorite == shown(
        fields.contains(Field::OwnFavorite),
        is_own_favorite(ctx.client, rows.own_favorites@, posts[i].id),
    )
    &&& info.tag_count == shown(
        fields.contains(Field::TagCount),
        lookup(rows.tag_counts@, posts[i].id)->0,
    )
    &&& info.comment_count == shown(
        fields.contains(Field::CommentCount),
        lookup(rows.comment_counts@, posts[i].id)->0,
    )
    &&& info.relation_count == shown(
        fields.contains(Field::RelationCount),
        lookup(rows.relation_counts@, posts[i].id)->0,
    )
    &&& info.note_count == shown(
        fields.contains(Field::NoteCount),
        lookup(rows.note_counts@, posts[i].id)->0,
    )
    &&& info.favorite_count == shown(
        fields.contains(Field::FavoriteCount),
        lookup(rows.favorite_counts@, posts[i].id)->0,
    )
    &&& info.feature_count == shown(
        fields.contains(Field::FeatureCount),
        lookup(rows.feature_counts@, posts[i].id)->0,
    )
    &&& info.last_feature_time == shown(
        fields.contains(Field::LastFeatureTime),
        lookup(rows.last_feature_times@, posts[i].id)->0,
    )
    &&& info.favorited_by is Some <==> fields.contains(Field::FavoritedBy)
    &&& info.favorited_by matches Some(favorited_by) ==> is_favoriter_list(
        &ctx.config,
        rows.favorited_by@,
        keys(posts),
        i,
        favorited_by@,
    )
    &&& info.has_custom_thumbnail == shown(
        fields.contains(Field::HasCustomThumbnail),
        lookup(rows.custom_thumbnails@, posts[i].id)->0,
    )
}

/// `info` is the resource of the post at position `at`: the selected fields, and no others.
pub open spec fn is_post_info<C: Config, N>(
    ctx: &Context<C>,
    posts: Seq<Post>,
    at: int,
    fields: Mask<Field>,
    rows: &PostRows<N>,
    info: PostInfo<N>,
) -> bool {
    &&& has_stored_fields(posts[at], fields, info)
    &&& has_loaded_fields(ctx, posts, at, fields, rows, info)
}

/// `infos` are the resources of a batch of posts, in their order.
pub open spec fn is_post_batch<C: Config, N>(
    ctx: &Context<C>,
    posts: Seq<Post>,
    fields: Mask<Field>,
    rows: &PostRows<N>,
    infos: Seq<PostInfo<N>>,
) -> bool {
    &&& infos.len() == posts.len()
    &&& forall|i: int|
        0 <= i < posts.len() ==> is_post_info(ctx, posts, i, fields, rows, #[trigger] infos[i])
}

/// The column of a statistic, in the order of the keys.
fn stat_column<T: Copy>(selected: bool, rows: &Vec<(i64, T)>, ids: &[i64]) -> (column: Vec<T>)
    requires
        selected ==> covers(rows@, ids@),
    ensures
        column@.len() == column_length(selected, ids@.len()),
        forall|i: int|
            0 <= i < column@.len() ==> Some(#[trigger] column@[i]) == lookup(rows@, ids@[i]),
{
    order_transformed_as(rows, wanted(selected, ids))
}

/// The columns that tell who has to do with the posts and where they are located.
fn place_columns<C: Config>(
    ctx: &Context<C>,
    posts: &[Post],
    ids: &[i64],
    fields: Mask<Field>,
    owners: &Vec<(i64, UserRow)>,
    favoriters: Vec<(i64, UserRow)>,
) -> (columns: (Vec<Option<MicroUser>>, Vec<String>, Vec<String>, Vec<Vec<MicroUser>>))
    requires
        ids@ == keys(posts@),
    ensures
        columns.0@.len() == column_length(fields.contains(Field::User), posts@.len()),
        columns.1@.len() == column_length(fields.contains(Field::ContentUrl), posts@.len()),
        columns.2@.len() == column_length(fields.contains(Field::ThumbnailUrl), posts@.len()),
        columns.3@.len() == column_length(fields.contains(Field::FavoritedBy), posts@.len()),
        forall|i: int|
            0 <= i < columns.0@.len() ==> is_owner(
                &ctx.config,
                lookup(owners@, ids@[i]),
                #[trigger] columns.0@[i],
            ),
        forall|i: int|
            0 <= i < columns.1@.len() ==> is_content_url(
                &ctx.config,
                posts@[i],
                #[trigger] columns.1@[i],
            ),
        forall|i: int|
            0 <= i < columns.2@.len() ==> is_thumbnail_url(
                &ctx.config,
                posts@[i],
                #[trigger] columns.2@[i],
            ),
        forall|i: int|
            0 <= i < columns.3@.len() ==> is_favoriter_list(
                &ctx.config,
                favoriters@,
                ids@,
                i,
                (#[trigger] columns.3@[i])@,
            ),
{
    (
        get_owners(&ctx.config, wanted(fields.has(Field::User), ids), owners),
        get_content_urls(&ctx.config, wanted(fields.has(Field::ContentUrl), posts)),
        get_thumbnail_urls(&ctx.config, wanted(fields.has(Field::ThumbnailUrl), posts)),
        get_favorited_by(&ctx.config, wanted(fields.has(Field::FavoritedBy), ids), favoriters),
    )
}

/// The columns of the comments and of the related posts.
fn post_columns<C: Config>(
    ctx: &Context<C>,
    ids: &[i64],
    fields: Mask<Field>,
    comments: Vec<(i64, CommentRow)>,
    comment_scores: Vec<(i64, Score)>,
    relations: Vec<(i64, i64)>,
) -> (columns: (Vec<Vec<CommentInfo>>, Vec<Vec<MicroPost>>))
    ensures
        columns.0@.len() == column_length(fields.contains(Field::Comments), ids@.len()),
        columns.1@.len() == column_length(fields.contains(Field::Relations), ids@.len()),
        forall|i: int|
            0 <= i < columns.0@.len() ==> is_comment_list(
                ctx,
                comments@,
                comment_scores@,
                ids@,
                i,
                (#[trigger] columns.0@[i])@,
            ),
        forall|i: int|
            0 <= i < columns.1@.len() ==> is_relation_list(
                &ctx.config,
                relations@,
                ids@,
                i,
                (#[trigger] columns.1@[i])@,
            ),
{
    (
        get_comments(ctx, wanted(fields.has(Field::Comments), ids), comments, comment_scores),
        get_relations(&ctx.config, wanted(fields.has(Field::Relations), ids), relations),
    )
}

/// The columns of the tags, the pools and the annotations.
fn list_columns<N: Copy>(
    ids: &[i64],
    fields: Mask<Field>,
    tags: MicroTagRows,
    pools: MicroPoolRows,
    notes: Vec<(i64, PostNote<N>)>,
) -> (columns: (Vec<Vec<MicroTag>>, Vec<Vec<MicroPool>>, Vec<Vec<Note<N>>>))
    requires
        fields.contains(Field::Tags) ==> tags.complete(ids@),
        fields.contains(Field::Pools) ==> pools.complete(ids@),
        fields.contains(Field::Notes) ==> notes_complete(notes@, ids@),
    ensures
        columns.0@.len() == column_length(fields.contains(Field::Tags), ids@.len()),
        columns.1@.len() == column_length(fields.contains(Field::Pools), ids@.len()),
        columns.2@.len() == column_length(fields.contains(Field::Notes), ids@.len()),
        forall|i: int|
            0 <= i < columns.0@.len() ==> is_tag_list(&tags, ids@, i, (#[trigger] columns.0@[i])@),
        forall|i: int|
            0 <= i < columns.1@.len() ==> is_pool_list(
                &pools,
                ids@,
                i,
                (#[trigger] columns.1@[i])@,
            ),
        forall|i: int|
            0 <= i < columns.2@.len() ==> is_note_list(
                notes@,
                ids@,
                i,
                (#[trigger] columns.2@[i])@,
            ),
{
    (
        get_micro_tags(wanted(fields.has(Field::Tags), ids), tags),
        get_pools(wanted(fields.has(Field::Pools), ids), pools),
        get_notes(wanted(fields.has(Field::Notes), ids), notes),
    )
}

/// The loaded fields of a batch of posts, a column for each of them. The columns are in the order
/// of the posts, and those of fields that are not selected are empty.
struct PostColumns<N> {
    owners: Vec<Option<MicroUser>>,
    content_urls: Vec<String>,
    thumbnail_urls: Vec<String>,
    tags: Vec<Vec<MicroTag>>,
    comments: Vec<Vec<CommentInfo>>,
    relations: Vec<Vec<MicroPost>>,
    pools: Vec<Vec<MicroPool>>,
    notes: Vec<Vec<Note<N>>>,
    scores: Vec<i64>,
    own_scores: Vec<Rating>,
    own_favorites: Vec<bool>,
    tag_counts: Vec<i64>,
    comment_counts: Vec<i64>,
    relation_counts: Vec<i64>,
    note_counts: Vec<i64>,
    favorite_counts: Vec<i64>,
    feature_counts: Vec<i64>,
    last_feature_times: Vec<Option<DateTime>>,
    favorited_by: Vec<Vec<MicroUser>>,
    custom_thumbnails: Vec<bool>,
}

impl<N: Copy> PostColumns<N> {
    /// Each column is empty, or as long as the batch.
    spec fn fits(&self, count: nat, fields: Mask<Field>) -> bool {
        &&& self.owners@.len() == column_length(fields.contains(Field::User), count)
        &&& self.content_urls@.len() == column_length(fields.contains(Field::ContentUrl), count)
        &&& self.thumbnail_urls@.len() == column_length(fields.contains(Field::ThumbnailUrl), count)
        &&& self.tags@.len() == column_length(fields.contains(Field::Tags), count)
        &&& self.comments@.len() == column_length(fields.contains(Field::Comments), count)
        &&& self.relations@.len() == column_length(fields.contains(Field::Relations), count)
        &&& self.pools@.len() == column_length(fields.contains(Field::Pools), count)
        &&& self.notes@.len() == column_length(fields.contains(Field::Notes), count)
        &&& self.scores@.len() == column_length(fields.contains(Field::Score), count)
        &&& self.own_scores@.len() == column_length(fields.contains(Field::OwnScore), count)
        &&& self.own_favorites@.len() == column_length(fields.contains(Field::OwnFavorite), count)
        &&& self.tag_counts@.len() == column_length(fields.contains(Field::TagCount), count)
        &&& self.comment_counts@.len() == column_length(fields.contains(Field::CommentCount), count)
        &&& self.relation_counts@.len() == column_length(
            fields.contains(Field::RelationCount),
            count,
        )
        &&& self.note_counts@.len() == column_length(fields.contains(Field::NoteCount), count)
        &&& self.favorite_counts@.len() == column_length(
            fields.contains(Field::FavoriteCount),
            count,
        )
        &&& self.feature_counts@.len() == column_length(fields.contains(Field::FeatureCount), count)
        &&& self.last_feature_times@.len() == column_length(
            fields.contains(Field::LastFeatureTime),
            count,
        )
        &&& self.favorited_by@.len() == column_length(fields.contains(Field::FavoritedBy), count)
        &&& self.custom_thumbnails@.len() == column_length(
            fields.contains(Field::HasCustomThumbnail),
            count,
        )
    }

    /// The columns hold the loaded fields of the post at position `i`.
    spec fn hold<C: Config>(
        &self,
        ctx: &Context<C>,
        posts: Seq<Post>,
        i: int,
        fields: Mask<Field>,
        rows: &PostRows<N>,
    ) -> bool {
        &&& fields.contains(Field::User) ==> is_owner(
            &ctx.config,
            lookup(rows.owners@, posts[i].id),
            self.owners@[i],
        )
        &&& fields.contains(Field::ContentUrl) ==> is_content_url(
            &ctx.config,
            posts[i],
            self.content_urls@[i],
        )
        &&& fields.contains(Field::ThumbnailUrl) ==> is_thumbnail_url(
            &ctx.config,
            posts[i],
            self.thumbnail_urls@[i],
        )
        &&& fields.contains(Field::Tags) ==> is_tag_list(&rows.tags, keys(posts), i, self.tags@[i]@)
        &&& fields.contains(Field::Comments) ==> is_comment_list(
            ctx,
            rows.comments@,
            rows.comment_scores@,
            keys(posts),
            i,
            self.comments@[i]@,
        )
        &&& fields.contains(Field::Relations) ==> is_relation_list(
            &ctx.config,
            rows.relations@,
            keys(posts),
            i,
            self.relations@[i]@,
        )
        &&& fields.contains(Field::Pools) ==> is_pool_list(
            &rows.pools,
            keys(posts),
            i,
            self.pools@[i]@,
        )
        &&& fields.contains(Field::Notes) ==> is_note_list(
            rows.notes@,
            keys(posts),
            i,
            self.notes@[i]@,
        )
        &&& fields.contains(Field::Score) ==> self.scores@[i] == lookup(
            rows.scores@,
            posts[i].id,
        )->0
        &&& fields.contains(Field::OwnScore) ==> self.own_scores@[i] == own_rating(
            ctx.client,
            rows.own_scores@,
            posts[i].id,
        )
        &&& fields.contains(Field::OwnFavorite) ==> self.own_favorites@[i] == is_own_favorite(
            ctx.client,
            rows.own_favorites@,
            posts[i].id,
        )
        &&& fields.contains(Field::TagCount) ==> self.tag_counts@[i] == lookup(
            rows.tag_counts@,
            posts[i].id,
        )->0
        &&& fields.contains(Field::CommentCount) ==> self.comment_counts@[i] == lookup(
            rows.comment_counts@,
            posts[i].id,
        )->0
        &&& fields.contains(Field::RelationCount) ==> self.relation_counts@[i] == lookup(
            rows.relation_counts@,
            posts[i].id,
        )->0
        &&& fields.contains(Field::NoteCount) ==> self.note_counts@[i] == lookup(
            rows.note_counts@,
            posts[i].id,
        )->0
        &&& fields.contains(Field::FavoriteCount) ==> self.favorite_counts@[i] == lookup(
            rows.favorite_counts@,
            posts[i].id,
        )->0
        &&& fields.contains(Field::FeatureCount) ==> self.feature_counts@[i] == lookup(
            rows.feature_counts@,
            posts[i].id,
        )->0
        &&& fields.contains(Field::LastFeatureTime) ==> self.last_feature_times@[i] == lookup(
            rows.last_feature_times@,
            posts[i].id,
        )->0
        &&& fields.contains(Field::FavoritedBy) ==> is_favoriter_list(
            &ctx.config,
            rows.favorited_by@,
            keys(posts),
            i,
            self.favorited_by@[i]@,
        )
        &&& fields.contains(Field::HasCustomThumbnail) ==> self.custom_thumbnails@[i] == lookup(
            rows.custom_thumbnails@,
            posts[i].id,
        )->0
    }

    /// These columns are what is left of `all` when the first `count` posts are still to be made.
    spec fn are_left_of(&self, all: &PostColumns<N>, count: int) -> bool {
        &&& self.owners@ =~= remaining(all.owners@, count)
        &&& self.content_urls@ =~= remaining(all.content_urls@, count)
        &&& self.thumbnail_urls@ =~= remaining(all.thumbnail_urls@, count)
        &&& self.tags@ =~= remaining(all.tags@, count)
        &&& self.comments@ =~= remaining(all.comments@, count)
        &&& self.relations@ =~= remaining(all.relations@, count)
        &&& self.pools@ =~= remaining(all.pools@, count)
        &&& self.notes@ =~= remaining(all.notes@, count)
        &&& self.scores@ =~= remaining(all.scores@, count)
        &&& self.own_scores@ =~= remaining(all.own_scores@, count)
        &&& self.own_favorites@ =~= remaining(all.own_favorites@, count)
        &&& self.tag_counts@ =~= remaining(all.tag_counts@, count)
        &&& self.comment_counts@ =~= remaining(all.comment_counts@, count)
        &&& self.relation_counts@ =~= remaining(all.relation_counts@, count)
        &&& self.note_counts@ =~= remaining(all.note_counts@, count)
        &&& self.favorite_counts@ =~= remaining(all.favorite_counts@, count)
        &&& self.feature_counts@ =~= remaining(all.feature_counts@, count)
        &&& self.last_feature_times@ =~= remaining(all.last_feature_times@, count)
        &&& self.favorited_by@ =~= remaining(all.favorited_by@, count)
        &&& self.custom_thumbnails@ =~= remaining(all.custom_thumbnails@, count)
    }

    /// Makes the columns of the selected fields out of the rows that were loaded.
    fn new<C: Config>(
        ctx: &Context<C>,
        posts: &[Post],
        fields: Mask<Field>,
        rows: PostRows<N>,
    ) -> (columns: Self)
        requires
            rows.complete(keys(posts@), fields),
        ensures
            columns.fits(posts@.len(), fields),
            forall|i: int|
                0 <= i < posts@.len() ==> #[trigger] columns.hold(ctx, posts@, i, fields, &rows),
    {
        let all_ids = ids_of(posts);
        let ids = all_ids.as_slice();
        let ghost given = posts@;
        let ghost loaded = rows;
        let (owners, content_urls, thumbnail_urls, favorited_by) = place_columns(
            ctx,
            posts,
            ids,
            fields,
            &rows.owners,
            rows.favorited_by,
        );
        let (tags, pools, notes) = list_columns(ids, fields, rows.tags, rows.pools, rows.notes);
        let (comments, relations) = post_columns(
            ctx,
            ids,
            fields,
            rows.comments,
            rows.comment_scores,
            rows.relations,
        );
        let scores = stat_column(fields.has(Field::Score), &rows.scores, ids);
        let own_scores: Vec<Rating> = if fields.has(Field::OwnScore) {
            get_own_scores(ctx.client, ids, &rows.own_scores)
        } else {
            Vec::new()
        };
        let own_favorites: Vec<bool> = if fields.has(Field::OwnFavorite) {
            get_own_favorites(ctx.client, ids, &rows.own_favorites)
        } else {
            Vec::new()
        };
        let tag_counts = stat_column(fields.has(Field::TagCount), &rows.tag_counts, ids);
        let comment_counts = stat_column(
            fields.has(Field::CommentCount),
            &rows.comment_counts,
            ids,
        );
        let relation_counts = stat_column(
            fields.has(Field::RelationCount),
            &rows.relation_counts,
            ids,
        );
        let note_counts = stat_column(fields.has(Field::NoteCount), &rows.note_counts, ids);
        let favorite_counts = stat_column(
            fields.has(Field::FavoriteCount),
            &rows.favorite_counts,
            ids,
        );
        let feature_counts = stat_column(
            fields.has(Field::FeatureCount),
            &rows.feature_counts,
            ids,
        );
        let last_feature_times = stat_column(
            fields.has(Field::LastFeatureTime),
            &rows.last_feature_times,
            ids,
        );
        let custom_thumbnails = stat_column(
            fields.has(Field::HasCustomThumbnail),
            &rows.custom_thumbnails,
            ids,
        );
        let columns = PostColumns {
            owners,
            content_urls,
            thumbnail_urls,
            tags,
            comments,
            relations,
            pools,
            notes,
            scores,
            own_scores,
            own_favorites,
            tag_counts,
            comment_counts,
            relation_counts,
            note_counts,
            favorite_counts,
            feature_counts,
            last_feature_times,
            favorited_by,
            custom_thumbnails,
        };
        assert forall|i: int| 0 <= i < given.len() implies #[trigger] columns.hold(
            ctx,
            given,
            i,
            fields,
            &loaded,
        ) by {
            assert(ids@[i] == given[i].id);
        }
        columns
    }
}

impl<N: Copy> PostInfo<N> {
    /// The resource of the last post for which the columns still hold values.
    #[verifier::rlimit(30)]
    fn pop<C: Config>(
        ctx: &Context<C>,
        post: Post,
        fields: Mask<Field>,
        columns: &mut PostColumns<N>,
        Ghost(all): Ghost<PostColumns<N>>,
        Ghost(posts): Ghost<Seq<Post>>,
        Ghost(i): Ghost<int>,
        Ghost(rows): Ghost<&PostRows<N>>,
    ) -> (info: PostInfo<N>)
        requires
            0 <= i < posts.len(),
            post == posts[i],
            checksums_fit(posts, fields),
            all.fits(posts.len(), fields),
            all.hold(ctx, posts, i, fields, rows),
            old(columns).are_left_of(&all, i + 1),
        ensures
            final(columns).are_left_of(&all, i),
            is_post_info(ctx, posts, i, fields, rows, info),
    {
        PostInfo {
            version: show(fields.has(Field::Version), post.last_edit_time),
            id: show(fields.has(Field::Id), post.id),
            user: columns.owners.pop(),
            file_size: show(fields.has(Field::FileSize), post.file_size),
            canvas_width: show(fields.has(Field::CanvasWidth), post.width),
            canvas_height: show(fields.has(Field::CanvasHeight), post.height),
            safety: show(fields.has(Field::Safety), post.safety),
            type_: show(fields.has(Field::Type), post.type_),
            mime_type: show(fields.has(Field::MimeType), post.mime_type),
            checksum: if fields.has(Field::Checksum) {
                Some(hex_encode(&post.checksum))
            } else {
                None
            },
            checksum_md5: if fields.has(Field::ChecksumMd5) {
                Some(hex_encode(&post.checksum_md5))
            } else {
                None
            },
            flags: show(fields.has(Field::Flags), post.flags),
            source: show(fields.has(Field::Source), post.source),
            description: show(fields.has(Field::Description), post.description),
            creation_time: show(fields.has(Field::CreationTime), post.creation_time),
            last_edit_time: show(fields.has(Field::LastEditTime), post.last_edit_time),
            content_url: columns.content_urls.pop(),
            thumbnail_url: columns.thumbnail_urls.pop(),
            tags: columns.tags.pop(),
            comments: columns.comments.pop(),
            relations: columns.relations.pop(),
            pools: columns.pools.pop(),
            notes: columns.notes.pop(),
            score: columns.scores.pop(),
            own_score: columns.own_scores.pop(),
            own_favorite: columns.own_favorites.pop(),
            tag_count: columns.tag_counts.pop(),
            comment_count: columns.comment_counts.pop(),
            relation_count: columns.relation_counts.pop(),
            note_count: columns.note_counts.pop(),
            favorite_count: columns.favorite_counts.pop(),
            feature_count: columns.feature_counts.pop(),
            last_feature_time: columns.last_feature_times.pop(),
            favorited_by: columns.favorited_by.pop(),
            has_custom_thumbnail: columns.custom_thumbnails.pop(),
        }
    }

    /// The resource of one post.
    pub fn new<C: Config>(
        ctx: &Context<C>,
        post: Post,
        fields: Mask<Field>,
        rows: PostRows<N>,
    ) -> (info: PostInfo<N>)
        requires
            checksums_fit(seq![post], fields),
            rows.complete(seq![post.id], fields),
        ensures
            is_post_info(ctx, seq![post], 0, fields, &rows, info),
    {
        let posts: Vec<Post> = vec![post];
        assert(posts@ =~= seq![post]);
        assert(keys(posts@) =~= seq![post.id]);
        single(PostInfo::new_batch(ctx, posts, fields, rows))
    }

    /// The resource of the post with the given id.
    pub fn new_from_id<C: Config>(
        ctx: &Context<C>,
        post_id: i64,
        unordered_posts: Vec<Post>,
        fields: Mask<Field>,
        rows: PostRows<N>,
    ) -> (info: PostInfo<N>)
        requires
            record(unordered_posts@, post_id) is Some,
            checksums_fit(seq![record(unordered_posts@, post_id)->0], fields),
            rows.complete(seq![post_id], fields),
        ensures
            is_post_info(
                ctx,
                seq![record(unordered_posts@, post_id)->0],
                0,
                fields,
                &rows,
                info,
            ),
    {
        let post_ids: Vec<i64> = vec![post_id];
        assert(post_ids@ =~= seq![post_id]);
        assert(ordered(unordered_posts@, post_ids@) =~= seq![record(unordered_posts@, post_id)->0]);
        single(
            PostInfo::new_batch_from_ids(ctx, post_ids.as_slice(), unordered_posts, fields, rows),
        )
    }

    /// The resources of a batch of posts, in their order.
    pub fn new_batch<C: Config>(
        ctx: &Context<C>,
        posts: Vec<Post>,
        fields: Mask<Field>,
        rows: PostRows<N>,
    ) -> (infos: Vec<PostInfo<N>>)
        requires
            checksums_fit(posts@, fields),
            rows.complete(keys(posts@), fields),
        ensures
            is_post_batch(ctx, posts@, fields, &rows, infos@),
    {
        let ghost loaded = rows;
        let ghost given = posts@;
        let mut columns = PostColumns::new(ctx, posts.as_slice(), fields, rows);
        let ghost all = columns;
        let mut posts = posts;
        let mut infos: Vec<PostInfo<N>> = Vec::new();
        while posts.len() > 0
            invariant
                checksums_fit(given, fields),
                posts@.len() + infos@.len() == given.len(),
                posts@ == given.take(posts@.len() as int),
                all.fits(given.len(), fields),
                forall|i: int|
                    0 <= i < given.len() ==> #[trigger] all.hold(ctx, given, i, fields, &loaded),
                columns.are_left_of(&all, posts@.len() as int),
                forall|k: int|
                    0 <= k < infos@.len() ==> is_post_info(
                        ctx,
                        given,
                        given.len() - 1 - k,
                        fields,
                        &loaded,
                        #[trigger] infos@[k],
                    ),
            decreases posts@.len(),
        {
            let ghost last = posts@.len() - 1;
            if let Some(post) = posts.pop() {
                assert(all.hold(ctx, given, last, fields, &loaded));
                infos.push(
                    PostInfo::pop(
                        ctx,
                        post,
                        fields,
                        &mut columns,
                        Ghost(all),
                        Ghost(given),
                        Ghost(last),
                        Ghost(&loaded),
                    ),
                );
            }
        }
        reversed(infos)
    }

    /// The resources of the posts with the given ids, in the order of the ids.
    pub fn new_batch_from_ids<C: Config>(
        ctx: &Context<C>,
        post_ids: &[i64],
        unordered_posts: Vec<Post>,
        fields: Mask<Field>,
        rows: PostRows<N>,
    ) -> (infos: Vec<PostInfo<N>>)
        requires
            can_order(unordered_posts@, post_ids@),
            checksums_fit(ordered(unordered_posts@, post_ids@), fields),
            rows.complete(post_ids@, fields),
        ensures
            is_post_batch(ctx, ordered(unordered_posts@, post_ids@), fields, &rows, infos@),
    {
        let posts = order_as(unordered_posts, post_ids);
        PostInfo::new_batch(ctx, posts, fields, rows)
    }
}

/// What a post is shown as does not depend on the batch it is in: it is the same in any batch of
/// different posts as it is alone.
pub proof fn law_post_is_same_in_any_batch<C: Config, N>(
    ctx: &Context<C>,
    posts: Seq<Post>,
    at: int,
    fields: Mask<Field>,
    rows: &PostRows<N>,
    info: PostInfo<N>,
)
    requires
        0 <= at < posts.len(),
        keys(posts).no_duplicates(),
    ensures
        is_post_info(ctx, posts, at, fields, rows, info) <==> is_post_info(
            ctx,
            seq![posts[at]],
            0,
            fields,
            rows,
            info,
        ),
{
    let alone = seq![posts[at]];
    assert(keys(alone) =~= seq![keys(posts)[at]]);
    law_group_alone(rows.tags.tags@, keys(posts), at);
    law_group_alone(rows.comments@, keys(posts), at);
    law_group_alone(rows.relations@, keys(posts), at);
    law_group_alone(rows.pools.pools@, keys(posts), at);
    law_group_alone(rows.notes@, keys(posts), at);
    law_group_alone(rows.favorited_by@, keys(posts), at);
}

/// A client that is not authenticated is shown no marks as their own: no ratings of the post or
/// of its comments, and no favorite.
pub proof fn law_anonymous_client_has_no_marks<C: Config, N>(
    ctx: &Context<C>,
    posts: Seq<Post>,
    at: int,
    fields: Mask<Field>,
    rows: &PostRows<N>,
    info: PostInfo<N>,
)
    requires
        ctx.client.id is None,
        is_post_info(ctx, posts, at, fields, rows, info),
    ensures
        info.own_score matches Some(score) ==> score == Rating::Unrated,
        info.own_favorite matches Some(favorite) ==> !favorite,
        info.comments matches Some(comments) ==> forall|k: int|
            0 <= k < comments@.len() ==> (#[trigger] comments@[k]).own_score == Some(
                Rating::Unrated,
            ),
{
}

/// An annotation that was stored and is loaded again has the vertices that it had.
pub proof fn law_stored_note_keeps_vertices<N>(
    note: Note<N>,
    stored: NewPostNote<'_, N>,
    row: PostNote<N>,
    loaded: Note<N>,
)
    requires
        stored.polygon@ == flattened(note.polygon@),
        row.polygon@ == stored.polygon@.map_values(|coordinate: N| Some(coordinate)),
        is_note(row, loaded),
    ensures
        has_vertices(row.polygon@),
        loaded.polygon@.len() == note.polygon@.len(),
        forall|i: int|
            0 <= i < note.polygon@.len() ==> (#[trigger] loaded.polygon@[i])@
                == note.polygon@[i]@,
{
    assert(flattened(loaded.polygon@) =~= flattened(note.polygon@));
    lemma_flattened_once(loaded.polygon@, note.polygon@);
}

} // verus!
