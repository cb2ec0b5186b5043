//! The records that resources are made of, as they are stored.

use crate::resource::Identified;
use vstd::prelude::*;
use vstd::std_specs::convert::FromSpecImpl;

verus! {

/// A point in time, in microseconds since a fixed one.
#[derive(Clone, Copy, Debug, PartialEq, Eq, Structural)]
pub struct DateTime(pub i64);

/// A user's rating of a post or a comment, as it is stored.
#[derive(Clone, Copy, Debug, PartialEq, Eq, Structural)]
pub enum Score {
    Dislike,
    Like,
}

/// A user's rating of a post or a comment, or the lack of one.
#[derive(Clone, Copy, Debug, PartialEq, Eq, Structural)]
pub enum Rating {
    Dislike,
    Unrated,
    Like,
}

impl Default for Rating {
    fn default() -> (rating: Self)
        ensures
            rating == Rating::Unrated,
    {
        Rating::Unrated
    }
}

impl From<Score> for Rating {
    fn from(score: Score) -> (rating: Self) {
        match score {
            Score::Dislike => Rating::Dislike,
            Score::Like => Rating::Like,
        }
    }
}

impl FromSpecImpl<Score> for Rating {
    open spec fn obeys_from_spec() -> bool {
        true
    }

    open spec fn from_spec(score: Score) -> Self {
        match score {
            Score::Dislike => Rating::Dislike,
            Score::Like => Rating::Like,
        }
    }
}

/// The rating that a stored score stands for. No score is no rating.
pub open spec fn rating_of(score: Option<Score>) -> Rating {
    match score {
        Some(Score::Dislike) => Rating::Dislike,
        Some(Score::Like) => Rating::Like,
        None => Rating::Unrated,
    }
}

/// The rating that a stored score stands for. No score is no rating.
pub fn rating(score: Option<Score>) -> (rating: Rating)
    ensures
        rating == rating_of(score),
{
    match score {
        Some(score) => Rating::from(score),
        None => Rating::default(),
    }
}

/// How a user's avatar is chosen.
#[derive(Clone, Copy, Debug, PartialEq, Eq, Structural)]
pub enum AvatarStyle {
    Gravatar,
    Manual,
}

/// A user's rank, by its stored code.
#[derive(Clone, Copy, Debug, PartialEq, Eq, Structural)]
pub struct UserRank(pub i16);

/// A post's safety, by its stored code.
#[derive(Clone, Copy, Debug, PartialEq, Eq, Structural)]
pub struct PostSafety(pub i16);

/// The type of a post, by its stored code.
#[derive(Clone, Copy, Debug, PartialEq, Eq, Structural)]
pub struct PostType(pub i16);

/// The format of a post's content, by its stored code.
#[derive(Clone, Copy, Debug, PartialEq, Eq, Structural)]
pub struct MimeType(pub i16);

/// The flags of a post, by their stored bits.
#[derive(Clone, Copy, Debug, PartialEq, Eq, Structural)]
pub struct PostFlags(pub i16);

#[derive(Debug)]
pub struct Post {
    pub id: i64,
    pub file_size: i64,
    pub width: i32,
    pub height: i32,
    pub safety: PostSafety,
    pub type_: PostType,
    pub mime_type: MimeType,
    pub checksum: Vec<u8>,
    pub checksum_md5: Vec<u8>,
    pub flags: PostFlags,
    pub source: String,
    pub description: String,
    pub creation_time: DateTime,
    pub last_edit_time: DateTime,
    pub custom_thumbnail_size: i64,
}

impl Identified for Post {
    open spec fn key(&self) -> i64 {
        self.id
    }

    fn id(&self) -> (id: i64) {
        self.id
    }
}

#[derive(Debug)]
pub struct Comment {
    pub id: i64,
    pub post_id: i64,
    pub text: String,
    pub creation_time: DateTime,
    pub last_edit_time: DateTime,
}

impl Identified for Comment {
    open spec fn key(&self) -> i64 {
        self.id
    }

    fn id(&self) -> (id: i64) {
        self.id
    }
}

#[derive(Debug)]
pub struct Tag {
    pub id: i64,
    pub category_id: i64,
    pub description: String,
    pub creation_time: DateTime,
    pub last_edit_time: DateTime,
}

impl Identified for Tag {
    open spec fn key(&self) -> i64 {
        self.id
    }

    fn id(&self) -> (id: i64) {
        self.id
    }
}

pub struct User {
    pub id: i64,
    pub name: String,
    pub email: Option<String>,
    pub rank: UserRank,
    pub avatar_style: AvatarStyle,
    pub creation_time: DateTime,
    pub last_login_time: DateTime,
    pub last_edit_time: DateTime,
}

impl Identified for User {
    open spec fn key(&self) -> i64 {
        self.id
    }

    fn id(&self) -> (id: i64) {
        self.id
    }
}

/// What a micro user resource is made of.
#[derive(Debug)]
pub struct UserRow {
    pub name: String,
    pub lowercase_name: String,
    pub avatar_style: AvatarStyle,
}

/// An annotation of a post, as it is stored: the coordinates of its vertices, one after another,
/// any of which may be null.
#[derive(Debug)]
pub struct PostNote<C> {
    pub id: i64,
    pub polygon: Vec<Option<C>>,
    pub text: String,
}

/// An annotation that is to be stored.
#[derive(Debug)]
pub struct NewPostNote<'a, C> {
    pub post_id: i64,
    pub polygon: Vec<C>,
    pub text: &'a str,
}

} // verus!
