//! User resources.

use crate::config::{answers_once, Config};
use crate::model::{AvatarStyle, DateTime, User, UserRank, UserRow};
use crate::resource::field::{Mask, ResourceField};
use crate::resource::{
    can_order, column_length, covers, find, has_rows, ids_of, keys, lookup, order_as,
    order_transformed_as, record, remaining, reversed, show, shown, single,
};
use crate::text::same_text;
use vstd::prelude::*;
use vstd::std_specs::convert::FromSpecImpl;

verus! {

/// A user resource stripped down to its name and its avatar.
#[derive(Debug)]
pub struct MicroUser {
    /// The user name.
    pub name: String,
    /// The URL to the avatar.
    pub avatar_url: String,
}

/// What a micro user resource shows.
pub struct MicroUserView {
    pub name: Seq<char>,
    pub avatar_url: Seq<char>,
}

impl DeepView for MicroUser {
    type V = MicroUserView;

    open spec fn deep_view(&self) -> MicroUserView {
        MicroUserView { name: self.name@, avatar_url: self.avatar_url@ }
    }
}

/// `url` is an answer of the site to the question for that avatar.
pub open spec fn answers_avatar<C: Config>(
    config: &C,
    lowercase_name: &str,
    avatar_style: AvatarStyle,
    url: String,
) -> bool {
    match avatar_style {
        AvatarStyle::Gravatar => call_ensures(C::gravatar_url, (config, lowercase_name), url),
        AvatarStyle::Manual => call_ensures(C::custom_avatar_url, (config, lowercase_name), url),
    }
}

/// The micro resource of the user that the row describes.
pub open spec fn is_micro_user<C: Config>(config: &C, row: UserRow, user: MicroUser) -> bool {
    &&& user.name == row.name
    &&& exists|lowercase_name: &str|
        lowercase_name@ == row.lowercase_name@ && #[trigger] answers_avatar(
            config,
            lowercase_name,
            row.avatar_style,
            user.avatar_url,
        )
}

impl MicroUser {
    /// Shows the avatar service's picture or the user's own, whichever the user chose.
    pub fn new<C: Config>(
        config: &C,
        display_name: String,
        lowercase_name: &str,
        avatar_style: AvatarStyle,
    ) -> (user: Self)
        ensures
            user.name == display_name,
            answers_avatar(config, lowercase_name, avatar_style, user.avatar_url),
    {
        let avatar_url = match avatar_style {
            AvatarStyle::Gravatar => config.gravatar_url(lowercase_name),
            AvatarStyle::Manual => config.custom_avatar_url(lowercase_name),
        };
        MicroUser { name: display_name, avatar_url }
    }

    /// The micro resource of the user that the row describes.
    pub fn from_row<C: Config>(config: &C, row: &UserRow) -> (user: Self)
        ensures
            is_micro_user(config, *row, user),
    {
        MicroUser::new(
            config,
            row.name.clone(),
            row.lowercase_name.as_str(),
            row.avatar_style,
        )
    }
}

/// The avatar of a user does not depend on the display name, nor the name on anything else: two
/// micro users that are made with one lowercase name and one avatar style have one avatar, and
/// each has the display name that it was made with.
pub proof fn law_avatar_is_independent_of_display_name<C: Config>(
    config: &C,
    display_name: String,
    other_display_name: String,
    lowercase_name: &str,
    other_lowercase_name: &str,
    avatar_style: AvatarStyle,
    user: MicroUser,
    other: MicroUser,
)
    requires
        answers_once(config),
        lowercase_name@ == other_lowercase_name@,
        user.name == display_name,
        answers_avatar(config, lowercase_name, avatar_style, user.avatar_url),
        other.name == other_display_name,
        answers_avatar(config, other_lowercase_name, avatar_style, other.avatar_url),
    ensures
        user.deep_view().avatar_url == other.deep_view().avatar_url,
        user.deep_view().name == display_name@,
        other.deep_view().name == other_display_name@,
{
}

/// One row makes one micro user resource.
pub proof fn lemma_micro_user_once<C: Config>(
    config: &C,
    row: UserRow,
    user: MicroUser,
    other: MicroUser,
)
    requires
        answers_once(config),
        is_micro_user(config, row, user),
        is_micro_user(config, row, other),
    ensures
        user.deep_view() == other.deep_view(),
{
    let a = choose|name: &str|
        name@ == row.lowercase_name@ && #[trigger] answers_avatar(
            config,
            name,
            row.avatar_style,
            user.avatar_url,
        );
    let b = choose|name: &str|
        name@ == row.lowercase_name@ && #[trigger] answers_avatar(
            config,
            name,
            row.avatar_style,
            other.avatar_url,
        );
    law_avatar_is_independent_of_display_name(
        config,
        row.name,
        row.name,
        a,
        b,
        row.avatar_style,
        user,
        other,
    );
}

/// One row makes one owner.
pub proof fn lemma_owner_once<C: Config>(
    config: &C,
    row: Option<UserRow>,
    owner: Option<MicroUser>,
    other: Option<MicroUser>,
)
    requires
        answers_once(config),
        is_owner(config, row, owner),
        is_owner(config, row, other),
    ensures
        owner.deep_view() == other.deep_view(),
{
    if let (Some(row), Some(a), Some(b)) = (row, owner, other) {
        lemma_micro_user_once(config, row, a, b);
    }
}

/// The owner that the rows give, if they give one.
pub open spec fn is_owner<C: Config>(
    config: &C,
    row: Option<UserRow>,
    owner: Option<MicroUser>,
) -> bool {
    match (row, owner) {
        (Some(row), Some(owner)) => is_micro_user(config, row, owner),
        (None, None) => true,
        _ => false,
    }
}

/// The owner of each of the resources, in their order.
pub fn get_owners<C: Config>(config: &C, ids: &[i64], rows: &Vec<(i64, UserRow)>) -> (owners: Vec<
    Option<MicroUser>,
>)
    ensures
        owners@.len() == ids@.len(),
        forall|i: int|
            0 <= i < ids@.len() ==> is_owner(
                config,
                lookup(rows@, ids@[i]),
                #[trigger] owners@[i],
            ),
{
    let mut owners: Vec<Option<MicroUser>> = Vec::new();
    for at in 0..ids.len()
        invariant
            owners@.len() == at,
            forall|i: int|
                0 <= i < at ==> is_owner(config, lookup(rows@, ids@[i]), #[trigger] owners@[i]),
    {
        let owner = match find(rows, ids[at]) {
            Some(row) => Some(MicroUser::from_row(config, row)),
            None => None,
        };
        owners.push(owner);
    }
    owners
}

/// How much of a user resource a client may see.
#[derive(Clone, Copy, Debug, PartialEq, Eq, Structural)]
pub enum Visibility {
    Full,
    PublicOnly,
}

/// Data that is shown, or a mark that it is hidden.
#[derive(Debug)]
pub enum PrivateData<T> {
    Expose(T),
    /// Set to false to indicate that the data is hidden.
    Visible(bool),
}

/// The fields of a user resource.
#[derive(Clone, Copy, Debug, PartialEq, Eq, Structural)]
pub enum Field {
    Version,
    Name,
    Email,
    Rank,
    LastLoginTime,
    CreationTime,
    AvatarStyle,
    AvatarUrl,
    CommentCount,
    UploadedPostCount,
    LikedPostCount,
    DislikedPostCount,
    FavoritePostCount,
}

impl Field {
    /// The number of the field, in the order of their declaration.
    pub open spec fn number(self) -> u64 {
        match self {
            Field::Version => 0,
            Field::Name => 1,
            Field::Email => 2,
            Field::Rank => 3,
            Field::LastLoginTime => 4,
            Field::CreationTime => 5,
            Field::AvatarStyle => 6,
            Field::AvatarUrl => 7,
            Field::CommentCount => 8,
            Field::UploadedPostCount => 9,
            Field::LikedPostCount => 10,
            Field::DislikedPostCount => 11,
            Field::FavoritePostCount => 12,
        }
    }

    /// The number of the field, in the order of their declaration.
    pub fn to_number(self) -> (number: u64)
        ensures
            number == self.number(),
    {
        match self {
            Field::Version => 0,
            Field::Name => 1,
            Field::Email => 2,
            Field::Rank => 3,
            Field::LastLoginTime => 4,
            Field::CreationTime => 5,
            Field::AvatarStyle => 6,
            Field::AvatarUrl => 7,
            Field::CommentCount => 8,
            Field::UploadedPostCount => 9,
            Field::LikedPostCount => 10,
            Field::DislikedPostCount => 11,
            Field::FavoritePostCount => 12,
        }
    }
}

impl ResourceField for Field {
    open spec fn position(self) -> u64 {
        self.number()
    }

    open spec fn name(self) -> Seq<char> {
        match self {
            Field::Version => "version"@,
            Field::Name => "name"@,
            Field::Email => "email"@,
            Field::Rank => "rank"@,
            Field::LastLoginTime => "lastLoginTime"@,
            Field::CreationTime => "creationTime"@,
            Field::AvatarStyle => "avatarStyle"@,
            Field::AvatarUrl => "avatarUrl"@,
            Field::CommentCount => "commentCount"@,
            Field::UploadedPostCount => "uploadedPostCount"@,
            Field::LikedPostCount => "likedPostCount"@,
            Field::DislikedPostCount => "dislikedPostCount"@,
            Field::FavoritePostCount => "favoritePostCount"@,
        }
    }

    fn index(self) -> (index: u64) {
        self.to_number()
    }

    fn parse(name: &str) -> (field: Option<Self>) {
        if same_text(name, "version") {
            Some(Field::Version)
        } else if same_text(name, "name") {
            Some(Field::Name)
        } else if same_text(name, "email") {
            Some(Field::Email)
        } else if same_text(name, "rank") {
            Some(Field::Rank)
        } else if same_text(name, "lastLoginTime") {
            Some(Field::LastLoginTime)
        } else if same_text(name, "creationTime") {
            Some(Field::CreationTime)
        } else if same_text(name, "avatarStyle") {
            Some(Field::AvatarStyle)
        } else if same_text(name, "avatarUrl") {
            Some(Field::AvatarUrl)
        } else if same_text(name, "commentCount") {
            Some(Field::CommentCount)
        } else if same_text(name, "uploadedPostCount") {
            Some(Field::UploadedPostCount)
        } else if same_text(name, "likedPostCount") {
            Some(Field::LikedPostCount)
        } else if same_text(name, "dislikedPostCount") {
            Some(Field::DislikedPostCount)
        } else if same_text(name, "favoritePostCount") {
            Some(Field::FavoritePostCount)
        } else {
            None
        }
    }

    proof fn law_position_fits(self) {
    }

    proof fn law_positions_differ(a: Self, b: Self) {
    }

    proof fn law_names_differ(a: Self, b: Self) {
        reveal_strlit("version");
        reveal_strlit("name");
        reveal_strlit("email");
        reveal_strlit("rank");
        reveal_strlit("lastLoginTime");
        reveal_strlit("creationTime");
        reveal_strlit("avatarStyle");
        reveal_strlit("avatarUrl");
        reveal_strlit("commentCount");
        reveal_strlit("uploadedPostCount");
        reveal_strlit("likedPostCount");
        reveal_strlit("dislikedPostCount");
        reveal_strlit("favoritePostCount");
        assert("version"@.len() == 7 && "version"@[2] == 'r');
        assert("name"@.len() == 4 && "name"@[2] == 'm');
        assert("email"@.len() == 5 && "email"@[2] == 'a');
        assert("rank"@.len() == 4 && "rank"@[2] == 'n');
        assert("lastLoginTime"@.len() == 13 && "lastLoginTime"@[2] == 's');
        assert("creationTime"@.len() == 12 && "creationTime"@[2] == 'e');
        assert("avatarStyle"@.len() == 11 && "avatarStyle"@[2] == 'a');
        assert("avatarUrl"@.len() == 9 && "avatarUrl"@[2] == 'a');
        assert("commentCount"@.len() == 12 && "commentCount"@[2] == 'm');
        assert("uploadedPostCount"@.len() == 17 && "uploadedPostCount"@[2] == 'l');
        assert("likedPostCount"@.len() == 14 && "likedPostCount"@[2] == 'k');
        assert("dislikedPostCount"@.len() == 17 && "dislikedPostCount"@[2] == 's');
        assert("favoritePostCount"@.len() == 17 && "favoritePostCount"@[2] == 'v');
    }
}

impl From<Field> for u64 {
    fn from(field: Field) -> (index: u64) {
        field.to_number()
    }
}

impl FromSpecImpl<Field> for u64 {
    open spec fn obeys_from_spec() -> bool {
        true
    }

    open spec fn from_spec(field: Field) -> u64 {
        field.number()
    }
}

/// A single user.
pub struct UserInfo {
    /// Resource version.
    pub version: Option<DateTime>,
    /// The user name.
    pub name: Option<String>,
    /// The user email. It is available only if the request is authenticated by the same user, or
    /// the authenticated user can change the email.
    pub email: Option<PrivateData<Option<String>>>,
    /// The user rank, which effectively affects their privileges.
    pub rank: Option<UserRank>,
    /// The last login time.
    pub last_login_time: Option<DateTime>,
    /// The user registration time.
    pub creation_time: Option<DateTime>,
    /// How to render the user avatar.
    pub avatar_style: Option<AvatarStyle>,
    /// The URL to the avatar.
    pub avatar_url: Option<String>,
    /// Number of comments.
    pub comment_count: Option<i64>,
    /// Number of uploaded posts.
    pub uploaded_post_count: Option<i64>,
    /// Number of liked posts. It is available only if the request is authenticated by the same
    /// user.
    pub liked_post_count: Option<PrivateData<i64>>,
    /// Number of disliked posts. It is available only if the request is authenticated by the
    /// same user.
    pub disliked_post_count: Option<PrivateData<i64>>,
    /// Number of favorited posts.
    pub favorite_post_count: Option<i64>,
}

/// What a user resource shows.
pub struct UserInfoView {
    pub version: Option<DateTime>,
    pub name: Option<Seq<char>>,
    pub email: Option<PrivateData<Option<Seq<char>>>>,
    pub rank: Option<UserRank>,
    pub last_login_time: Option<DateTime>,
    pub creation_time: Option<DateTime>,
    pub avatar_style: Option<AvatarStyle>,
    pub avatar_url: Option<Seq<char>>,
    pub comment_count: Option<i64>,
    pub uploaded_post_count: Option<i64>,
    pub liked_post_count: Option<PrivateData<i64>>,
    pub disliked_post_count: Option<PrivateData<i64>>,
    pub favorite_post_count: Option<i64>,
}

impl DeepView for UserInfo {
    type V = UserInfoView;

    open spec fn deep_view(&self) -> UserInfoView {
        UserInfoView {
            version: self.version,
            name: self.name.deep_view(),
            email: match self.email {
                Some(PrivateData::Expose(email)) => Some(PrivateData::Expose(email.deep_view())),
                Some(PrivateData::Visible(visible)) => Some(PrivateData::Visible(visible)),
                None => None,
            },
            rank: self.rank,
            last_login_time: self.last_login_time,
            creation_time: self.creation_time,
            avatar_style: self.avatar_style,
            avatar_url: self.avatar_url.deep_view(),
            comment_count: self.comment_count,
            uploaded_post_count: self.uploaded_post_count,
            liked_post_count: self.liked_post_count,
            disliked_post_count: self.disliked_post_count,
            favorite_post_count: self.favorite_post_count,
        }
    }
}

/// What an avatar URL is made of.
#[derive(Debug)]
pub struct AvatarRow {
    pub lowercase_name: String,
    pub avatar_style: AvatarStyle,
}

/// The rows that were loaded for a batch of users, by user id. Only those for selected fields
/// are looked at.
#[derive(Debug)]
pub struct UserRows {
    pub avatars: Vec<(i64, AvatarRow)>,
    pub comment_counts: Vec<(i64, i64)>,
    pub upload_counts: Vec<(i64, i64)>,
    pub like_counts: Vec<(i64, i64)>,
    pub dislike_counts: Vec<(i64, i64)>,
    pub favorite_counts: Vec<(i64, i64)>,
}

impl UserRows {
    /// Each user has the rows that the selected fields call for.
    pub open spec fn complete(&self, ids: Seq<i64>, fields: Mask<Field>) -> bool {
        &&& fields.contains(Field::AvatarUrl) ==> covers(self.avatars@, ids)
        &&& fields.contains(Field::CommentCount) ==> covers(self.comment_counts@, ids)
        &&& fields.contains(Field::UploadedPostCount) ==> covers(self.upload_counts@, ids)
        &&& fields.contains(Field::FavoritePostCount) ==> covers(self.favorite_counts@, ids)
    }

    /// Whether each user has the rows that the selected fields call for.
    pub fn is_complete(&self, ids: &[i64], fields: Mask<Field>) -> (complete: bool)
        ensures
            complete == self.complete(ids@, fields),
    {
        (!fields.has(Field::AvatarUrl) || has_rows(&self.avatars, ids)) && (!fields.has(
            Field::CommentCount,
        ) || has_rows(&self.comment_counts, ids)) && (!fields.has(Field::UploadedPostCount)
            || has_rows(&self.upload_counts, ids)) && (!fields.has(Field::FavoritePostCount)
            || has_rows(&self.favorite_counts, ids))
    }
}

/// `url` is an answer of the site to the question for the avatar that the row describes.
pub open spec fn is_avatar_url<C: Config>(config: &C, row: AvatarRow, url: String) -> bool {
    exists|lowercase_name: &str|
        lowercase_name@ == row.lowercase_name@ && #[trigger] call_ensures(
            C::avatar_url,
            (config, lowercase_name, row.avatar_style),
            url,
        )
}

/// One row makes one avatar URL.
pub proof fn lemma_avatar_url_once<C: Config>(config: &C, row: AvatarRow, url: String, other: String)
    requires
        answers_once(config),
        is_avatar_url(config, row, url),
        is_avatar_url(config, row, other),
    ensures
        url@ == other@,
{
}

/// The avatar URL of each of the users, in their order.
pub fn get_avatar_urls<C: Config>(
    config: &C,
    ids: &[i64],
    rows: &Vec<(i64, AvatarRow)>,
) -> (urls: Vec<String>)
    requires
        covers(rows@, ids@),
    ensures
        urls@.len() == ids@.len(),
        forall|i: int|
            0 <= i < ids@.len() ==> is_avatar_url(
                config,
                lookup(rows@, ids@[i])->0,
                #[trigger] urls@[i],
            ),
{
    let mut urls: Vec<String> = Vec::new();
    for at in 0..ids.len()
        invariant
            covers(rows@, ids@),
            urls@.len() == at,
            forall|i: int|
                0 <= i < at ==> is_avatar_url(
                    config,
                    lookup(rows@, ids@[i])->0,
                    #[trigger] urls@[i],
                ),
    {
        assert(lookup(rows@, ids@[at as int]) is Some);
        if let Some(row) = find(rows, ids[at]) {
            urls.push(config.avatar_url(row.lowercase_name.as_str(), row.avatar_style));
        }
    }
    urls
}

/// A number of ratings, hidden from those who may only see what is public. No row is no rating.
pub open spec fn rating_count(visibility: Visibility, count: Option<i64>) -> PrivateData<i64> {
    match visibility {
        Visibility::PublicOnly => PrivateData::Visible(false),
        Visibility::Full => PrivateData::Expose(
            match count {
                Some(count) => count,
                None => 0,
            },
        ),
    }
}

/// The number of ratings of one kind that each of the users has given, in their order.
pub fn get_ratings(ids: &[i64], rows: &Vec<(i64, i64)>, visibility: Visibility) -> (counts: Vec<
    PrivateData<i64>,
>)
    ensures
        counts@.len() == ids@.len(),
        forall|i: int|
            0 <= i < ids@.len() ==> #[trigger] counts@[i] == rating_count(
                visibility,
                lookup(rows@, ids@[i]),
            ),
{
    let mut counts: Vec<PrivateData<i64>> = Vec::new();
    for at in 0..ids.len()
        invariant
            counts@.len() == at,
            forall|i: int|
                0 <= i < at ==> #[trigger] counts@[i] == rating_count(
                    visibility,
                    lookup(rows@, ids@[i]),
                ),
    {
        if visibility == Visibility::PublicOnly {
            counts.push(PrivateData::Visible(false));
        } else {
            let count: i64 = match find(rows, ids[at]) {
                Some(count) => *count,
                None => 0,
            };
            counts.push(PrivateData::Expose(count));
        }
    }
    counts
}

/// The email of a user, hidden from those who may only see what is public.
pub open spec fn email_shown(
    visibility: Visibility,
    email: Option<String>,
) -> PrivateData<Option<String>> {
    match visibility {
        Visibility::Full => PrivateData::Expose(email),
        Visibility::PublicOnly => PrivateData::Visible(false),
    }
}

/// `info` is the resource of the user: the selected fields, and no others.
pub open spec fn is_user_info<C: Config>(
    config: &C,
    user: User,
    fields: Mask<Field>,
    visibility: Visibility,
    rows: &UserRows,
    info: UserInfo,
) -> bool {
    &&& info.version == shown(fields.contains(Field::Version), user.last_edit_time)
    &&& info.name == shown(fields.contains(Field::Name), user.name)
    &&& info.email == shown(fields.contains(Field::Email), email_shown(visibility, user.email))
    &&& info.rank == shown(fields.contains(Field::Rank), user.rank)
    &&& info.last_login_time == shown(fields.contains(Field::LastLoginTime), user.last_login_time)
    &&& info.creation_time == shown(fields.contains(Field::CreationTime), user.creation_time)
    &&& info.avatar_style == shown(fields.contains(Field::AvatarStyle), user.avatar_style)
    &&& info.avatar_url is Some <==> fields.contains(Field::AvatarUrl)
    &&& info.avatar_url matches Some(url) ==> is_avatar_url(
        config,
        lookup(rows.avatars@, user.id)->0,
        url,
    )
    &&& info.comment_count == shown(
        fields.contains(Field::CommentCount),
        lookup(rows.comment_counts@, user.id)->0,
    )
    &&& info.uploaded_post_count == shown(
        fields.contains(Field::UploadedPostCount),
        lookup(rows.upload_counts@, user.id)->0,
    )
    &&& info.liked_post_count == shown(
        fields.contains(Field::LikedPostCount),
        rating_count(visibility, lookup(rows.like_counts@, user.id)),
    )
    &&& info.disliked_post_count == shown(
        fields.contains(Field::DislikedPostCount),
        rating_count(visibility, lookup(rows.dislike_counts@, user.id)),
    )
    &&& info.favorite_post_count == shown(
        fields.contains(Field::FavoritePostCount),
        lookup(rows.favorite_counts@, user.id)->0,
    )
}

impl UserInfo {
    /// The resources of a batch of users, in their order.
    pub fn new_batch<C: Config>(
        config: &C,
        users: Vec<User>,
        fields: Mask<Field>,
        visibility: Visibility,
        rows: &UserRows,
    ) -> (infos: Vec<UserInfo>)
        requires
            rows.complete(keys(users@), fields),
        ensures
            infos@.len() == users@.len(),
            forall|i: int|
                0 <= i < users@.len() ==> is_user_info(
                    config,
                    users@[i],
                    fields,
                    visibility,
                    rows,
                    #[trigger] infos@[i],
                ),
    {
        let ids = ids_of(users.as_slice());
        let mut avatar_urls: Vec<String> = if fields.has(Field::AvatarUrl) {
            get_avatar_urls(config, ids.as_slice(), &rows.avatars)
        } else {
            Vec::new()
        };
        let mut comment_counts: Vec<i64> = if fields.has(Field::CommentCount) {
            order_transformed_as(&rows.comment_counts, ids.as_slice())
        } else {
            Vec::new()
        };
        let mut upload_counts: Vec<i64> = if fields.has(Field::UploadedPostCount) {
            order_transformed_as(&rows.upload_counts, ids.as_slice())
        } else {
            Vec::new()
        };
        let mut like_counts: Vec<PrivateData<i64>> = if fields.has(Field::LikedPostCount) {
            get_ratings(ids.as_slice(), &rows.like_counts, visibility)
        } else {
            Vec::new()
        };
        let mut dislike_counts: Vec<PrivateData<i64>> = if fields.has(Field::DislikedPostCount) {
            get_ratings(ids.as_slice(), &rows.dislike_counts, visibility)
        } else {
            Vec::new()
        };
        let mut favorite_counts: Vec<i64> = if fields.has(Field::FavoritePostCount) {
            order_transformed_as(&rows.favorite_counts, ids.as_slice())
        } else {
            Vec::new()
        };

        let ghost given = users@;
        let ghost all_avatar_urls = avatar_urls@;
        let ghost all_comment_counts = comment_counts@;
        let ghost all_upload_counts = upload_counts@;
        let ghost all_like_counts = like_counts@;
        let ghost all_dislike_counts = dislike_counts@;
        let ghost all_favorite_counts = favorite_counts@;
        let mut users = users;
        let mut infos: Vec<UserInfo> = Vec::new();
        while users.len() > 0
            invariant
                users@.len() + infos@.len() == given.len(),
                users@ == given.take(users@.len() as int),
                ids@ == keys(given),
                rows.complete(ids@, fields),
                avatar_urls@ == remaining(all_avatar_urls, users@.len() as int),
                comment_counts@ == remaining(all_comment_counts, users@.len() as int),
                upload_counts@ == remaining(all_upload_counts, users@.len() as int),
                like_counts@ == remaining(all_like_counts, users@.len() as int),
                dislike_counts@ == remaining(all_dislike_counts, users@.len() as int),
                favorite_counts@ == remaining(all_favorite_counts, users@.len() as int),
                all_avatar_urls.len() == column_length(
                    fields.contains(Field::AvatarUrl),
                    given.len(),
                ),
                all_comment_counts.len() == column_length(
                    fields.contains(Field::CommentCount),
                    given.len(),
                ),
                all_upload_counts.len() == column_length(
                    fields.contains(Field::UploadedPostCount),
                    given.len(),
                ),
                all_like_counts.len() == column_length(
                    fields.contains(Field::LikedPostCount),
                    given.len(),
                ),
                all_dislike_counts.len() == column_length(
                    fields.contains(Field::DislikedPostCount),
                    given.len(),
                ),
                all_favorite_counts.len() == column_length(
                    fields.contains(Field::FavoritePostCount),
                    given.len(),
                ),
                forall|i: int|
                    0 <= i < all_avatar_urls.len() ==> is_avatar_url(
                        config,
                        lookup(rows.avatars@, ids@[i])->0,
                        #[trigger] all_avatar_urls[i],
                    ),
                forall|i: int|
                    0 <= i < all_comment_counts.len() ==> Some(#[trigger] all_comment_counts[i])
                        == lookup(rows.comment_counts@, ids@[i]),
                forall|i: int|
                    0 <= i < all_upload_counts.len() ==> Some(#[trigger] all_upload_counts[i])
                        == lookup(rows.upload_counts@, ids@[i]),
                forall|i: int|
                    0 <= i < all_like_counts.len() ==> #[trigger] all_like_counts[i]
                        == rating_count(visibility, lookup(rows.like_counts@, ids@[i])),
                forall|i: int|
                    0 <= i < all_dislike_counts.len() ==> #[trigger] all_dislike_counts[i]
                        == rating_count(visibility, lookup(rows.dislike_counts@, ids@[i])),
                forall|i: int|
                    0 <= i < all_favorite_counts.len() ==> Some(#[trigger] all_favorite_counts[i])
                        == lookup(rows.favorite_counts@, ids@[i]),
                forall|k: int|
                    0 <= k < infos@.len() ==> is_user_info(
                        config,
                        given[given.len() - 1 - k],
                        fields,
                        visibility,
                        rows,
                        #[trigger] infos@[k],
                    ),
            decreases users@.len(),
        {
            let ghost last = users@.len() - 1;
            if let Some(user) = users.pop() {
                let email = if visibility == Visibility::PublicOnly {
                    PrivateData::Visible(false)
                } else {
                    PrivateData::Expose(user.email)
                };
                let info = UserInfo {
                    version: show(fields.has(Field::Version), user.last_edit_time),
                    name: show(fields.has(Field::Name), user.name),
                    email: show(fields.has(Field::Email), email),
                    rank: show(fields.has(Field::Rank), user.rank),
                    last_login_time: show(fields.has(Field::LastLoginTime), user.last_login_time),
                    creation_time: show(fields.has(Field::CreationTime), user.creation_time),
                    avatar_style: show(fields.has(Field::AvatarStyle), user.avatar_style),
                    avatar_url: avatar_urls.pop(),
                    comment_count: comment_counts.pop(),
                    uploaded_post_count: upload_counts.pop(),
                    liked_post_count: like_counts.pop(),
                    disliked_post_count: dislike_counts.pop(),
                    favorite_post_count: favorite_counts.pop(),
                };
                assert(ids@[last] == given[last].id);
                infos.push(info);
            }
        }
        reversed(infos)
    }

    /// The resources of the users with the given ids, in the order of the ids.
    pub fn new_batch_from_ids<C: Config>(
        config: &C,
        user_ids: &[i64],
        unordered_users: Vec<User>,
        fields: Mask<Field>,
        visibility: Visibility,
        rows: &UserRows,
    ) -> (infos: Vec<UserInfo>)
        requires
            can_order(unordered_users@, user_ids@),
            rows.complete(user_ids@, fields),
        ensures
            infos@.len() == user_ids@.len(),
            forall|i: int|
                0 <= i < user_ids@.len() ==> is_user_info(
                    config,
                    record(unordered_users@, user_ids@[i])->0,
                    fields,
                    visibility,
                    rows,
                    #[trigger] infos@[i],
                ),
    {
        let users = order_as(unordered_users, user_ids);
        UserInfo::new_batch(config, users, fields, visibility, rows)
    }

    /// The resource of the user with the given id.
    pub fn new_from_id<C: Config>(
        config: &C,
        user_id: i64,
        unordered_users: Vec<User>,
        fields: Mask<Field>,
        visibility: Visibility,
        rows: &UserRows,
    ) -> (info: UserInfo)
        requires
            record(unordered_users@, user_id) is Some,
            rows.complete(seq![user_id], fields),
        ensures
            is_user_info(
                config,
                record(unordered_users@, user_id)->0,
                fields,
                visibility,
                rows,
                info,
            ),
    {
        let user_ids: Vec<i64> = vec![user_id];
        assert(user_ids@ =~= seq![user_id]);
        single(
            UserInfo::new_batch_from_ids(
                config,
                user_ids.as_slice(),
                unordered_users,
                fields,
                visibility,
                rows,
            ),
        )
    }
}

/// The data of two users is the same but for what only the user may see.
pub open spec fn same_public_data(a: User, b: User) -> bool {
    a == (User { email: a.email, ..b })
}

/// What a client that may only see public data is shown says nothing of the private data: not
/// of the email, and not of the numbers of likes and dislikes.
pub proof fn law_public_view_hides_private_data<C: Config>(
    config: &C,
    user: User,
    other: User,
    fields: Mask<Field>,
    rows: &UserRows,
    other_rows: &UserRows,
    info: UserInfo,
)
    requires
        same_public_data(user, other),
        other_rows == (UserRows {
            like_counts: other_rows.like_counts,
            dislike_counts: other_rows.dislike_counts,
            ..*rows
        }),
        is_user_info(config, user, fields, Visibility::PublicOnly, rows, info),
    ensures
        is_user_info(config, other, fields, Visibility::PublicOnly, other_rows, info),
        !(info.email matches Some(PrivateData::Expose(_))),
        !(info.liked_post_count matches Some(PrivateData::Expose(_))),
        !(info.disliked_post_count matches Some(PrivateData::Expose(_))),
{
}

/// What the resources of a batch of users show.
pub open spec fn user_views(infos: Seq<UserInfo>) -> Seq<UserInfoView> {
    infos.map_values(|info: UserInfo| info.deep_view())
}

/// Two batches of users that differ only in private data are shown alike to a client that may
/// only see public data: the resources tell nothing of the emails, not even whether there is one,
/// and nothing of the ratings.
pub proof fn law_public_views_are_equal<C: Config>(
    config: &C,
    users: Seq<User>,
    others: Seq<User>,
    fields: Mask<Field>,
    rows: &UserRows,
    other_rows: &UserRows,
    infos: Seq<UserInfo>,
    other_infos: Seq<UserInfo>,
)
    requires
        answers_once(config),
        users.len() == others.len(),
        forall|i: int|
            0 <= i < users.len() ==> same_public_data(#[trigger] users[i], others[i]),
        other_rows == (UserRows {
            like_counts: other_rows.like_counts,
            dislike_counts: other_rows.dislike_counts,
            ..*rows
        }),
        infos.len() == users.len(),
        forall|i: int|
            0 <= i < users.len() ==> is_user_info(
                config,
                users[i],
                fields,
                Visibility::PublicOnly,
                rows,
                #[trigger] infos[i],
            ),
        other_infos.len() == others.len(),
        forall|i: int|
            0 <= i < others.len() ==> is_user_info(
                config,
                others[i],
                fields,
                Visibility::PublicOnly,
                other_rows,
                #[trigger] other_infos[i],
            ),
    ensures
        user_views(infos) == user_views(other_infos),
{
    assert forall|i: int| 0 <= i < infos.len() implies #[trigger] infos[i].deep_view()
        == other_infos[i].deep_view() by {
        let (info, other) = (infos[i], other_infos[i]);
        assert(same_public_data(users[i], others[i]));
        if let (Some(url), Some(other_url)) = (info.avatar_url, other.avatar_url) {
            let row = lookup(rows.avatars@, users[i].id)->0;
            lemma_avatar_url_once(config, row, url, other_url);
        }
    }
    assert(user_views(infos) =~= user_views(other_infos));
}

} // verus!
