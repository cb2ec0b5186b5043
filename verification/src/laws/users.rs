//! Laws of the resources of users.

use crate::config::{answers_once, Config};
use crate::laws::rows::{
    is_absent, is_first, is_first_record, law_lookup_is_first_row, law_record_is_first,
};
use crate::model::{AvatarStyle, User, UserRow};
use crate::resource::field::Mask;
use crate::resource::user::{
    get_avatar_urls, get_owners, get_ratings, is_avatar_url, is_micro_user, is_owner, is_user_info,
    lemma_avatar_url_once, AvatarRow, Field, MicroUser, PrivateData, UserInfo, UserInfoView,
    UserRows, Visibility,
};
use crate::resource::{keys, lookup, record};
use vstd::prelude::*;

verus! {

/// A micro user has the display name and the avatar of its style: the one of the avatar service or
/// the uploaded one.
pub proof fn law_micro_user_has_name_and_avatar<C: Config>(
    config: &C,
    display_name: String,
    lowercase_name: &str,
    avatar_style: AvatarStyle,
    user: MicroUser,
)
    requires
        call_ensures(
            MicroUser::new::<C>,
            (config, display_name, lowercase_name, avatar_style),
            user,
        ),
    ensures
        user.name@ == display_name@,
        avatar_style == AvatarStyle::Gravatar ==> call_ensures(
            C::gravatar_url,
            (config, lowercase_name),
            user.avatar_url,
        ),
        avatar_style == AvatarStyle::Manual ==> call_ensures(
            C::custom_avatar_url,
            (config, lowercase_name),
            user.avatar_url,
        ),
{
}

/// The micro user of a row has the name of the row, and the avatar that the site gives for the
/// lowercase name and the style of the row.
pub proof fn law_micro_user_of_row<C: Config>(config: &C, row: UserRow, user: MicroUser)
    requires
        is_micro_user(config, row, user),
    ensures
        user.name@ == row.name@,
        row.avatar_style == AvatarStyle::Gravatar ==> exists|name: &str|
            name@ == row.lowercase_name@ && #[trigger] call_ensures(
                C::gravatar_url,
                (config, name),
                user.avatar_url,
            ),
        row.avatar_style == AvatarStyle::Manual ==> exists|name: &str|
            name@ == row.lowercase_name@ && #[trigger] call_ensures(
                C::custom_avatar_url,
                (config, name),
                user.avatar_url,
            ),
{
}

/// The micro user that is made of a row is that of the row.
pub proof fn law_micro_user_from_row<C: Config>(config: &C, row: &UserRow, user: MicroUser)
    requires
        call_ensures(MicroUser::from_row::<C>, (config, row), user),
    ensures
        is_micro_user(config, *row, user),
{
}

/// There is an owner where there is a row, and it is the micro user of that row.
pub proof fn law_owner_of_row<C: Config>(
    config: &C,
    row: Option<UserRow>,
    owner: Option<MicroUser>,
)
    requires
        is_owner(config, row, owner),
    ensures
        row is None <==> owner is None,
        row is Some ==> is_micro_user(config, row->0, owner->0),
{
}

/// The owner of each resource is the micro user of the first row of that resource.
pub proof fn law_owners_of_resources<C: Config>(
    config: &C,
    ids: &[i64],
    rows: &Vec<(i64, UserRow)>,
    owners: Vec<Option<MicroUser>>,
    i: int,
)
    requires
        call_ensures(get_owners::<C>, (config, ids, rows), owners),
        0 <= i < ids@.len(),
    ensures
        owners@.len() == ids@.len(),
        is_absent(rows@, ids@[i]) <==> owners@[i] is None,
        forall|row: int| #[trigger]
            is_first(rows@, row, ids@[i]) ==> owners@[i] is Some && is_micro_user(
                config,
                rows@[row].1,
                owners@[i]->0,
            ),
{
    law_lookup_is_first_row(rows@, ids@[i]);
    assert(is_owner(config, lookup(rows@, ids@[i]), owners@[i]));
}

/// The avatar URL of a row is what the site gives for its lowercase name and its style.
pub proof fn law_avatar_url_of_row<C: Config>(config: &C, row: AvatarRow, url: String)
    requires
        is_avatar_url(config, row, url),
    ensures
        exists|name: &str|
            name@ == row.lowercase_name@ && #[trigger] call_ensures(
                C::avatar_url,
                (config, name, row.avatar_style),
                url,
            ),
{
}

/// The avatar URL of each user is that of the first row of that user.
pub proof fn law_avatar_urls_of_users<C: Config>(
    config: &C,
    ids: &[i64],
    rows: &Vec<(i64, AvatarRow)>,
    urls: Vec<String>,
    i: int,
)
    requires
        call_ensures(get_avatar_urls::<C>, (config, ids, rows), urls),
        0 <= i < ids@.len(),
    ensures
        urls@.len() == ids@.len(),
        forall|row: int| #[trigger]
            is_first(rows@, row, ids@[i]) ==> is_avatar_url(config, rows@[row].1, urls@[i]),
{
    law_lookup_is_first_row(rows@, ids@[i]);
    assert(is_avatar_url(config, lookup(rows@, ids@[i])->0, urls@[i]));
}

/// The number of ratings of each user is that of the first row of that user, and zero where there
/// is none. Those who may only see what is public are told no number.
pub proof fn law_ratings_of_users(
    ids: &[i64],
    rows: &Vec<(i64, i64)>,
    visibility: Visibility,
    counts: Vec<PrivateData<i64>>,
    i: int,
)
    requires
        call_ensures(get_ratings, (ids, rows, visibility), counts),
        0 <= i < ids@.len(),
    ensures
        counts@.len() == ids@.len(),
        visibility == Visibility::PublicOnly ==> counts@[i] == PrivateData::<i64>::Visible(false),
        visibility == Visibility::Full && is_absent(rows@, ids@[i]) ==> counts@[i]
            == PrivateData::Expose(0i64),
        forall|row: int| #[trigger]
            is_first(rows@, row, ids@[i]) && visibility == Visibility::Full ==> counts@[i]
                == PrivateData::Expose(rows@[row].1),
{
    law_lookup_is_first_row(rows@, ids@[i]);
    assert(counts@[i] == counts@[i]);
}

/// Each selected field of a user is the stored column, or the value of the first row of the user;
/// no other field is there. Those who may only see what is public are shown neither the email nor
/// the numbers of ratings.
pub proof fn law_user_shows_its_columns<C: Config>(
    config: &C,
    user: User,
    fields: Mask<Field>,
    visibility: Visibility,
    rows: &UserRows,
    info: UserInfo,
)
    requires
        is_user_info(config, user, fields, visibility, rows, info),
    ensures
        fields.contains(Field::Version) ==> info.version == Some(user.last_edit_time),
        !fields.contains(Field::Version) ==> info.version is None,
        fields.contains(Field::Name) ==> info.name == Some(user.name),
        !fields.contains(Field::Name) ==> info.name is None,
        fields.contains(Field::Rank) ==> info.rank == Some(user.rank),
        !fields.contains(Field::Rank) ==> info.rank is None,
        fields.contains(Field::LastLoginTime) ==> info.last_login_time == Some(
            user.last_login_time,
        ),
        !fields.contains(Field::LastLoginTime) ==> info.last_login_time is None,
        fields.contains(Field::CreationTime) ==> info.creation_time == Some(user.creation_time),
        !fields.contains(Field::CreationTime) ==> info.creation_time is None,
        fields.contains(Field::AvatarStyle) ==> info.avatar_style == Some(user.avatar_style),
        !fields.contains(Field::AvatarStyle) ==> info.avatar_style is None,
        fields.contains(Field::Email) && visibility == Visibility::Full ==> info.email == Some(
            PrivateData::Expose(user.email),
        ),
        fields.contains(Field::Email) && visibility == Visibility::PublicOnly ==> info.email
            == Some(PrivateData::<Option<String>>::Visible(false)),
        !fields.contains(Field::Email) ==> info.email is None,
        fields.contains(Field::AvatarUrl) ==> info.avatar_url is Some,
        forall|row: int| #[trigger]
            is_first(rows.avatars@, row, user.id) && fields.contains(Field::AvatarUrl)
                ==> is_avatar_url(config, rows.avatars@[row].1, info.avatar_url->0),
        !fields.contains(Field::AvatarUrl) ==> info.avatar_url is None,
        forall|row: int| #[trigger]
            is_first(rows.comment_counts@, row, user.id) && fields.contains(Field::CommentCount)
                ==> info.comment_count == Some(rows.comment_counts@[row].1),
        !fields.contains(Field::CommentCount) ==> info.comment_count is None,
        forall|row: int| #[trigger]
            is_first(rows.upload_counts@, row, user.id) && fields.contains(Field::UploadedPostCount)
                ==> info.uploaded_post_count == Some(rows.upload_counts@[row].1),
        !fields.contains(Field::UploadedPostCount) ==> info.uploaded_post_count is None,
        forall|row: int| #[trigger]
            is_first(rows.favorite_counts@, row, user.id) && fields.contains(
                Field::FavoritePostCount,
            )
                ==> info.favorite_post_count == Some(rows.favorite_counts@[row].1),
        !fields.contains(Field::FavoritePostCount) ==> info.favorite_post_count is None,
        fields.contains(Field::LikedPostCount) && visibility == Visibility::PublicOnly
            ==> info.liked_post_count == Some(PrivateData::<i64>::Visible(false)),
        fields.contains(Field::LikedPostCount) && visibility == Visibility::Full && is_absent(
            rows.like_counts@,
            user.id,
        ) ==> info.liked_post_count == Some(PrivateData::Expose(0i64)),
        forall|row: int| #[trigger]
            is_first(rows.like_counts@, row, user.id) && fields.contains(Field::LikedPostCount)
                && visibility == Visibility::Full ==> info.liked_post_count == Some(
                PrivateData::Expose(rows.like_counts@[row].1),
            ),
        !fields.contains(Field::LikedPostCount) ==> info.liked_post_count is None,
        fields.contains(Field::DislikedPostCount) && visibility == Visibility::PublicOnly
            ==> info.disliked_post_count == Some(PrivateData::<i64>::Visible(false)),
        fields.contains(Field::DislikedPostCount) && visibility == Visibility::Full && is_absent(
            rows.dislike_counts@,
            user.id,
        ) ==> info.disliked_post_count == Some(PrivateData::Expose(0i64)),
        forall|row: int| #[trigger]
            is_first(rows.dislike_counts@, row, user.id) && fields.contains(
                Field::DislikedPostCount,
            )
                && visibility == Visibility::Full ==> info.disliked_post_count == Some(
                PrivateData::Expose(rows.dislike_counts@[row].1),
            ),
        !fields.contains(Field::DislikedPostCount) ==> info.disliked_post_count is None,
{
    law_lookup_is_first_row(rows.avatars@, user.id);
    law_lookup_is_first_row(rows.comment_counts@, user.id);
    law_lookup_is_first_row(rows.upload_counts@, user.id);
    law_lookup_is_first_row(rows.like_counts@, user.id);
    law_lookup_is_first_row(rows.dislike_counts@, user.id);
    law_lookup_is_first_row(rows.favorite_counts@, user.id);
}

/// A batch of users gives one resource for each user, in their order.
pub proof fn law_users_in_their_order<C: Config>(
    config: &C,
    users: Vec<User>,
    fields: Mask<Field>,
    visibility: Visibility,
    rows: &UserRows,
    infos: Vec<UserInfo>,
)
    requires
        call_ensures(UserInfo::new_batch::<C>, (config, users, fields, visibility, rows), infos),
    ensures
        infos@.len() == users@.len(),
        forall|i: int|
            0 <= i < users@.len() ==> is_user_info(
                config,
                users@[i],
                fields,
                visibility,
                rows,
                #[trigger] infos@[i],
            ),
{
}

/// Users by their ids: the resource at each position is that of the user with the id at that
/// position.
pub proof fn law_users_by_ids<C: Config>(
    config: &C,
    user_ids: &[i64],
    unordered_users: Vec<User>,
    fields: Mask<Field>,
    visibility: Visibility,
    rows: &UserRows,
    infos: Vec<UserInfo>,
    i: int,
    at: int,
)
    requires
        call_ensures(
            UserInfo::new_batch_from_ids::<C>,
            (config, user_ids, unordered_users, fields, visibility, rows),
            infos,
        ),
        0 <= i < user_ids@.len(),
        is_first_record(unordered_users@, at, user_ids@[i]),
    ensures
        infos@.len() == user_ids@.len(),
        is_user_info(config, unordered_users@[at], fields, visibility, rows, infos@[i]),
        unordered_users@[at].id == user_ids@[i],
{
    law_record_is_first(unordered_users@, user_ids@[i]);
    assert(is_user_info(
        config,
        record(unordered_users@, user_ids@[i])->0,
        fields,
        visibility,
        rows,
        infos@[i],
    ));
}

/// One user by id: the resource is that of the user with the id.
pub proof fn law_user_by_id<C: Config>(
    config: &C,
    user_id: i64,
    unordered_users: Vec<User>,
    fields: Mask<Field>,
    visibility: Visibility,
    rows: &UserRows,
    info: UserInfo,
    at: int,
)
    requires
        call_ensures(
            UserInfo::new_from_id::<C>,
            (config, user_id, unordered_users, fields, visibility, rows),
            info,
        ),
        is_first_record(unordered_users@, at, user_id),
    ensures
        is_user_info(config, unordered_users@[at], fields, visibility, rows, info),
        unordered_users@[at].id == user_id,
{
    law_record_is_first(unordered_users@, user_id);
}

/// Two users that differ in no more than the time of the last edit are shown alike in every field
/// but the version.
pub proof fn law_last_edit_shows_in_version_only<C: Config>(
    config: &C,
    user: User,
    other: User,
    fields: Mask<Field>,
    visibility: Visibility,
    rows: &UserRows,
    info: UserInfo,
    other_info: UserInfo,
)
    requires
        answers_once(config),
        other == (User { last_edit_time: other.last_edit_time, ..user }),
        is_user_info(config, user, fields, visibility, rows, info),
        is_user_info(config, other, fields, visibility, rows, other_info),
    ensures
        info.deep_view() == (UserInfoView { version: info.version, ..other_info.deep_view() }),
{
    if let (Some(a), Some(b)) = (info.avatar_url, other_info.avatar_url) {
        lemma_avatar_url_once(config, lookup(rows.avatars@, user.id)->0, a, b);
    }
}

/// To select more fields of a user changes nothing in those that were selected before.
pub proof fn law_larger_mask_keeps_user_fields<C: Config>(
    config: &C,
    user: User,
    fields: Mask<Field>,
    larger: Mask<Field>,
    visibility: Visibility,
    rows: &UserRows,
    info: UserInfo,
    larger_info: UserInfo,
)
    requires
        answers_once(config),
        forall|field: Field| #[trigger] fields.contains(field) ==> larger.contains(field),
        is_user_info(config, user, fields, visibility, rows, info),
        is_user_info(config, user, larger, visibility, rows, larger_info),
    ensures
        fields.contains(Field::Version) ==> info.deep_view().version
            == larger_info.deep_view().version,
        fields.contains(Field::Name) ==> info.deep_view().name == larger_info.deep_view().name,
        fields.contains(Field::Rank) ==> info.deep_view().rank == larger_info.deep_view().rank,
        fields.contains(Field::LastLoginTime) ==> info.deep_view().last_login_time
            == larger_info.deep_view().last_login_time,
        fields.contains(Field::CreationTime) ==> info.deep_view().creation_time
            == larger_info.deep_view().creation_time,
        fields.contains(Field::AvatarStyle) ==> info.deep_view().avatar_style
            == larger_info.deep_view().avatar_style,
        fields.contains(Field::Email) ==> info.deep_view().email == larger_info.deep_view().email,
        fields.contains(Field::AvatarUrl) ==> info.deep_view().avatar_url
            == larger_info.deep_view().avatar_url,
        fields.contains(Field::CommentCount) ==> info.deep_view().comment_count
            == larger_info.deep_view().comment_count,
        fields.contains(Field::UploadedPostCount) ==> info.deep_view().uploaded_post_count
            == larger_info.deep_view().uploaded_post_count,
        fields.contains(Field::FavoritePostCount) ==> info.deep_view().favorite_post_count
            == larger_info.deep_view().favorite_post_count,
        fields.contains(Field::LikedPostCount) ==> info.deep_view().liked_post_count
            == larger_info.deep_view().liked_post_count,
        fields.contains(Field::DislikedPostCount) ==> info.deep_view().disliked_post_count
            == larger_info.deep_view().disliked_post_count,
{
    if let (Some(a), Some(b)) = (info.avatar_url, larger_info.avatar_url) {
        lemma_avatar_url_once(config, lookup(rows.avatars@, user.id)->0, a, b);
    }
}

/// Rows are complete where each selected statistic has a row for each user.
pub proof fn law_user_rows_complete(
    rows: &UserRows,
    ids: &[i64],
    fields: Mask<Field>,
    complete: bool,
)
    requires
        call_ensures(UserRows::is_complete, (rows, ids, fields), complete),
    ensures
        complete <==> rows.complete(ids@, fields),
        complete <==> forall|i: int|
            0 <= i < ids@.len() ==> {
                &&& fields.contains(Field::AvatarUrl) ==> !is_absent(
                    rows.avatars@,
                    #[trigger] ids@[i],
                )
                &&& fields.contains(Field::CommentCount) ==> !is_absent(
                    rows.comment_counts@,
                    ids@[i],
                )
                &&& fields.contains(Field::UploadedPostCount) ==> !is_absent(
                    rows.upload_counts@,
                    ids@[i],
                )
                &&& fields.contains(Field::FavoritePostCount) ==> !is_absent(
                    rows.favorite_counts@,
                    ids@[i],
                )
            },
{
    assert forall|id: i64| #[trigger] is_absent(rows.avatars@, id) <==> lookup(
        rows.avatars@,
        id,
    ) is None by {
        law_lookup_is_first_row(rows.avatars@, id);
    }
    assert forall|id: i64| #[trigger] is_absent(rows.comment_counts@, id) <==> lookup(
        rows.comment_counts@,
        id,
    ) is None by {
        law_lookup_is_first_row(rows.comment_counts@, id);
    }
    assert forall|id: i64| #[trigger] is_absent(rows.upload_counts@, id) <==> lookup(
        rows.upload_counts@,
        id,
    ) is None by {
        law_lookup_is_first_row(rows.upload_counts@, id);
    }
    assert forall|id: i64| #[trigger] is_absent(rows.favorite_counts@, id) <==> lookup(
        rows.favorite_counts@,
        id,
    ) is None by {
        law_lookup_is_first_row(rows.favorite_counts@, id);
    }
    if complete {
        assert forall|i: int| 0 <= i < ids@.len() implies {
            &&& fields.contains(Field::AvatarUrl) ==> lookup(
                rows.avatars@,
                #[trigger] ids@[i],
            ) is Some
            &&& fields.contains(Field::CommentCount) ==> lookup(
                rows.comment_counts@,
                ids@[i],
            ) is Some
            &&& fields.contains(Field::UploadedPostCount) ==> lookup(
                rows.upload_counts@,
                ids@[i],
            ) is Some
            &&& fields.contains(Field::FavoritePostCount) ==> lookup(
                rows.favorite_counts@,
                ids@[i],
            ) is Some
        } by {
        }
    }
}

/// Resources can be made of all users with complete rows, whoever sees them.
pub proof fn law_users_can_be_shown<C: Config>(
    config: &C,
    users: Vec<User>,
    fields: Mask<Field>,
    visibility: Visibility,
    rows: &UserRows,
)
    requires
        rows.complete(Seq::new(users@.len(), |i: int| users@[i].id), fields),
    ensures
        call_requires(UserInfo::new_batch::<C>, (config, users, fields, visibility, rows)),
{
    assert(keys(users@) =~= Seq::new(users@.len(), |i: int| users@[i].id));
}

/// The resource at each position of a batch has the stored columns of the user at that position,
/// whoever sees it.
pub proof fn law_batch_has_columns_of_users<C: Config>(
    config: &C,
    users: Vec<User>,
    fields: Mask<Field>,
    visibility: Visibility,
    rows: &UserRows,
    infos: Vec<UserInfo>,
    at: int,
)
    requires
        call_ensures(UserInfo::new_batch::<C>, (config, users, fields, visibility, rows), infos),
        0 <= at < users@.len(),
    ensures
        fields.contains(Field::Version) ==> infos@[at].version == Some(users@[at].last_edit_time),
        !fields.contains(Field::Version) ==> infos@[at].version is None,
        fields.contains(Field::Name) ==> infos@[at].name == Some(users@[at].name),
        !fields.contains(Field::Name) ==> infos@[at].name is None,
        fields.contains(Field::Rank) ==> infos@[at].rank == Some(users@[at].rank),
        !fields.contains(Field::Rank) ==> infos@[at].rank is None,
        fields.contains(Field::LastLoginTime) ==> infos@[at].last_login_time == Some(
            users@[at].last_login_time,
        ),
        !fields.contains(Field::LastLoginTime) ==> infos@[at].last_login_time is None,
        fields.contains(Field::CreationTime) ==> infos@[at].creation_time == Some(
            users@[at].creation_time,
        ),
        !fields.contains(Field::CreationTime) ==> infos@[at].creation_time is None,
        fields.contains(Field::AvatarStyle) ==> infos@[at].avatar_style == Some(
            users@[at].avatar_style,
        ),
        !fields.contains(Field::AvatarStyle) ==> infos@[at].avatar_style is None,
{
    assert(is_user_info(config, users@[at], fields, visibility, rows, infos@[at]));
}

} // verus!
