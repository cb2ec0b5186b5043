use booru_resources::config::Config;
use booru_resources::model::{AvatarStyle, DateTime, MimeType, User, UserRank, UserRow};
use booru_resources::resource::field::Mask;
use booru_resources::resource::user::{
    get_avatar_urls, get_owners, get_ratings, AvatarRow, Field, MicroUser, PrivateData, UserInfo,
    UserRows, Visibility,
};

struct Site;

impl Config for Site {
    fn gravatar_url(&self, lowercase_name: &str) -> String {
        format!("gravatar/{lowercase_name}")
    }

    fn custom_avatar_url(&self, lowercase_name: &str) -> String {
        format!("custom/{lowercase_name}")
    }

    fn avatar_url(&self, lowercase_name: &str, avatar_style: AvatarStyle) -> String {
        format!("{avatar_style:?}/{lowercase_name}")
    }

    fn content_url(&self, _id: i64, _size: Option<i64>, _mime_type: MimeType) -> String {
        unreachable!()
    }

    fn thumbnail_url(&self, _id: i64, _size: Option<i64>) -> String {
        unreachable!()
    }
}

fn user(id: i64, name: &str, email: Option<&str>) -> User {
    User {
        id,
        name: name.to_owned(),
        email: email.map(|text| text.to_owned()),
        rank: UserRank(3),
        avatar_style: AvatarStyle::Manual,
        creation_time: DateTime(id * 10 + 1),
        last_login_time: DateTime(id * 10 + 2),
        last_edit_time: DateTime(id * 10 + 3),
    }
}

fn avatar(id: i64, name: &str, avatar_style: AvatarStyle) -> (i64, AvatarRow) {
    (id, AvatarRow { lowercase_name: name.to_owned(), avatar_style })
}

fn rows() -> UserRows {
    UserRows {
        avatars: vec![
            avatar(2, "bob", AvatarStyle::Manual),
            avatar(1, "ann", AvatarStyle::Gravatar),
        ],
        comment_counts: vec![(2, 22), (1, 11)],
        upload_counts: vec![(1, 111), (2, 222)],
        like_counts: vec![(2, 7)],
        dislike_counts: vec![(1, 4)],
        favorite_counts: vec![(2, 9), (1, 8)],
    }
}

fn is_hidden<T>(data: &Option<PrivateData<T>>) -> bool {
    matches!(data, Some(PrivateData::Visible(false)))
}

#[test]
fn micro_user_shows_the_chosen_avatar() {
    let ann = MicroUser::new(&Site, "Ann".to_owned(), "ann", AvatarStyle::Gravatar);
    assert_eq!(ann.name, "Ann");
    assert_eq!(ann.avatar_url, "gravatar/ann");
    let bob = MicroUser::new(&Site, "Bob".to_owned(), "bob", AvatarStyle::Manual);
    assert_eq!(bob.name, "Bob");
    assert_eq!(bob.avatar_url, "custom/bob");
}

#[test]
fn owners_are_padded() {
    let row = UserRow {
        name: "Ann".to_owned(),
        lowercase_name: "ann".to_owned(),
        avatar_style: AvatarStyle::Gravatar,
    };
    let owners = get_owners(&Site, &[4, 6], &vec![(6, row)]);
    assert_eq!(owners.len(), 2);
    assert!(owners[0].is_none());
    match &owners[1] {
        Some(owner) => {
            assert_eq!(owner.name, "Ann");
            assert_eq!(owner.avatar_url, "gravatar/ann");
        }
        None => panic!("the second one has an owner"),
    }
}

#[test]
fn avatar_urls_take_the_order_of_the_users() {
    let urls = get_avatar_urls(&Site, &[1, 2], &rows().avatars);
    assert_eq!(urls, ["Gravatar/ann", "Manual/bob"]);
}

#[test]
fn ratings_are_counted_or_hidden() {
    let counts = get_ratings(&[1, 2], &vec![(2, 5)], Visibility::Full);
    assert!(matches!(counts[0], PrivateData::Expose(0)));
    assert!(matches!(counts[1], PrivateData::Expose(5)));
    let hidden = get_ratings(&[1, 2], &vec![(2, 5)], Visibility::PublicOnly);
    assert_eq!(hidden.len(), 2);
    assert!(hidden.iter().all(|count| matches!(count, PrivateData::Visible(false))));
}

#[test]
fn whole_users_in_full() {
    let users = vec![user(1, "Ann", Some("ann@site")), user(2, "Bob", None)];
    let rows = rows();
    assert!(rows.is_complete(&[1, 2], Mask::all()));
    let infos = UserInfo::new_batch(&Site, users, Mask::all(), Visibility::Full, &rows);
    assert_eq!(infos.len(), 2);
    let ann = &infos[0];
    assert_eq!(ann.version, Some(DateTime(13)));
    assert_eq!(ann.name.as_deref(), Some("Ann"));
    match &ann.email {
        Some(PrivateData::Expose(Some(email))) => assert_eq!(email, "ann@site"),
        _ => panic!("the email is shown"),
    }
    assert_eq!(ann.rank, Some(UserRank(3)));
    assert_eq!(ann.last_login_time, Some(DateTime(12)));
    assert_eq!(ann.creation_time, Some(DateTime(11)));
    assert_eq!(ann.avatar_style, Some(AvatarStyle::Manual));
    assert_eq!(ann.avatar_url.as_deref(), Some("Gravatar/ann"));
    assert_eq!(ann.comment_count, Some(11));
    assert_eq!(ann.uploaded_post_count, Some(111));
    assert!(matches!(ann.liked_post_count, Some(PrivateData::Expose(0))));
    assert!(matches!(ann.disliked_post_count, Some(PrivateData::Expose(4))));
    assert_eq!(ann.favorite_post_count, Some(8));
    let bob = &infos[1];
    assert_eq!(bob.name.as_deref(), Some("Bob"));
    assert!(matches!(bob.email, Some(PrivateData::Expose(None))));
    assert!(matches!(bob.liked_post_count, Some(PrivateData::Expose(7))));
    assert_eq!(bob.avatar_url.as_deref(), Some("Manual/bob"));
    assert_eq!(bob.comment_count, Some(22));
    assert_eq!(bob.favorite_post_count, Some(9));
}

#[test]
fn public_view_hides_private_data() {
    let users = vec![user(1, "Ann", Some("ann@site"))];
    let infos = UserInfo::new_batch(&Site, users, Mask::all(), Visibility::PublicOnly, &rows());
    let ann = &infos[0];
    assert!(is_hidden(&ann.email));
    assert!(is_hidden(&ann.liked_post_count));
    assert!(is_hidden(&ann.disliked_post_count));
    assert_eq!(ann.name.as_deref(), Some("Ann"));
    assert_eq!(ann.favorite_post_count, Some(8));
}

#[test]
fn only_selected_fields_are_shown() {
    let fields = Mask::none().with(Field::Name).with(Field::CommentCount);
    let infos = UserInfo::new_batch_from_ids(
        &Site,
        &[2, 1],
        vec![user(1, "Ann", None), user(2, "Bob", None)],
        fields,
        Visibility::Full,
        &rows(),
    );
    let shown: Vec<_> = infos.iter().map(|info| (info.name.as_deref(), info.comment_count)).collect();
    assert_eq!(shown, [(Some("Bob"), Some(22)), (Some("Ann"), Some(11))]);
    for info in &infos {
        assert!(info.version.is_none());
        assert!(info.email.is_none());
        assert!(info.rank.is_none());
        assert!(info.last_login_time.is_none());
        assert!(info.creation_time.is_none());
        assert!(info.avatar_style.is_none());
        assert!(info.avatar_url.is_none());
        assert!(info.uploaded_post_count.is_none());
        assert!(info.liked_post_count.is_none());
        assert!(info.disliked_post_count.is_none());
        assert!(info.favorite_post_count.is_none());
    }
}

#[test]
fn one_user_by_id() {
    let loaded = vec![user(2, "Bob", None)];
    let info = UserInfo::new_from_id(&Site, 2, loaded, Mask::all(), Visibility::Full, &rows());
    assert_eq!(info.name.as_deref(), Some("Bob"));
    assert_eq!(info.uploaded_post_count, Some(222));
}

#[test]
fn selected_statistics_must_be_there() {
    let rows = rows();
    assert!(!rows.is_complete(&[1, 3], Mask::all()));
    assert!(rows.is_complete(&[1, 3], Mask::none().with(Field::LikedPostCount)));
    for field in [
        Field::AvatarUrl,
        Field::CommentCount,
        Field::UploadedPostCount,
        Field::FavoritePostCount,
    ] {
        assert!(!rows.is_complete(&[3], Mask::none().with(field)));
        assert!(rows.is_complete(&[2], Mask::none().with(field)));
    }
}

#[test]
fn avatar_does_not_depend_on_the_display_name() {
    for style in [AvatarStyle::Gravatar, AvatarStyle::Manual] {
        let bob = MicroUser::new(&Site, "Bob".to_owned(), "bob", style);
        let loud = MicroUser::new(&Site, "BOB".to_owned(), "bob", style);
        assert_eq!(bob.avatar_url, loud.avatar_url);
        assert_eq!((bob.name.as_str(), loud.name.as_str()), ("Bob", "BOB"));
    }
}

#[test]
fn public_views_of_users_that_differ_in_private_data_are_equal() {
    let view = |email: Option<&str>, rows: &UserRows| {
        let users = vec![user(1, "Ann", email), user(2, "Bob", None)];
        let infos = UserInfo::new_batch(&Site, users, Mask::all(), Visibility::PublicOnly, rows);
        infos
            .iter()
            .map(|info| {
                let private = (&info.email, &info.liked_post_count, &info.disliked_post_count);
                let counts = (info.comment_count, info.uploaded_post_count, info.favorite_post_count);
                format!("{private:?} {counts:?} {:?} {:?}", info.name, info.avatar_url)
            })
            .collect::<Vec<_>>()
    };
    let mut other = rows();
    other.like_counts = vec![(1, 900)];
    other.dislike_counts.clear();
    assert_eq!(view(Some("ann@site"), &rows()), view(None, &other));
}
