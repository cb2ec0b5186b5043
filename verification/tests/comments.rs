use booru_resources::config::{Client, Config, Context};
use booru_resources::model::{AvatarStyle, Comment, DateTime, MimeType, Rating, Score, UserRow};
use booru_resources::resource::comment::{get_own_scores, CommentInfo, CommentRows, Field};
use booru_resources::resource::field::Mask;

struct Site;

impl Config for Site {
    fn gravatar_url(&self, lowercase_name: &str) -> String {
        format!("gravatar/{lowercase_name}")
    }

    fn custom_avatar_url(&self, lowercase_name: &str) -> String {
        format!("custom/{lowercase_name}")
    }

    fn avatar_url(&self, _lowercase_name: &str, _avatar_style: AvatarStyle) -> String {
        unreachable!()
    }

    fn content_url(&self, _id: i64, _size: Option<i64>, _mime_type: MimeType) -> String {
        unreachable!()
    }

    fn thumbnail_url(&self, _id: i64, _size: Option<i64>) -> String {
        unreachable!()
    }
}

fn context(client: Option<i64>) -> Context<Site> {
    Context { config: Site, client: Client { id: client } }
}

fn comment(id: i64) -> Comment {
    Comment {
        id,
        post_id: 100 + id,
        text: format!("comment {id}"),
        creation_time: DateTime(id * 10),
        last_edit_time: DateTime(id * 10 + 1),
    }
}

fn rows() -> CommentRows {
    CommentRows {
        owners: vec![(
            2,
            UserRow {
                name: "Bob".to_owned(),
                lowercase_name: "bob".to_owned(),
                avatar_style: AvatarStyle::Manual,
            },
        )],
        scores: vec![(2, -4), (1, 6)],
        own_scores: vec![(1, Score::Dislike)],
    }
}

#[test]
fn whole_comments() {
    let comments = vec![comment(1), comment(2)];
    let infos = CommentInfo::new_batch(&context(Some(5)), comments, Mask::all(), &rows());
    assert_eq!(infos.len(), 2);
    let first = &infos[0];
    assert_eq!(first.version, Some(DateTime(11)));
    assert_eq!(first.id, Some(1));
    assert_eq!(first.post_id, Some(101));
    assert_eq!(first.text.as_deref(), Some("comment 1"));
    assert_eq!(first.creation_time, Some(DateTime(10)));
    assert_eq!(first.last_edit_time, Some(DateTime(11)));
    assert!(matches!(first.user, Some(None)));
    assert_eq!(first.score, Some(6));
    assert_eq!(first.own_score, Some(Rating::Dislike));
    let second = &infos[1];
    assert_eq!(second.id, Some(2));
    match &second.user {
        Some(Some(user)) => {
            assert_eq!(user.name, "Bob");
            assert_eq!(user.avatar_url, "custom/bob");
        }
        _ => panic!("the comment has an author"),
    }
    assert_eq!(second.score, Some(-4));
    assert_eq!(second.own_score, Some(Rating::Unrated));
}

#[test]
fn anonymous_client_has_no_scores() {
    let scores = vec![(1, Score::Like), (2, Score::Dislike)];
    let anonymous = get_own_scores(Client { id: None }, &[1, 2, 3], &scores);
    assert_eq!(anonymous, [Rating::Unrated; 3]);
    let known = get_own_scores(Client { id: Some(1) }, &[2, 3, 1], &scores);
    assert_eq!(known, [Rating::Dislike, Rating::Unrated, Rating::Like]);
}

#[test]
fn only_selected_comment_fields_are_shown() {
    let fields = Mask::none().with(Field::Text).with(Field::Score);
    let info = CommentInfo::new(&context(None), comment(2), fields, &rows());
    assert_eq!(info.text.as_deref(), Some("comment 2"));
    assert_eq!(info.score, Some(-4));
    assert!(info.version.is_none());
    assert!(info.id.is_none());
    assert!(info.post_id.is_none());
    assert!(info.creation_time.is_none());
    assert!(info.last_edit_time.is_none());
    assert!(info.user.is_none());
    assert!(info.own_score.is_none());
}

#[test]
fn comments_by_ids() {
    let ctx = context(Some(5));
    let loaded = vec![comment(1), comment(2)];
    let infos = CommentInfo::new_batch_from_ids(&ctx, &[2, 1], loaded, Mask::all(), &rows());
    let ids: Vec<_> = infos.iter().map(|info| info.id).collect();
    assert_eq!(ids, [Some(2), Some(1)]);
    let scores: Vec<_> = infos.iter().map(|info| info.score).collect();
    assert_eq!(scores, [Some(-4), Some(6)]);
    let one = CommentInfo::new_from_id(&ctx, 1, vec![comment(1)], Mask::all(), &rows());
    assert_eq!(one.id, Some(1));
    assert_eq!(one.own_score, Some(Rating::Dislike));
}

#[test]
fn scores_must_be_there() {
    let rows = rows();
    assert!(rows.is_complete(&[1, 2], Mask::all()));
    assert!(!rows.is_complete(&[3], Mask::all()));
    assert!(rows.is_complete(&[3], Mask::none().with(Field::User).with(Field::OwnScore)));
}
