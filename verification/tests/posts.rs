use booru_resources::config::{Client, Config, Context};
use booru_resources::model::{
    AvatarStyle, Comment, DateTime, MimeType, Post, PostFlags, PostNote, PostSafety, PostType,
    Rating, Score, UserRow,
};
use booru_resources::resource::comment::{CommentInfo, CommentRows};
use booru_resources::resource::field::Mask;
use booru_resources::resource::pool::{MicroPoolRows, PoolUse};
use booru_resources::resource::post::{
    get_comments, get_content_urls, get_favorited_by, get_notes, get_own_favorites, get_relations,
    get_thumbnail_urls, CommentRow, Field, Note, PostInfo, PostRows,
};
use booru_resources::resource::tag::{MicroTagRows, TagUse};

struct Site;

impl Config for Site {
    fn gravatar_url(&self, lowercase_name: &str) -> String {
        format!("gravatar/{lowercase_name}")
    }

    fn custom_avatar_url(&self, lowercase_name: &str) -> String {
        format!("custom/{lowercase_name}")
    }

    fn avatar_url(&self, _lowercase_name: &str, _avatar_style: AvatarStyle) -> String {
        unreachable!()
    }

    fn content_url(&self, id: i64, size: Option<i64>, mime_type: MimeType) -> String {
        format!("content/{id}/{size:?}/{}", mime_type.0)
    }

    fn thumbnail_url(&self, id: i64, size: Option<i64>) -> String {
        format!("thumbnail/{id}/{size:?}")
    }
}

fn context(client: Option<i64>) -> Context<Site> {
    Context { config: Site, client: Client { id: client } }
}

fn post(id: i64) -> Post {
    Post {
        id,
        file_size: 1000 + id,
        width: 640,
        height: 480,
        safety: PostSafety(1),
        type_: PostType(2),
        mime_type: MimeType(3),
        checksum: vec![0x00, 0x9f, 0xa0, id as u8],
        checksum_md5: vec![0xff, 0x10],
        flags: PostFlags(4),
        source: "somewhere".to_owned(),
        description: format!("post {id}"),
        creation_time: DateTime(id * 10),
        last_edit_time: DateTime(id * 10 + 1),
        custom_thumbnail_size: id + 50,
    }
}

fn text(id: i64, name: &str) -> (i64, String) {
    (id, name.to_owned())
}

fn user_row(name: &str, avatar_style: AvatarStyle) -> UserRow {
    UserRow { name: name.to_owned(), lowercase_name: name.to_lowercase(), avatar_style }
}

fn comment_row(post_id: i64, id: i64, owner: Option<UserRow>) -> (i64, CommentRow) {
    let comment = Comment {
        id,
        post_id,
        text: format!("comment {id}"),
        creation_time: DateTime(id),
        last_edit_time: DateTime(id + 1),
    };
    (post_id, CommentRow { comment, score: id * 2, owner })
}

fn note_row(id: i64, polygon: Vec<Option<f32>>) -> PostNote<f32> {
    PostNote { id, polygon, text: format!("note {id}") }
}

fn rows() -> PostRows<f32> {
    PostRows {
        owners: vec![(7, user_row("Ann", AvatarStyle::Gravatar))],
        tags: MicroTagRows {
            tags: vec![
                (7, TagUse { tag_id: 1, category_id: 1, usages: 5 }),
                (8, TagUse { tag_id: 1, category_id: 1, usages: 5 }),
                (7, TagUse { tag_id: 2, category_id: 1, usages: 6 }),
            ],
            names: vec![text(1, "sky"), text(2, "sea")],
            categories: vec![text(1, "default")],
        },
        comments: vec![
            comment_row(7, 21, None),
            comment_row(8, 22, Some(user_row("Bob", AvatarStyle::Manual))),
            comment_row(7, 23, None),
        ],
        comment_scores: vec![(23, Score::Like)],
        relations: vec![(7, 8), (8, 7), (7, 9)],
        pools: MicroPoolRows {
            pools: vec![(8, PoolUse { pool_id: 5, category_id: 1, post_count: 3 })],
            names: vec![text(5, "trip")],
            categories: vec![text(1, "default")],
            descriptions: vec![text(5, "a trip")],
        },
        notes: vec![(7, note_row(31, vec![Some(0.0), Some(0.5), Some(1.0), Some(0.25), None]))],
        scores: vec![(8, 80), (7, 70)],
        own_scores: vec![(8, Score::Dislike)],
        own_favorites: vec![7],
        tag_counts: vec![(7, 2), (8, 1)],
        comment_counts: vec![(7, 2), (8, 1)],
        relation_counts: vec![(7, 2), (8, 1)],
        note_counts: vec![(7, 1), (8, 0)],
        favorite_counts: vec![(7, 2), (8, 0)],
        feature_counts: vec![(7, 1), (8, 0)],
        last_feature_times: vec![(7, Some(DateTime(99))), (8, None)],
        favorited_by: vec![
            (7, user_row("Ann", AvatarStyle::Gravatar)),
            (7, user_row("Bob", AvatarStyle::Manual)),
        ],
        custom_thumbnails: vec![(7, false), (8, true)],
    }
}

#[test]
fn whole_posts() {
    assert!(rows().is_complete(&[7, 8], Mask::all()));
    let ctx = context(Some(3));
    let infos = PostInfo::new_batch(&ctx, vec![post(7), post(8)], Mask::all(), rows());
    assert_eq!(infos.len(), 2);
    let info = &infos[0];
    assert_eq!(info.version, Some(DateTime(71)));
    assert_eq!(info.id, Some(7));
    match &info.user {
        Some(Some(user)) => {
            assert_eq!(user.name, "Ann");
            assert_eq!(user.avatar_url, "gravatar/ann");
        }
        _ => panic!("the post has an owner"),
    }
    assert_eq!(info.file_size, Some(1007));
    assert_eq!(info.canvas_width, Some(640));
    assert_eq!(info.canvas_height, Some(480));
    assert_eq!(info.safety, Some(PostSafety(1)));
    assert_eq!(info.type_, Some(PostType(2)));
    assert_eq!(info.mime_type, Some(MimeType(3)));
    assert_eq!(info.checksum.as_deref(), Some("009fa007"));
    assert_eq!(info.checksum_md5.as_deref(), Some("ff10"));
    assert_eq!(info.flags, Some(PostFlags(4)));
    assert_eq!(info.source.as_deref(), Some("somewhere"));
    assert_eq!(info.description.as_deref(), Some("post 7"));
    assert_eq!(info.creation_time, Some(DateTime(70)));
    assert_eq!(info.last_edit_time, Some(DateTime(71)));
    assert_eq!(info.content_url.as_deref(), Some("content/7/Some(57)/3"));
    assert_eq!(info.thumbnail_url.as_deref(), Some("thumbnail/7/Some(57)"));
    let tags = info.tags.as_deref().expect("tags are selected");
    assert_eq!(tags.len(), 2);
    assert_eq!(*tags[0].names, ["sky"]);
    assert_eq!((tags[1].category.as_str(), tags[1].usages), ("default", 6));
    let comments = info.comments.as_deref().expect("comments are selected");
    let ids: Vec<_> = comments.iter().map(|comment| comment.id).collect();
    assert_eq!(ids, [Some(21), Some(23)]);
    let ratings: Vec<_> = comments.iter().map(|comment| comment.own_score).collect();
    assert_eq!(ratings, [Some(Rating::Unrated), Some(Rating::Like)]);
    let relations = info.relations.as_deref().expect("relations are selected");
    let related: Vec<_> =
        relations.iter().map(|post| (post.id, post.thumbnail_url.as_str())).collect();
    assert_eq!(related, [(8, "thumbnail/8/None"), (9, "thumbnail/9/None")]);
    assert_eq!(info.pools.as_deref().map(<[_]>::len), Some(0));
    let notes = info.notes.as_deref().expect("notes are selected");
    assert_eq!(notes.len(), 1);
    assert_eq!(notes[0].polygon, [[0.0, 0.5], [1.0, 0.25]]);
    assert_eq!(notes[0].text, "note 31");
    assert_eq!(info.score, Some(70));
    assert_eq!(info.own_score, Some(Rating::Unrated));
    assert_eq!(info.own_favorite, Some(true));
    assert_eq!(info.tag_count, Some(2));
    assert_eq!(info.comment_count, Some(2));
    assert_eq!(info.relation_count, Some(2));
    assert_eq!(info.note_count, Some(1));
    assert_eq!(info.favorite_count, Some(2));
    assert_eq!(info.feature_count, Some(1));
    assert_eq!(info.last_feature_time, Some(Some(DateTime(99))));
    let favoriters: Vec<_> = info
        .favorited_by
        .as_deref()
        .expect("favoriters are selected")
        .iter()
        .map(|user| (user.name.as_str(), user.avatar_url.as_str()))
        .collect();
    assert_eq!(favoriters, [("Ann", "gravatar/ann"), ("Bob", "custom/bob")]);
    assert_eq!(info.has_custom_thumbnail, Some(false));

    let info = &infos[1];
    assert_eq!(info.id, Some(8));
    assert!(matches!(info.user, Some(None)));
    assert_eq!(info.checksum.as_deref(), Some("009fa008"));
    assert_eq!(info.pools.as_deref().map(|pools| pools[0].id), Some(5));
    assert_eq!(info.notes.as_deref().map(<[_]>::len), Some(0));
    assert_eq!(info.score, Some(80));
    assert_eq!(info.own_score, Some(Rating::Dislike));
    assert_eq!(info.own_favorite, Some(false));
    assert_eq!(info.last_feature_time, Some(None));
    assert_eq!(info.favorited_by.as_deref().map(<[_]>::len), Some(0));
    assert_eq!(info.has_custom_thumbnail, Some(true));
}

#[test]
fn post_is_the_same_alone() {
    let ctx = context(Some(3));
    let batch = PostInfo::new_batch(&ctx, vec![post(7), post(8)], Mask::all(), rows());
    let alone = PostInfo::new(&ctx, post(8), Mask::all(), rows());
    assert_eq!(format!("{:?}", batch[1]), format!("{alone:?}"));
    let by_id = PostInfo::new_from_id(&ctx, 8, vec![post(8)], Mask::all(), rows());
    assert_eq!(format!("{by_id:?}"), format!("{alone:?}"));
}

#[test]
fn posts_take_the_order_of_the_ids() {
    let ctx = context(None);
    let fields = Mask::none().with(Field::Id).with(Field::Score);
    let loaded = vec![post(7), post(8)];
    let infos = PostInfo::new_batch_from_ids(&ctx, &[8, 7], loaded, fields, rows());
    let shown: Vec<_> = infos.iter().map(|info| (info.id, info.score)).collect();
    assert_eq!(shown, [(Some(8), Some(80)), (Some(7), Some(70))]);
}

#[test]
fn nothing_is_shown_where_nothing_is_selected() {
    let info = PostInfo::new(&context(Some(3)), post(7), Mask::none(), rows());
    let shown = format!("{info:?}");
    assert!(!shown.contains("Some"));
    assert_eq!(shown.matches("None").count(), 35);
}

#[test]
fn each_field_is_shown_alone() {
    for field in [Field::Tags, Field::Comments, Field::Pools, Field::Notes, Field::Checksum] {
        let info = PostInfo::new(&context(Some(3)), post(7), Mask::none().with(field), rows());
        assert_eq!(info.tags.is_some(), field == Field::Tags);
        assert_eq!(info.comments.is_some(), field == Field::Comments);
        assert_eq!(info.pools.is_some(), field == Field::Pools);
        assert_eq!(info.notes.is_some(), field == Field::Notes);
        assert_eq!(info.checksum.is_some(), field == Field::Checksum);
        assert!(info.checksum_md5.is_none());
        assert!(info.id.is_none());
        assert!(info.score.is_none());
    }
}

#[test]
fn anonymous_client_has_no_marks() {
    let info = PostInfo::new(&context(None), post(7), Mask::all(), rows());
    assert_eq!(info.own_score, Some(Rating::Unrated));
    assert_eq!(info.own_favorite, Some(false));
    let comments = info.comments.expect("comments are selected");
    assert_eq!(comments.len(), 2);
    for comment in comments {
        assert_eq!(comment.own_score, Some(Rating::Unrated));
    }
}

#[test]
fn comments_are_listed_in_full() {
    let rows = rows();
    let lists = get_comments(&context(Some(1)), &[8, 9], rows.comments, rows.comment_scores);
    assert_eq!(lists.len(), 2);
    assert!(lists[1].is_empty());
    let comment = &lists[0][0];
    assert_eq!(comment.version, Some(DateTime(23)));
    assert_eq!(comment.id, Some(22));
    assert_eq!(comment.post_id, Some(8));
    assert_eq!(comment.text.as_deref(), Some("comment 22"));
    assert_eq!(comment.creation_time, Some(DateTime(22)));
    assert_eq!(comment.last_edit_time, Some(DateTime(23)));
    match &comment.user {
        Some(Some(user)) => assert_eq!(user.avatar_url, "custom/bob"),
        _ => panic!("the comment has an author"),
    }
    assert_eq!(comment.score, Some(44));
    assert_eq!(comment.own_score, Some(Rating::Unrated));
}

#[test]
fn columns_take_the_order_of_the_posts() {
    let posts = [post(8), post(7)];
    assert_eq!(get_content_urls(&Site, &posts), ["content/8/Some(58)/3", "content/7/Some(57)/3"]);
    assert_eq!(get_thumbnail_urls(&Site, &posts), ["thumbnail/8/Some(58)", "thumbnail/7/Some(57)"]);
    let related: Vec<Vec<i64>> = get_relations(&Site, &[8, 7], rows().relations)
        .iter()
        .map(|posts| posts.iter().map(|post| post.id).collect())
        .collect();
    assert_eq!(related, [vec![7], vec![8, 9]]);
    let known = Client { id: Some(1) };
    assert_eq!(get_own_favorites(known, &[8, 7], &vec![7]), [false, true]);
    assert_eq!(get_own_favorites(Client { id: None }, &[8, 7], &vec![7]), [false, false]);
    let counts: Vec<usize> =
        get_favorited_by(&Site, &[8, 7], rows().favorited_by).iter().map(Vec::len).collect();
    assert_eq!(counts, [0, 2]);
    let notes: Vec<usize> = get_notes(&[8, 7], rows().notes).iter().map(Vec::len).collect();
    assert_eq!(notes, [0, 1]);
}

#[test]
fn note_pairs_up_its_coordinates() {
    let note = Note::new(note_row(4, vec![Some(0.0), Some(0.1), Some(0.2), Some(0.3)]));
    assert_eq!(note.id(), 4);
    assert_eq!(note.polygon, [[0.0, 0.1], [0.2, 0.3]]);
    assert_eq!(note.text, "note 4");
    let odd = Note::new(note_row(5, vec![Some(0.5), Some(0.6), Some(0.7)]));
    assert_eq!(odd.polygon, [[0.5, 0.6]]);
    let empty = Note::new(note_row(6, vec![]));
    assert!(empty.polygon.is_empty());
}

#[test]
fn stored_note_keeps_its_vertices() {
    let note = Note { id: 4, polygon: vec![[0.0f32, 0.25], [0.5, 1.0]], text: "here".to_owned() };
    let stored = note.to_new_post_note(12);
    assert_eq!(stored.post_id, 12);
    assert_eq!(stored.polygon, [0.0, 0.25, 0.5, 1.0]);
    assert_eq!(stored.text, "here");
    let row = PostNote {
        id: 9,
        polygon: stored.polygon.iter().map(|&coordinate| Some(coordinate)).collect(),
        text: stored.text.to_owned(),
    };
    let loaded = Note::new(row);
    assert_eq!(loaded.polygon, note.polygon);
    assert_eq!(loaded.id(), 9);
    let copy = note.clone();
    assert_eq!(copy.id(), 4);
    assert_eq!(copy.polygon, note.polygon);
    assert_eq!(copy.text, "here");
}

#[test]
fn post_rows_must_be_there() {
    let complete = rows();
    for field in [
        Field::Score,
        Field::TagCount,
        Field::CommentCount,
        Field::RelationCount,
        Field::NoteCount,
        Field::FavoriteCount,
        Field::FeatureCount,
        Field::LastFeatureTime,
        Field::HasCustomThumbnail,
    ] {
        assert!(complete.is_complete(&[8, 7], Mask::none().with(field)));
        assert!(!complete.is_complete(&[7, 9], Mask::none().with(field)));
    }
    for field in [Field::User, Field::OwnScore, Field::OwnFavorite, Field::Tags, Field::Comments] {
        assert!(complete.is_complete(&[7, 9], Mask::none().with(field)));
    }
    let mut rows = rows();
    rows.notes.push((8, note_row(32, vec![Some(0.0), None])));
    assert!(rows.is_complete(&[7], Mask::none().with(Field::Notes)));
    assert!(!rows.is_complete(&[7, 8], Mask::none().with(Field::Notes)));
    rows.tags.names.clear();
    assert!(!rows.is_complete(&[7], Mask::none().with(Field::Tags)));
    rows.pools.descriptions.clear();
    assert!(!rows.is_complete(&[8], Mask::none().with(Field::Pools)));
    assert!(rows.is_complete(&[7], Mask::none().with(Field::Pools)));
}

#[test]
fn batches_can_be_joined() {
    let ctx = context(Some(3));
    let shown = |posts: Vec<Post>| {
        let infos = PostInfo::new_batch(&ctx, posts, Mask::all(), rows());
        infos.iter().map(|info| format!("{info:?}")).collect::<Vec<_>>()
    };
    let mut parts = shown(vec![post(8)]);
    parts.extend(shown(vec![post(7)]));
    assert_eq!(shown(vec![post(8), post(7)]), parts);
}

#[test]
fn larger_mask_keeps_fields() {
    let ctx = context(Some(3));
    let fields = Mask::none().with(Field::Tags).with(Field::Checksum).with(Field::OwnScore);
    let some = PostInfo::new(&ctx, post(8), fields, rows());
    let more = PostInfo::new(&ctx, post(8), Mask::all(), rows());
    assert_eq!(format!("{:?}", some.tags), format!("{:?}", more.tags));
    assert_eq!(some.checksum, more.checksum);
    assert_eq!(some.own_score, more.own_score);
    assert!(some.id.is_none() && more.id.is_some());
}

#[test]
fn permuted_ids_permute_posts() {
    let ctx = context(Some(3));
    let by_ids = |ids: &[i64], loaded: Vec<Post>| {
        let infos = PostInfo::new_batch_from_ids(&ctx, ids, loaded, Mask::all(), rows());
        infos.iter().map(|info| format!("{info:?}")).collect::<Vec<_>>()
    };
    let mut shown = by_ids(&[7, 8], vec![post(7), post(8)]);
    let batch = PostInfo::new_batch(&ctx, vec![post(7), post(8)], Mask::all(), rows());
    assert_eq!(shown, batch.iter().map(|info| format!("{info:?}")).collect::<Vec<_>>());
    shown.reverse();
    assert_eq!(by_ids(&[8, 7], vec![post(8), post(7)]), shown);
    assert_eq!(by_ids(&[8, 7], vec![post(7), post(8)]), shown);
}

#[test]
fn listed_comments_are_whole_comments() {
    let ctx = context(Some(1));
    let lists = get_comments(&ctx, &[7, 8], rows().comments, rows().comment_scores);
    let own_rows = CommentRows {
        owners: vec![(22, user_row("Bob", AvatarStyle::Manual))],
        scores: vec![(21, 42), (22, 44), (23, 46)],
        own_scores: vec![(23, Score::Like)],
    };
    for (list, post_id) in lists.into_iter().zip([7, 8]) {
        let comments: Vec<Comment> = rows()
            .comments
            .into_iter()
            .filter(|(id, _)| *id == post_id)
            .map(|(_, row)| row.comment)
            .collect();
        let own = CommentInfo::new_batch(&ctx, comments, Mask::all(), &own_rows);
        assert_eq!(format!("{list:?}"), format!("{own:?}"));
    }
}

#[test]
fn urls_can_be_joined() {
    let mut thumbnails = get_thumbnail_urls(&Site, &[post(8)]);
    thumbnails.extend(get_thumbnail_urls(&Site, &[post(7), post(8)]));
    assert_eq!(get_thumbnail_urls(&Site, &[post(8), post(7), post(8)]), thumbnails);
    let mut contents = get_content_urls(&Site, &[post(8)]);
    contents.extend(get_content_urls(&Site, &[post(7)]));
    assert_eq!(get_content_urls(&Site, &[post(8), post(7)]), contents);
    let mut other = post(8);
    other.description.clear();
    other.mime_type = MimeType(9);
    assert_eq!(get_thumbnail_urls(&Site, &[other]), thumbnails[..1]);
}
