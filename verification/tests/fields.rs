use booru_resources::resource::field::{Mask, ResourceField};
use booru_resources::resource::{comment, post, tag, user};

fn names_at_their_positions<F: ResourceField>(names: &[&str])
where
    u64: From<F>,
{
    for (position, name) in names.iter().enumerate() {
        let field = F::parse(name).expect("each name is that of a field");
        assert_eq!(field.index(), position as u64);
        assert_eq!(u64::from(field), position as u64);
        let mask = Mask::<F>::parse(name).expect("a list of one name");
        for other in names {
            let selected = mask.has(F::parse(other).expect("each name is that of a field"));
            assert_eq!(selected, other == name);
        }
    }
    let all = Mask::<F>::parse(&names.join(",")).expect("a list of all names");
    for name in names {
        let field = F::parse(name).expect("each name is that of a field");
        assert!(all.has(field));
        assert!(Mask::all().has(field));
        assert!(!Mask::none().has(field));
    }
}

#[test]
fn comment_fields() {
    names_at_their_positions::<comment::Field>(&[
        "version",
        "id",
        "postId",
        "text",
        "creationTime",
        "lastEditTime",
        "user",
        "score",
        "ownScore",
    ]);
}

#[test]
fn tag_fields() {
    names_at_their_positions::<tag::Field>(&[
        "version",
        "description",
        "creationTime",
        "lastEditTime",
        "category",
        "names",
        "implications",
        "suggestions",
        "usages",
    ]);
}

#[test]
fn user_fields() {
    names_at_their_positions::<user::Field>(&[
        "version",
        "name",
        "email",
        "rank",
        "lastLoginTime",
        "creationTime",
        "avatarStyle",
        "avatarUrl",
        "commentCount",
        "uploadedPostCount",
        "likedPostCount",
        "dislikedPostCount",
        "favoritePostCount",
    ]);
}

#[test]
fn post_fields() {
    names_at_their_positions::<post::Field>(&[
        "version",
        "id",
        "user",
        "fileSize",
        "canvasWidth",
        "canvasHeight",
        "safety",
        "type",
        "mimeType",
        "checksum",
        "checksumMd5",
        "flags",
        "source",
        "description",
        "creationTime",
        "lastEditTime",
        "contentUrl",
        "thumbnailUrl",
        "tags",
        "comments",
        "relations",
        "pools",
        "notes",
        "score",
        "ownScore",
        "ownFavorite",
        "tagCount",
        "commentCount",
        "relationCount",
        "noteCount",
        "favoriteCount",
        "featureCount",
        "lastFeatureTime",
        "favoritedBy",
        "hasCustomThumbnail",
    ]);
}

#[test]
fn first_unknown_name_is_reported() {
    for (list, unknown) in [
        ("name,Name,nothing", "Name"),
        ("", ""),
        ("name,", ""),
        (",name", ""),
        ("name, email", " email"),
        ("last_login_time", "last_login_time"),
    ] {
        match Mask::<user::Field>::parse(list) {
            Err(error) => assert_eq!(error.name, unknown),
            Ok(_) => panic!("{list} holds an unknown name"),
        }
    }
}

#[test]
fn names_may_be_repeated() {
    let mask = Mask::<tag::Field>::parse("names,usages,names").expect("a list of names");
    assert!(mask.has(tag::Field::Names));
    assert!(mask.has(tag::Field::Usages));
    assert!(!mask.has(tag::Field::Category));
}

#[test]
fn unknown_name_is_no_field() {
    assert!(user::Field::parse("emails").is_none());
    assert!(post::Field::parse("checksumMD5").is_none());
}
