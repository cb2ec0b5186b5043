use booru_resources::model::{DateTime, Tag};
use booru_resources::resource::field::Mask;
use booru_resources::resource::pool::{get_pools, MicroPoolRows, PoolUse};
use booru_resources::resource::tag::{
    category_ids_of, get_categories, get_micro_tags, Field, MicroTag, MicroTagRows, TagInfo, TagRows,
    TagUse,
};

fn tag(id: i64, category_id: i64) -> Tag {
    Tag {
        id,
        category_id,
        description: format!("tag {id}"),
        creation_time: DateTime(id * 10),
        last_edit_time: DateTime(id * 10 + 1),
    }
}

fn text(id: i64, name: &str) -> (i64, String) {
    (id, name.to_owned())
}

fn tag_use(resource: i64, tag_id: i64, category_id: i64, usages: i64) -> (i64, TagUse) {
    (resource, TagUse { tag_id, category_id, usages })
}

fn listed(tags: Vec<(i64, TagUse)>) -> MicroTagRows {
    MicroTagRows {
        tags,
        names: vec![text(8, "sky"), text(8, "heaven"), text(9, "sea")],
        categories: vec![text(1, "default"), text(2, "meta")],
    }
}

fn rows() -> TagRows {
    TagRows {
        categories: vec![text(2, "meta"), text(1, "default")],
        names: vec![text(4, "cat"), text(3, "dog"), text(4, "kitty")],
        implications: listed(vec![tag_use(3, 9, 2, 12), tag_use(3, 8, 1, 5)]),
        suggestions: listed(vec![tag_use(4, 8, 1, 5)]),
        usages: vec![(3, 33), (4, 44)],
    }
}

fn summary(tags: &[MicroTag]) -> Vec<(String, &str, i64)> {
    tags.iter().map(|tag| (tag.names.join(" "), tag.category.as_str(), tag.usages)).collect()
}

#[test]
fn whole_tags() {
    let tags = vec![tag(4, 1), tag(3, 2)];
    assert!(rows().is_complete(&[4, 3], &category_ids_of(&tags), Mask::all()));
    let infos = TagInfo::new_batch(tags, Mask::all(), rows());
    assert_eq!(infos.len(), 2);
    let cat = &infos[0];
    assert_eq!(cat.version, Some(DateTime(41)));
    assert_eq!(cat.description.as_deref(), Some("tag 4"));
    assert_eq!(cat.creation_time, Some(DateTime(40)));
    assert_eq!(cat.last_edit_time, Some(DateTime(41)));
    assert_eq!(cat.category.as_deref(), Some("default"));
    assert_eq!(cat.names.as_deref(), Some(["cat".to_owned(), "kitty".to_owned()].as_slice()));
    assert_eq!(cat.implications.as_deref().map(summary), Some(vec![]));
    assert_eq!(
        cat.suggestions.as_deref().map(summary),
        Some(vec![("sky heaven".to_owned(), "default", 5)])
    );
    assert_eq!(cat.usages, Some(44));
    let dog = &infos[1];
    assert_eq!(dog.category.as_deref(), Some("meta"));
    assert_eq!(dog.names.as_deref(), Some(["dog".to_owned()].as_slice()));
    assert_eq!(
        dog.implications.as_deref().map(summary),
        Some(vec![("sea".to_owned(), "meta", 12), ("sky heaven".to_owned(), "default", 5)])
    );
    assert_eq!(dog.usages, Some(33));
}

#[test]
fn tag_is_the_same_alone() {
    let batch = TagInfo::new_batch(vec![tag(4, 1), tag(3, 2)], Mask::all(), rows());
    let alone = TagInfo::new(tag(3, 2), Mask::all(), rows());
    assert_eq!(format!("{:?}", batch[1]), format!("{alone:?}"));
    let by_id = TagInfo::new_from_id(3, vec![tag(3, 2)], Mask::all(), rows());
    assert_eq!(format!("{by_id:?}"), format!("{alone:?}"));
}

#[test]
fn only_selected_tag_fields_are_shown() {
    let fields = Mask::none().with(Field::Category);
    let infos = TagInfo::new_batch_from_ids(&[3, 4], vec![tag(4, 1), tag(3, 2)], fields, rows());
    let categories: Vec<_> = infos.iter().map(|info| info.category.as_deref()).collect();
    assert_eq!(categories, [Some("meta"), Some("default")]);
    for info in &infos {
        assert!(info.version.is_none());
        assert!(info.description.is_none());
        assert!(info.creation_time.is_none());
        assert!(info.last_edit_time.is_none());
        assert!(info.names.is_none());
        assert!(info.implications.is_none());
        assert!(info.suggestions.is_none());
        assert!(info.usages.is_none());
    }
}

#[test]
fn tag_rows_must_be_there() {
    let rows = rows();
    assert!(!rows.is_complete(&[5], &[1], Mask::none().with(Field::Usages)));
    assert!(!rows.is_complete(&[3], &[7], Mask::none().with(Field::Category)));
    assert!(rows.is_complete(&[5], &[7], Mask::none().with(Field::Names)));
    let nameless = listed(vec![tag_use(3, 7, 1, 0)]);
    assert!(!nameless.is_complete(&[3]));
    assert!(nameless.is_complete(&[4]));
    let uncategorized = listed(vec![tag_use(3, 8, 3, 0)]);
    assert!(!uncategorized.is_complete(&[3]));
}

#[test]
fn categories_take_the_order_of_the_tags() {
    let names = get_categories(&[2, 1, 2], vec![text(1, "one"), text(2, "two")]);
    assert_eq!(names, ["two", "one", "two"]);
}

#[test]
fn listed_tags_are_collected() {
    let rows = listed(vec![tag_use(1, 9, 2, 3), tag_use(2, 8, 1, 4), tag_use(5, 8, 1, 4)]);
    let mut ids: Vec<i64> = rows.tag_ids().into_iter().collect();
    ids.sort_unstable();
    assert_eq!(ids, [8, 9]);
    let lists = get_micro_tags(&[2, 1, 3], rows);
    assert_eq!(lists.len(), 3);
    assert_eq!(summary(&lists[0]), [("sky heaven".to_owned(), "default", 4)]);
    assert_eq!(summary(&lists[1]), [("sea".to_owned(), "meta", 3)]);
    assert!(lists[2].is_empty());
}

fn pool_rows() -> MicroPoolRows {
    MicroPoolRows {
        pools: vec![
            (1, PoolUse { pool_id: 6, category_id: 2, post_count: 8 }),
            (2, PoolUse { pool_id: 5, category_id: 1, post_count: 3 }),
            (1, PoolUse { pool_id: 5, category_id: 1, post_count: 3 }),
        ],
        names: vec![text(5, "trip"), text(6, "book"), text(6, "novel")],
        categories: vec![text(1, "default"), text(2, "series")],
        descriptions: vec![text(5, "a trip"), text(6, "a book")],
    }
}

#[test]
fn listed_pools_are_collected() {
    let rows = pool_rows();
    let mut ids: Vec<i64> = rows.pool_ids().into_iter().collect();
    ids.sort_unstable();
    assert_eq!(ids, [5, 6]);
    assert!(rows.is_complete(&[1, 2, 3]));
    let lists = get_pools(&[1, 2, 3], rows);
    assert_eq!(lists.len(), 3);
    let book = &lists[0][0];
    assert_eq!(book.id, 6);
    assert_eq!(*book.names, ["book", "novel"]);
    assert_eq!(book.category, "series");
    assert_eq!(book.description, "a book");
    assert_eq!(book.post_count, 8);
    assert_eq!(lists[0][1].id, 5);
    assert_eq!(lists[1].len(), 1);
    assert_eq!(lists[1][0].description, "a trip");
    assert!(lists[2].is_empty());
}

#[test]
fn pool_rows_of_each_kind_must_be_there() {
    let mut rows = pool_rows();
    rows.names.remove(0);
    assert!(!rows.is_complete(&[1]));
    assert!(rows.is_complete(&[7]));
    let mut rows = pool_rows();
    rows.categories.remove(0);
    assert!(!rows.is_complete(&[2]));
    let mut rows = pool_rows();
    rows.descriptions.remove(1);
    assert!(!rows.is_complete(&[1]));
    assert!(rows.is_complete(&[2]));
}
