use booru_resources::model::{rating, Comment, DateTime, Rating, Score};
use booru_resources::resource::{
    collect_map, collect_names, find, grouped_by, has_rows, is_orderable, key_set, order_as,
    order_transformed_as, reversed,
};

fn comment(id: i64, text: &str) -> Comment {
    Comment {
        id,
        post_id: 1,
        text: text.to_owned(),
        creation_time: DateTime(0),
        last_edit_time: DateTime(0),
    }
}

fn texts(comments: &[Comment]) -> Vec<&str> {
    comments.iter().map(|comment| comment.text.as_str()).collect()
}

#[test]
fn records_take_the_order_of_the_keys() {
    let order = [5, 2, 9];
    let loaded = vec![comment(2, "b"), comment(5, "a"), comment(9, "c")];
    assert!(is_orderable(&loaded, &order));
    assert_eq!(texts(&order_as(loaded, &order)), ["a", "b", "c"]);
    let reordered = vec![comment(9, "c"), comment(5, "a"), comment(2, "b")];
    assert_eq!(texts(&order_as(reordered, &order)), ["a", "b", "c"]);
}

#[test]
fn records_must_be_there_and_keys_must_differ() {
    let loaded = vec![comment(2, "b"), comment(5, "a")];
    assert!(!is_orderable(&loaded, &[5, 2, 9]));
    assert!(!is_orderable(&loaded, &[5, 5]));
    assert!(is_orderable(&loaded, &[5]));
    assert!(is_orderable(&loaded, &[]));
}

#[test]
fn statistics_take_the_order_of_the_keys() {
    let rows = vec![(3, 30), (1, 10), (2, 20)];
    assert!(has_rows(&rows, &[1, 2, 3]));
    assert_eq!(order_transformed_as(&rows, &[1, 2, 3]), [10, 20, 30]);
    assert_eq!(order_transformed_as(&rows, &[2, 2]), [20, 20]);
    assert!(!has_rows(&rows, &[1, 4]));
    assert_eq!(find(&rows, 2), Some(&20));
    assert_eq!(find(&rows, 4), None);
}

#[test]
fn load_order_makes_no_difference() {
    let rows = vec![(3, 'c'), (1, 'a'), (2, 'b')];
    let reordered = vec![(2, 'b'), (3, 'c'), (1, 'a')];
    for id in 0..5 {
        assert_eq!(find(&rows, id), find(&reordered, id));
    }
}

#[test]
fn children_are_grouped_by_their_parents() {
    let children = vec![(2, "x"), (1, "a"), (7, "stray"), (2, "y"), (1, "b")];
    let groups = grouped_by(children, &[1, 2, 3]);
    assert_eq!(groups, [vec!["a", "b"], vec!["x", "y"], vec![]]);
}

#[test]
fn last_of_equal_parents_gets_the_children() {
    let children = vec![(1, 'a'), (2, 'x'), (1, 'b')];
    let groups = grouped_by(children, &[1, 2, 1]);
    assert_eq!(groups, [vec![], vec!['x'], vec!['a', 'b']]);
}

#[test]
fn grouping_keeps_the_children_of_the_parents() {
    let children = vec![(1, 0), (2, 1), (3, 2), (1, 3), (9, 4)];
    let parents = [3, 1, 3];
    let expected = children.iter().filter(|child| parents.contains(&child.0)).count();
    let total: usize = grouped_by(children, &parents).iter().map(Vec::len).sum();
    assert_eq!(total, expected);
    assert_eq!(total, 3);
}

#[test]
fn later_rows_replace_earlier_ones() {
    let map = collect_map(vec![(1, "old"), (2, "two"), (1, "new")]);
    assert_eq!(map.len(), 2);
    assert_eq!(map[&1], "new");
    assert_eq!(map[&2], "two");
}

#[test]
fn names_keep_the_order_of_the_rows() {
    let names = collect_names(vec![
        (4, "first".to_owned()),
        (2, "only".to_owned()),
        (4, "second".to_owned()),
    ]);
    assert_eq!(names.len(), 2);
    assert_eq!(*names[&4], ["first", "second"]);
    assert_eq!(*names[&2], ["only"]);
}

#[test]
fn keys_are_collected_once() {
    let set = key_set(&[3, 1, 3]);
    assert_eq!(set.len(), 2);
    assert!(set.contains(&3) && set.contains(&1));
}

#[test]
fn values_are_reversed() {
    assert_eq!(reversed(vec![1, 2, 3]), [3, 2, 1]);
    assert_eq!(reversed(Vec::<u8>::new()), []);
}

#[test]
fn scores_are_ratings() {
    assert_eq!(rating(Some(Score::Like)), Rating::Like);
    assert_eq!(rating(Some(Score::Dislike)), Rating::Dislike);
    assert_eq!(rating(None), Rating::Unrated);
    assert_eq!(Rating::from(Score::Like), Rating::Like);
    assert_eq!(Rating::default(), Rating::Unrated);
}
