//! Tag resources.

use crate::model::{DateTime, Tag};
use crate::resource::field::{Mask, ResourceField};
use crate::resource::{
    can_order, children_of, collect_map, collect_names, collected, column_length, covers, find,
    group, grouped_by, has_id, has_rows, ids_of, key_set, keys, law_group_alone, lemma_group_member,
    lemma_lookup_children, lemma_lookup_collected, lookup, order_as, order_transformed_as, ordered,
    record, remaining, reversed, show, shown, single,
};
use crate::text::same_text;
use std::collections::HashSet;
use std::sync::Arc;
use vstd::prelude::*;
use vstd::std_specs::convert::FromSpecImpl;

verus! {

/// A tag resource stripped down to `names`, `category` and `usages` fields.
#[derive(Debug)]
pub struct MicroTag {
    /// A list of tag names (aliases). Tagging a post with any name will automatically assign the
    /// first name from this list.
    pub names: Arc<Vec<String>>,
    /// The name of the category the given tag belongs to.
    pub category: String,
    /// The number of posts the tag was used in.
    pub usages: i64,
}

/// What a micro tag resource shows.
pub struct MicroTagView {
    pub names: Seq<Seq<char>>,
    pub category: Seq<char>,
    pub usages: i64,
}

impl DeepView for MicroTag {
    type V = MicroTagView;

    open spec fn deep_view(&self) -> MicroTagView {
        MicroTagView {
            names: self.names.deep_view(),
            category: self.category@,
            usages: self.usages,
        }
    }
}

/// One tag in the list of tags of some resource.
#[derive(Clone, Copy, Debug)]
pub struct TagUse {
    pub tag_id: i64,
    pub category_id: i64,
    pub usages: i64,
}

/// The rows that were loaded for lists of tags: the tags by the resource whose list they are in,
/// the names by the tag, and the names of the categories by the category. Lists keep the order of
/// their rows, so the rows have to be loaded in the order in which a list is to be shown.
#[derive(Debug)]
pub struct MicroTagRows {
    /// To be loaded by the first names of the tags. Where the list is that of a post, the order of
    /// the categories comes first.
    pub tags: Vec<(i64, TagUse)>,
    /// To be loaded in the order of the names of a tag, so that its first name comes first.
    pub names: Vec<(i64, String)>,
    /// In any order.
    pub categories: Vec<(i64, String)>,
}

/// `tag` is the micro resource of the tag that the row describes.
pub open spec fn is_micro_tag(rows: &MicroTagRows, row: TagUse, tag: MicroTag) -> bool {
    &&& tag.names@ == children_of(rows.names@, row.tag_id)
    &&& tag.category == collected(rows.categories@)[row.category_id]
    &&& tag.usages == row.usages
}

/// `tags` are the micro resources of the tags of the resource at position `at`.
pub open spec fn is_tag_list(
    rows: &MicroTagRows,
    ids: Seq<i64>,
    at: int,
    tags: Seq<MicroTag>,
) -> bool {
    let listed = group(rows.tags@, ids, at);
    &&& tags.len() == listed.len()
    &&& forall|k: int| 0 <= k < tags.len() ==> is_micro_tag(rows, listed[k], #[trigger] tags[k])
}

/// Two loads of rows tell the same of the list of tags of one resource.
pub open spec fn same_tag_list(rows: &MicroTagRows, other: &MicroTagRows, id: i64) -> bool {
    let listed = children_of(rows.tags@, id);
    &&& children_of(other.tags@, id) == listed
    &&& forall|k: int|
        0 <= k < listed.len() ==> {
            &&& children_of(rows.names@, (#[trigger] listed[k]).tag_id) == children_of(
                other.names@,
                listed[k].tag_id,
            )
            &&& collected(rows.categories@)[listed[k].category_id] == collected(
                other.categories@,
            )[listed[k].category_id]
        }
}

/// One list of rows makes one list of micro tag resources.
pub proof fn lemma_tag_list_once(
    rows: &MicroTagRows,
    other_rows: &MicroTagRows,
    id: i64,
    tags: Vec<MicroTag>,
    other: Vec<MicroTag>,
)
    requires
        same_tag_list(rows, other_rows, id),
        is_tag_list(rows, seq![id], 0, tags@),
        is_tag_list(other_rows, seq![id], 0, other@),
    ensures
        tags.deep_view() == other.deep_view(),
{
    law_group_alone(rows.tags@, seq![id], 0);
    law_group_alone(other_rows.tags@, seq![id], 0);
    let listed = children_of(rows.tags@, id);
    assert forall|k: int| 0 <= k < tags@.len() implies (#[trigger] tags@[k]).deep_view()
        == other@[k].deep_view() by {
        assert(is_micro_tag(rows, listed[k], tags@[k]));
        assert(is_micro_tag(other_rows, listed[k], other@[k]));
        assert(tags@[k].names.deep_view() =~= other@[k].names.deep_view());
    }
    assert(tags.deep_view() =~= other.deep_view());
}

impl MicroTagRows {
    /// Each tag in the list of one of the resources has a name and a category.
    pub open spec fn complete(&self, ids: Seq<i64>) -> bool {
        forall|k: int|
            0 <= k < self.tags@.len() && ids.contains((#[trigger] self.tags@[k]).0) ==> {
                &&& lookup(self.names@, self.tags@[k].1.tag_id) is Some
                &&& lookup(self.categories@, self.tags@[k].1.category_id) is Some
            }
    }

    /// Whether each tag in the list of one of the resources has a name and a category.
    pub fn is_complete(&self, ids: &[i64]) -> (complete: bool)
        ensures
            complete == self.complete(ids@),
    {
        for at in 0..self.tags.len()
            invariant
                forall|k: int|
                    0 <= k < at && ids@.contains((#[trigger] self.tags@[k]).0) ==> {
                        &&& lookup(self.names@, self.tags@[k].1.tag_id) is Some
                        &&& lookup(self.categories@, self.tags@[k].1.category_id) is Some
                    },
        {
            let tag: TagUse = self.tags[at].1;
            if has_id(ids, self.tags[at].0) && (find(&self.names, tag.tag_id).is_none() || find(
                &self.categories,
                tag.category_id,
            ).is_none()) {
                assert(ids@.contains(self.tags@[at as int].0));
                return false;
            }
        }
        true
    }

    /// The tags whose names have to be loaded.
    pub fn tag_ids(&self) -> (ids: HashSet<i64>)
        ensures
            ids@ == self.tags@.map_values(|tag: (i64, TagUse)| tag.1.tag_id).to_set(),
    {
        let mut ids: Vec<i64> = Vec::new();
        for at in 0..self.tags.len()
            invariant
                ids@ == self.tags@.take(at as int).map_values(|tag: (i64, TagUse)| tag.1.tag_id),
        {
            ids.push(self.tags[at].1.tag_id);
            assert(self.tags@.take(at + 1) =~= self.tags@.take(at as int).push(
                self.tags@[at as int],
            ));
            assert(ids@ =~= self.tags@.take(at + 1).map_values(
                |tag: (i64, TagUse)| tag.1.tag_id,
            ));
        }
        assert(self.tags@.take(self.tags@.len() as int) =~= self.tags@);
        key_set(ids.as_slice())
    }
}

/// The list of tags of each of the resources, in their order.
pub fn get_micro_tags(ids: &[i64], rows: MicroTagRows) -> (lists: Vec<Vec<MicroTag>>)
    requires
        rows.complete(ids@),
    ensures
        lists@.len() == ids@.len(),
        forall|i: int|
            0 <= i < ids@.len() ==> is_tag_list(&rows, ids@, i, (#[trigger] lists@[i])@),
{
    let ghost loaded = rows;
    let names = collect_names(rows.names);
    let categories = collect_map(rows.categories);
    let groups = grouped_by(rows.tags, ids);
    let mut lists: Vec<Vec<MicroTag>> = Vec::new();
    for at in 0..ids.len()
        invariant
            loaded.complete(ids@),
            groups@.len() == ids@.len(),
            forall|i: int|
                0 <= i < ids@.len() ==> (#[trigger] groups@[i])@ == group(loaded.tags@, ids@, i),
            forall|id: i64| #[trigger]
                names@.contains_key(id) <==> children_of(loaded.names@, id).len() > 0,
            forall|id: i64| #[trigger]
                names@.contains_key(id) ==> names@[id]@ == children_of(loaded.names@, id),
            categories@ == collected(loaded.categories@),
            lists@.len() == at,
            forall|i: int|
                0 <= i < at ==> is_tag_list(&loaded, ids@, i, (#[trigger] lists@[i])@),
    {
        let ghost listed = group(loaded.tags@, ids@, at as int);
        let mut list: Vec<MicroTag> = Vec::new();
        let length: usize = groups[at].len();
        for k in 0..length
            invariant
                at < ids@.len(),
                loaded.complete(ids@),
                groups@.len() == ids@.len(),
                groups@[at as int]@ == listed,
                listed == group(loaded.tags@, ids@, at as int),
                length == listed.len(),
                forall|id: i64| #[trigger]
                    names@.contains_key(id) <==> children_of(loaded.names@, id).len() > 0,
                forall|id: i64| #[trigger]
                    names@.contains_key(id) ==> names@[id]@ == children_of(loaded.names@, id),
                categories@ == collected(loaded.categories@),
                list@.len() == k,
                forall|j: int| 0 <= j < k ==> is_micro_tag(&loaded, listed[j], #[trigger] list@[j]),
        {
            let tag: TagUse = groups[at][k];
            proof {
                let row = lemma_group_member(loaded.tags@, ids@, at as int, k as int);
                assert(ids@.contains(loaded.tags@[row].0));
                lemma_lookup_children(loaded.names@, tag.tag_id);
                lemma_lookup_collected(loaded.categories@, tag.category_id);
            }
            if let (Some(tag_names), Some(category)) = (
                names.get(&tag.tag_id),
                categories.get(&tag.category_id),
            ) {
                list.push(
                    MicroTag {
                        names: Arc::clone(tag_names),
                        category: category.clone(),
                        usages: tag.usages,
                    },
                );
            }
        }
        lists.push(list);
    }
    lists
}

/// The fields of a tag resource.
#[derive(Clone, Copy, Debug, PartialEq, Eq, Structural)]
pub enum Field {
    Version,
    Description,
    CreationTime,
    LastEditTime,
    Category,
    Names,
    Implications,
    Suggestions,
    Usages,
}

impl Field {
    /// The number of the field, in the order of their declaration.
    pub open spec fn number(self) -> u64 {
        match self {
            Field::Version => 0,
            Field::Description => 1,
            Field::CreationTime => 2,
            Field::LastEditTime => 3,
            Field::Category => 4,
            Field::Names => 5,
            Field::Implications => 6,
            Field::Suggestions => 7,
            Field::Usages => 8,
        }
    }

    /// The number of the field, in the order of their declaration.
    pub fn to_number(self) -> (number: u64)
        ensures
            number == self.number(),
    {
        match self {
            Field::Version => 0,
            Field::Description => 1,
            Field::CreationTime => 2,
            Field::LastEditTime => 3,
            Field::Category => 4,
            Field::Names => 5,
            Field::Implications => 6,
            Field::Suggestions => 7,
            Field::Usages => 8,
        }
    }
}

impl ResourceField for Field {
    open spec fn position(self) -> u64 {
        self.number()
    }

    open spec fn name(self) -> Seq<char> {
        match self {
            Field::Version => "version"@,
            Field::Description => "description"@,
            Field::CreationTime => "creationTime"@,
            Field::LastEditTime => "lastEditTime"@,
            Field::Category => "category"@,
            Field::Names => "names"@,
            Field::Implications => "implications"@,
            Field::Suggestions => "suggestions"@,
            Field::Usages => "usages"@,
        }
    }

    fn index(self) -> (index: u64) {
        self.to_number()
    }

    fn parse(name: &str) -> (field: Option<Self>) {
        if same_text(name, "version") {
            Some(Field::Version)
        } else if same_text(name, "description") {
            Some(Field::Description)
        } else if same_text(name, "creationTime") {
            Some(Field::CreationTime)
        } else if same_text(name, "lastEditTime") {
            Some(Field::LastEditTime)
        } else if same_text(name, "category") {
            Some(Field::Category)
        } else if same_text(name, "names") {
            Some(Field::Names)
        } else if same_text(name, "implications") {
            Some(Field::Implications)
        } else if same_text(name, "suggestions") {
            Some(Field::Suggestions)
        } else if same_text(name, "usages") {
            Some(Field::Usages)
        } else {
            None
        }
    }

    proof fn law_position_fits(self) {
    }

    proof fn law_positions_differ(a: Self, b: Self) {
    }

    proof fn law_names_differ(a: Self, b: Self) {
        reveal_strlit("version");
        reveal_strlit("description");
        reveal_strlit("creationTime");
        reveal_strlit("lastEditTime");
        reveal_strlit("category");
        reveal_strlit("names");
        reveal_strlit("implications");
        reveal_strlit("suggestions");
        reveal_strlit("usages");
        assert("version"@.len() == 7 && "version"@[0] == 'v');
        assert("description"@.len() == 11 && "description"@[0] == 'd');
        assert("creationTime"@.len() == 12 && "creationTime"@[0] == 'c');
        assert("lastEditTime"@.len() == 12 && "lastEditTime"@[0] == 'l');
        assert("category"@.len() == 8 && "category"@[0] == 'c');
        assert("names"@.len() == 5 && "names"@[0] == 'n');
        assert("implications"@.len() == 12 && "implications"@[0] == 'i');
        assert("suggestions"@.len() == 11 && "suggestions"@[0] == 's');
        assert("usages"@.len() == 6 && "usages"@[0] == 'u');
    }
}

impl From<Field> for u64 {
    fn from(field: Field) -> (index: u64) {
        field.to_number()
    }
}

impl FromSpecImpl<Field> for u64 {
    open spec fn obeys_from_spec() -> bool {
        true
    }

    open spec fn from_spec(field: Field) -> u64 {
        field.number()
    }
}

/// A single tag. Tags are used to let users search for posts.
#[derive(Debug)]
pub struct TagInfo {
    /// Resource version.
    pub version: Option<DateTime>,
    /// The tag description (instructions how to use, history etc.). The client should render is
    /// as Markdown.
    pub description: Option<String>,
    /// Time the tag was created.
    pub creation_time: Option<DateTime>,
    /// Time the tag was last edited.
    pub last_edit_time: Option<DateTime>,
    /// The name of the category the given tag belongs to.
    pub category: Option<String>,
    /// A list of tag names (aliases). Tagging a post with any name will automatically assign the
    /// first name from this list.
    pub names: Option<Vec<String>>,
    /// A list of implied tags. Implied tags are automatically appended by the web client on usage.
    pub implications: Option<Vec<MicroTag>>,
    /// A list of suggested tags. Suggested tags are shown to the user by the web client on usage.
    pub suggestions: Option<Vec<MicroTag>>,
    /// The number of posts the tag was used in.
    pub usages: Option<i64>,
}

/// The rows that were loaded for a batch of tags: the names of the categories by the category,
/// and the others by the tag. Only those for selected fields are looked at. The names keep the
/// order of their rows; where nothing is said, rows may be loaded in any order.
#[derive(Debug)]
pub struct TagRows {
    pub categories: Vec<(i64, String)>,
    /// To be loaded in the order of the names of a tag, so that its first name comes first.
    pub names: Vec<(i64, String)>,
    pub implications: MicroTagRows,
    pub suggestions: MicroTagRows,
    pub usages: Vec<(i64, i64)>,
}

/// The categories of the tags, in the order of the tags.
pub open spec fn category_ids(tags: Seq<Tag>) -> Seq<i64> {
    tags.map_values(|tag: Tag| tag.category_id)
}

/// The categories of the tags, in the order of the tags.
pub fn category_ids_of(tags: &[Tag]) -> (ids: Vec<i64>)
    ensures
        ids@ == category_ids(tags@),
{
    let mut ids: Vec<i64> = Vec::new();
    for at in 0..tags.len()
        invariant
            ids@ == category_ids(tags@.take(at as int)),
    {
        ids.push(tags[at].category_id);
        assert(ids@ =~= category_ids(tags@.take(at + 1)));
    }
    assert(tags@.take(tags@.len() as int) =~= tags@);
    ids
}

impl TagRows {
    /// Each tag has the rows that the selected fields call for.
    pub open spec fn complete(
        &self,
        ids: Seq<i64>,
        category_ids: Seq<i64>,
        fields: Mask<Field>,
    ) -> bool {
        &&& fields.contains(Field::Category) ==> covers(self.categories@, category_ids)
        &&& fields.contains(Field::Implications) ==> self.implications.complete(ids)
        &&& fields.contains(Field::Suggestions) ==> self.suggestions.complete(ids)
        &&& fields.contains(Field::Usages) ==> covers(self.usages@, ids)
    }

    /// Whether each tag has the rows that the selected fields call for.
    pub fn is_complete(&self, ids: &[i64], category_ids: &[i64], fields: Mask<Field>) -> (complete:
        bool)
        ensures
            complete == self.complete(ids@, category_ids@, fields),
    {
        (!fields.has(Field::Category) || has_rows(&self.categories, category_ids)) && (!fields.has(
            Field::Implications,
        ) || self.implications.is_complete(ids)) && (!fields.has(Field::Suggestions)
            || self.suggestions.is_complete(ids)) && (!fields.has(Field::Usages) || has_rows(
            &self.usages,
            ids,
        ))
    }
}

/// The name of the category of each of the tags, in their order.
pub fn get_categories(category_ids: &[i64], rows: Vec<(i64, String)>) -> (names: Vec<String>)
    requires
        covers(rows@, category_ids@),
    ensures
        names@.len() == category_ids@.len(),
        forall|i: int|
            0 <= i < category_ids@.len() ==> #[trigger] names@[i]
                == collected(rows@)[category_ids@[i]],
{
    let ghost loaded = rows@;
    let categories = collect_map(rows);
    let mut names: Vec<String> = Vec::new();
    for at in 0..category_ids.len()
        invariant
            covers(loaded, category_ids@),
            categories@ == collected(loaded),
            names@.len() == at,
            forall|i: int|
                0 <= i < at ==> #[trigger] names@[i] == collected(loaded)[category_ids@[i]],
    {
        let id = category_ids[at];
        proof {
            assert(lookup(loaded, category_ids@[at as int]) is Some);
            lemma_lookup_collected(loaded, id);
        }
        if let Some(name) = categories.get(&id) {
            names.push(name.clone());
        }
    }
    names
}

/// `info` is the resource of the tag at position `at`: the selected fields, and no others.
pub open spec fn is_tag_info(
    tags: Seq<Tag>,
    at: int,
    fields: Mask<Field>,
    rows: &TagRows,
    info: TagInfo,
) -> bool {
    let tag = tags[at];
    &&& info.version == shown(fields.contains(Field::Version), tag.last_edit_time)
    &&& info.description == shown(fields.contains(Field::Description), tag.description)
    &&& info.creation_time == shown(fields.contains(Field::CreationTime), tag.creation_time)
    &&& info.last_edit_time == shown(fields.contains(Field::LastEditTime), tag.last_edit_time)
    &&& info.category == shown(
        fields.contains(Field::Category),
        collected(rows.categories@)[tag.category_id],
    )
    &&& info.names is Some <==> fields.contains(Field::Names)
    &&& info.names matches Some(names) ==> names@ == group(rows.names@, keys(tags), at)
    &&& info.implications is Some <==> fields.contains(Field::Implications)
    &&& info.implications matches Some(implications) ==> is_tag_list(
        &rows.implications,
        keys(tags),
        at,
        implications@,
    )
    &&& info.suggestions is Some <==> fields.contains(Field::Suggestions)
    &&& info.suggestions matches Some(suggestions) ==> is_tag_list(
        &rows.suggestions,
        keys(tags),
        at,
        suggestions@,
    )
    &&& info.usages == shown(fields.contains(Field::Usages), lookup(rows.usages@, tag.id)->0)
}

impl TagInfo {
    /// The resource of one tag.
    pub fn new(tag: Tag, fields: Mask<Field>, rows: TagRows) -> (info: TagInfo)
        requires
            rows.complete(seq![tag.id], seq![tag.category_id], fields),
        ensures
            is_tag_info(seq![tag], 0, fields, &rows, info),
    {
        let tags: Vec<Tag> = vec![tag];
        assert(tags@ =~= seq![tag]);
        assert(keys(tags@) =~= seq![tag.id]);
        assert(category_ids(tags@) =~= seq![tag.category_id]);
        single(TagInfo::new_batch(tags, fields, rows))
    }

    /// The resource of the tag with the given id.
    pub fn new_from_id(
        tag_id: i64,
        unordered_tags: Vec<Tag>,
        fields: Mask<Field>,
        rows: TagRows,
    ) -> (info: TagInfo)
        requires
            record(unordered_tags@, tag_id) is Some,
            rows.complete(
                seq![tag_id],
                seq![record(unordered_tags@, tag_id)->0.category_id],
                fields,
            ),
        ensures
            is_tag_info(seq![record(unordered_tags@, tag_id)->0], 0, fields, &rows, info),
    {
        let tag_ids: Vec<i64> = vec![tag_id];
        assert(tag_ids@ =~= seq![tag_id]);
        assert(ordered(unordered_tags@, tag_ids@) =~= seq![
            record(unordered_tags@, tag_id)->0,
        ]);
        assert(category_ids(ordered(unordered_tags@, tag_ids@)) =~= seq![
            record(unordered_tags@, tag_id)->0.category_id,
        ]);
        single(
            TagInfo::new_batch_from_ids(tag_ids.as_slice(), unordered_tags, fields, rows),
        )
    }

    /// The resources of a batch of tags, in their order.
    pub fn new_batch(tags: Vec<Tag>, fields: Mask<Field>, rows: TagRows) -> (infos: Vec<TagInfo>)
        requires
            rows.complete(keys(tags@), category_ids(tags@), fields),
        ensures
            infos@.len() == tags@.len(),
            forall|i: int|
                0 <= i < tags@.len() ==> is_tag_info(
                    tags@,
                    i,
                    fields,
                    &rows,
                    #[trigger] infos@[i],
                ),
    {
        let ghost loaded = rows;
        let ids = ids_of(tags.as_slice());
        let category_ids = category_ids_of(tags.as_slice());
        let mut categories: Vec<String> = if fields.has(Field::Category) {
            get_categories(category_ids.as_slice(), rows.categories)
        } else {
            Vec::new()
        };
        let mut names: Vec<Vec<String>> = if fields.has(Field::Names) {
            grouped_by(rows.names, ids.as_slice())
        } else {
            Vec::new()
        };
        let mut implications: Vec<Vec<MicroTag>> = if fields.has(Field::Implications) {
            get_micro_tags(ids.as_slice(), rows.implications)
        } else {
            Vec::new()
        };
        let mut suggestions: Vec<Vec<MicroTag>> = if fields.has(Field::Suggestions) {
            get_micro_tags(ids.as_slice(), rows.suggestions)
        } else {
            Vec::new()
        };
        let mut usages: Vec<i64> = if fields.has(Field::Usages) {
            order_transformed_as(&rows.usages, ids.as_slice())
        } else {
            Vec::new()
        };

        let ghost given = tags@;
        let ghost all_categories = categories@;
        let ghost all_names = names@;
        let ghost all_implications = implications@;
        let ghost all_suggestions = suggestions@;
        let ghost all_usages = usages@;
        let mut tags = tags;
        let mut infos: Vec<TagInfo> = Vec::new();
        while tags.len() > 0
            invariant
                tags@.len() + infos@.len() == given.len(),
                tags@ == given.take(tags@.len() as int),
                ids@ == keys(given),
                categories@ == remaining(all_categories, tags@.len() as int),
                names@ == remaining(all_names, tags@.len() as int),
                implications@ == remaining(all_implications, tags@.len() as int),
                suggestions@ == remaining(all_suggestions, tags@.len() as int),
                usages@ == remaining(all_usages, tags@.len() as int),
                all_categories.len() == column_length(
                    fields.contains(Field::Category),
                    given.len(),
                ),
                all_names.len() == column_length(fields.contains(Field::Names), given.len()),
                all_implications.len() == column_length(
                    fields.contains(Field::Implications),
                    given.len(),
                ),
                all_suggestions.len() == column_length(
                    fields.contains(Field::Suggestions),
                    given.len(),
                ),
                all_usages.len() == column_length(fields.contains(Field::Usages), given.len()),
                forall|i: int|
                    0 <= i < all_categories.len() ==> #[trigger] all_categories[i] == collected(
                        loaded.categories@,
                    )[given[i].category_id],
                forall|i: int|
                    0 <= i < all_names.len() ==> (#[trigger] all_names[i])@ == group(
                        loaded.names@,
                        ids@,
                        i,
                    ),
                forall|i: int|
                    0 <= i < all_implications.len() ==> is_tag_list(
                        &loaded.implications,
                        ids@,
                        i,
                        (#[trigger] all_implications[i])@,
                    ),
                forall|i: int|
                    0 <= i < all_suggestions.len() ==> is_tag_list(
                        &loaded.suggestions,
                        ids@,
                        i,
                        (#[trigger] all_suggestions[i])@,
                    ),
                forall|i: int|
                    0 <= i < all_usages.len() ==> Some(#[trigger] all_usages[i]) == lookup(
                        loaded.usages@,
                        ids@[i],
                    ),
                forall|k: int|
                    0 <= k < infos@.len() ==> is_tag_info(
                        given,
                        given.len() - 1 - k,
                        fields,
                        &loaded,
                        #[trigger] infos@[k],
                    ),
            decreases tags@.len(),
        {
            let ghost last = tags@.len() - 1;
            if let Some(tag) = tags.pop() {
                let info = TagInfo {
                    version: show(fields.has(Field::Version), tag.last_edit_time),
                    description: show(fields.has(Field::Description), tag.description),
                    creation_time: show(fields.has(Field::CreationTime), tag.creation_time),
                    last_edit_time: show(fields.has(Field::LastEditTime), tag.last_edit_time),
                    category: categories.pop(),
                    names: names.pop(),
                    implications: implications.pop(),
                    suggestions: suggestions.pop(),
                    usages: usages.pop(),
                };
                assert(ids@[last] == given[last].id);
                infos.push(info);
            }
        }
        reversed(infos)
    }

    /// The resources of the tags with the given ids, in the order of the ids.
    pub fn new_batch_from_ids(
        tag_ids: &[i64],
        unordered_tags: Vec<Tag>,
        fields: Mask<Field>,
        rows: TagRows,
    ) -> (infos: Vec<TagInfo>)
        requires
            can_order(unordered_tags@, tag_ids@),
            rows.complete(
                tag_ids@,
                category_ids(ordered(unordered_tags@, tag_ids@)),
                fields,
            ),
        ensures
            infos@.len() == tag_ids@.len(),
            forall|i: int|
                0 <= i < tag_ids@.len() ==> is_tag_info(
                    ordered(unordered_tags@, tag_ids@),
                    i,
                    fields,
                    &rows,
                    #[trigger] infos@[i],
                ),
    {
        let tags = order_as(unordered_tags, tag_ids);
        TagInfo::new_batch(tags, fields, rows)
    }
}

/// What a tag is shown as does not depend on the batch it is in: it is the same in any batch of
/// different tags as it is alone.
pub proof fn law_tag_is_same_in_any_batch(
    tags: Seq<Tag>,
    at: int,
    fields: Mask<Field>,
    rows: &TagRows,
    info: TagInfo,
)
    requires
        0 <= at < tags.len(),
        keys(tags).no_duplicates(),
    ensures
        is_tag_info(tags, at, fields, rows, info) <==> is_tag_info(
            seq![tags[at]],
            0,
            fields,
            rows,
            info,
        ),
{
    let alone = seq![tags[at]];
    assert(keys(alone) =~= seq![keys(tags)[at]]);
    law_group_alone(rows.names@, keys(tags), at);
    law_group_alone(rows.implications.tags@, keys(tags), at);
    law_group_alone(rows.suggestions.tags@, keys(tags), at);
}

} // verus!
