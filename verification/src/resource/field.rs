//! Selection of the fields that a response holds.

use crate::text::split;
use std::marker::PhantomData;
use vstd::prelude::*;
use vstd::string::StrSliceExecFns;

verus! {

/// The fields of one kind of resource: each has a position of its own in a [`Mask`] and a name
/// of its own in a request.
pub trait ResourceField: Copy {
    /// The bit that stands for the field in a mask.
    spec fn position(self) -> u64;

    /// The name by which a request selects the field.
    spec fn name(self) -> Seq<char>;

    fn index(self) -> (index: u64)
        ensures
            index == self.position(),
            index < 64,
    ;

    /// The field of the given name, if there is one.
    fn parse(name: &str) -> (field: Option<Self>)
        ensures
            match field {
                Some(found) => found.name() == name@,
                None => forall|other: Self| #[trigger] other.name() != name@,
            },
    ;

    /// Every field fits in a mask.
    proof fn law_position_fits(self)
        ensures
            self.position() < 64,
    ;

    /// No two fields share a bit.
    proof fn law_positions_differ(a: Self, b: Self)
        requires
            a.position() == b.position(),
        ensures
            a == b,
    ;

    /// No two fields share a name.
    proof fn law_names_differ(a: Self, b: Self)
        requires
            a.name() == b.name(),
        ensures
            a == b,
    ;
}

/// A piece of a field list that names no field.
#[derive(Debug)]
pub struct UnknownField {
    pub name: String,
}

/// A set of fields of one kind of resource.
pub struct Mask<F> {
    bits: u64,
    fields: PhantomData<F>,
}

impl<F> Clone for Mask<F> {
    fn clone(&self) -> (copy: Self)
        ensures
            copy == *self,
    {
        *self
    }
}

impl<F> Copy for Mask<F> {

}

/// Whether the bit at `index` is set.
pub open spec fn has_bit(bits: u64, index: u64) -> bool {
    (bits >> index) & 1 == 1
}

proof fn lemma_set_bit(bits: u64, set: u64, index: u64)
    by (bit_vector)
    requires
        set < 64,
        index < 64,
    ensures
        ((bits | (1u64 << set)) >> index) & 1 == 1 <==> (bits >> index) & 1 == 1 || set == index,
{
}

/// Some field has the given name.
pub open spec fn is_field_name<F: ResourceField>(name: Seq<char>) -> bool {
    exists|field: F| #[trigger] field.name() == name
}

/// `list` is a comma-separated list of names of fields.
pub open spec fn names_fields<F: ResourceField>(list: Seq<char>) -> bool {
    forall|i: int|
        0 <= i < split(list, ',').len() ==> is_field_name::<F>(#[trigger] split(list, ',')[i])
}

impl<F: ResourceField> Mask<F> {
    /// Whether the field is selected.
    pub closed spec fn contains(self, field: F) -> bool {
        has_bit(self.bits, field.position())
    }

    /// The mask that selects nothing.
    pub fn none() -> (mask: Self)
        ensures
            forall|field: F| !#[trigger] mask.contains(field),
    {
        proof {
            assert forall|field: F| !has_bit(0, #[trigger] field.position()) by {
                let index = field.position();
                assert((0u64 >> index) & 1 == 0) by (bit_vector);
            }
        }
        Mask { bits: 0, fields: PhantomData }
    }

    /// The mask that selects every field.
    pub fn all() -> (mask: Self)
        ensures
            forall|field: F| #[trigger] mask.contains(field),
    {
        proof {
            assert forall|field: F| has_bit(u64::MAX, #[trigger] field.position()) by {
                field.law_position_fits();
                let index = field.position();
                assert((u64::MAX >> index) & 1 == 1) by (bit_vector)
                    requires
                        index < 64,
                ;
            }
        }
        Mask { bits: u64::MAX, fields: PhantomData }
    }

    /// Whether the field is selected.
    pub fn has(&self, field: F) -> (selected: bool)
        ensures
            selected == self.contains(field),
    {
        let index = field.index();
        (self.bits >> index) & 1 == 1
    }

    /// This mask, with one more field selected.
    pub fn with(self, field: F) -> (mask: Self)
        ensures
            forall|other: F| #[trigger]
                mask.contains(other) <==> self.contains(other) || other == field,
    {
        let index = field.index();
        let mask = Mask { bits: self.bits | (1u64 << index), fields: PhantomData };
        proof {
            assert forall|other: F| #[trigger]
                mask.contains(other) <==> self.contains(other) || other == field by {
                other.law_position_fits();
                lemma_set_bit(self.bits, index, other.position());
                if other.position() == index {
                    F::law_positions_differ(other, field);
                }
            }
        }
        mask
    }

    /// The mask of the fields that a comma-separated list names, or the first piece of the list
    /// that names none.
    pub fn parse(list: &str) -> (parsed: Result<Self, UnknownField>)
        ensures
            match parsed {
                Ok(mask) => {
                    &&& names_fields::<F>(list@)
                    &&& forall|field: F| #[trigger]
                        mask.contains(field) <==> split(list@, ',').contains(field.name())
                },
                Err(unknown) => first_unknown::<F>(list@, unknown.name@),
            },
    {
        let length: usize = list.unicode_len();
        let mut mask = Self::none();
        let mut start: usize = 0;
        let mut end: usize = 0;
        proof {
            assert(list@.take(0) =~= Seq::empty());
            assert(list@.subrange(0, 0) =~= Seq::empty());
        }
        loop
            invariant
                length == list@.len(),
                start <= end <= length,
                split(list@.take(end as int), ',').len() > 0,
                split(list@.take(end as int), ',').last() == list@.subrange(
                    start as int,
                    end as int,
                ),
                forall|i: int|
                    0 <= i < split(list@.take(end as int), ',').len() - 1 ==> is_field_name::<F>(
                        #[trigger] split(list@.take(end as int), ',')[i],
                    ),
                forall|field: F| #[trigger]
                    mask.contains(field) <==> split(
                        list@.take(end as int),
                        ',',
                    ).drop_last().contains(field.name()),
            decreases length - end,
        {
            let ghost before = split(list@.take(end as int), ',');
            if end < length && list.get_char(end) != ',' {
                proof {
                    lemma_split_step(list@, end as int, ',');
                    assert(list@.subrange(start as int, end + 1) =~= list@.subrange(
                        start as int,
                        end as int,
                    ).push(list@[end as int]));
                    assert(split(list@.take(end + 1), ',').drop_last() =~= before.drop_last());
                }
                end = end + 1;
            } else {
                let piece = list.substring_char(start, end);
                match F::parse(piece) {
                    None => {
                        proof {
                            lemma_split_prefix(list@, end as int, ',');
                            let all = split(list@, ',');
                            let at = before.len() - 1;
                            assert(all[at] == piece@);
                        }
                        return Err(UnknownField { name: piece.to_owned() });
                    },
                    Some(field) => {
                        let ghost old_mask = mask;
                        mask = mask.with(field);
                        proof {
                            assert(is_field_name::<F>(piece@));
                            assert(before =~= before.drop_last().push(before.last()));
                            assert forall|other: F| #[trigger]
                                mask.contains(other) <==> before.contains(other.name()) by {
                                if other.name() == field.name() {
                                    F::law_names_differ(other, field);
                                    assert(before[before.len() - 1] == other.name());
                                }
                                if before.drop_last().contains(other.name()) {
                                    let i = before.drop_last().index_of(other.name());
                                    assert(before[i] == other.name());
                                }
                                if before.contains(other.name()) && other != field {
                                    let i = before.index_of(other.name());
                                    if i == before.len() - 1 {
                                        F::law_names_differ(other, field);
                                    }
                                    assert(before.drop_last()[i] == other.name());
                                }
                            }
                        }
                    },
                }
                if end == length {
                    proof {
                        assert(list@.take(end as int) =~= list@);
                    }
                    return Ok(mask);
                }
                proof {
                    lemma_split_step(list@, end as int, ',');
                    assert(split(list@.take(end + 1), ',').drop_last() =~= before);
                    assert(list@.subrange(end + 1, end + 1) =~= Seq::empty());
                }
                end = end + 1;
                start = end;
            }
        }
    }
}

/// `name` is the first piece of the comma-separated `list` that names no field.
pub open spec fn first_unknown<F: ResourceField>(list: Seq<char>, name: Seq<char>) -> bool {
    exists|at: int|
        {
            &&& 0 <= at < split(list, ',').len()
            &&& #[trigger] split(list, ',')[at] == name
            &&& !is_field_name::<F>(name)
            &&& forall|i: int| 0 <= i < at ==> is_field_name::<F>(#[trigger] split(list, ',')[i])
        }
}

/// How the pieces change when one more character is read.
proof fn lemma_split_step(text: Seq<char>, read: int, separator: char)
    requires
        0 <= read < text.len(),
    ensures
        split(text.take(read + 1), separator) == (if text[read] == separator {
            split(text.take(read), separator).push(Seq::empty())
        } else {
            let before = split(text.take(read), separator);
            before.drop_last().push(before.last().push(text[read]))
        }),
        split(text.take(read), separator).len() > 0,
{
    assert(text.take(read + 1).drop_last() =~= text.take(read));
    lemma_split_nonempty(text.take(read), separator);
}

proof fn lemma_split_nonempty(text: Seq<char>, separator: char)
    ensures
        split(text, separator).len() > 0,
    decreases text.len(),
{
    if text.len() > 0 {
        lemma_split_nonempty(text.drop_last(), separator);
    }
}

/// A piece that ends at a separator or at the end of the text is a piece of the whole text.
proof fn lemma_split_prefix(text: Seq<char>, read: int, separator: char)
    requires
        0 <= read <= text.len(),
        read == text.len() || text[read] == separator,
    ensures
        split(text.take(read), separator).len() <= split(text, separator).len(),
        forall|i: int|
            0 <= i < split(text.take(read), separator).len() ==> #[trigger] split(
                text,
                separator,
            )[i] == split(text.take(read), separator)[i],
{
    if read == text.len() {
        assert(text.take(read) =~= text);
    } else {
        lemma_split_step(text, read, separator);
        lemma_split_grows(text, read + 1, text.len() as int, separator);
        assert(text.take(text.len() as int) =~= text);
    }
}

/// All the pieces but the last are settled once they have been read.
proof fn lemma_split_grows(text: Seq<char>, from: int, to: int, separator: char)
    requires
        0 <= from <= to <= text.len(),
    ensures
        split(text.take(from), separator).len() <= split(text.take(to), separator).len(),
        forall|i: int|
            0 <= i < split(text.take(from), separator).len() - 1 ==> #[trigger] split(
                text.take(to),
                separator,
            )[i] == split(text.take(from), separator)[i],
    decreases to - from,
{
    if from < to {
        lemma_split_grows(text, from, to - 1, separator);
        lemma_split_step(text, to - 1, separator);
    }
}

} // verus!
