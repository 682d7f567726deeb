//! What holds of every walk over tagged parameters: where a record lies in
//! its region, what a cut region still yields, how an overflow ends the
//! walk, and what a region of whole records collects to.

use crate::management::tag_name::{tag_name_of, TagName};
use crate::management::tagged_parameters::{
    behind_tag, collected, filed, overflow_in, overflow_of, tag_fits, tag_overflows, tag_value,
    tags_in,
};
use vstd::prelude::*;

verus! {

/// The bytes of one record: the tag number, the length of `value`, and
/// `value`.
pub open spec fn record(tag_number: u8, value: Seq<u8>) -> Seq<u8>
    recommends
        value.len() <= 255,
{
    seq![tag_number, value.len() as u8] + value
}

/// The bytes of the records `tags`, one behind the other.
pub open spec fn records(tags: Seq<(u8, Seq<u8>)>) -> Seq<u8>
    decreases tags.len(),
{
    if tags.len() == 0 {
        Seq::empty()
    } else {
        record(tags[0].0, tags[0].1) + records(tags.drop_first())
    }
}

/// Whether the value of each of `tags` is short enough for a length byte.
pub open spec fn values_fit(tags: Seq<(u8, Seq<u8>)>) -> bool {
    forall|i: int| 0 <= i < tags.len() ==> (#[trigger] tags[i]).1.len() <= 255
}

/// The records `tags` with each tag number resolved to its name.
pub open spec fn named(tags: Seq<(u8, Seq<u8>)>) -> Seq<(TagName, Seq<u8>)> {
    Seq::new(tags.len(), |i: int| (tag_name_of(tags[i].0), tags[i].1))
}

/// Whether a record of the name `name` is among `tags`.
pub open spec fn occurs(tags: Seq<(TagName, Seq<u8>)>, name: TagName) -> bool {
    exists|i: int| 0 <= i < tags.len() && (#[trigger] tags[i]).0 == name
}

/// Whether `tags[i]` is the last record of the name `name` among `tags`.
pub open spec fn is_last_occurrence(
    tags: Seq<(TagName, Seq<u8>)>,
    name: TagName,
    i: int,
) -> bool {
    &&& 0 <= i < tags.len()
    &&& tags[i].0 == name
    &&& forall|j: int| i < j < tags.len() ==> (#[trigger] tags[j]).0 != name
}

/// A record that fits lies within its region: the region is the record's
/// two header bytes, its value, and what lies behind it, and what lies
/// behind it is shorter than the region.
pub proof fn lemma_record_lies_within(s: Seq<u8>)
    requires
        tag_fits(s),
    ensures
        s == s.subrange(0, 2) + tag_value(s) + behind_tag(s),
        tag_value(s).len() == s[1],
        behind_tag(s).len() == s.len() - 2 - s[1],
{
    assert(s =~= s.subrange(0, 2) + tag_value(s) + behind_tag(s));
}

/// Wherever a region is cut, the walk over what is left reads nothing that
/// the walk over the whole region would not read: its records are the
/// first of the whole region's records.
pub proof fn lemma_cut_region_yields_a_prefix(s: Seq<u8>, n: int)
    requires
        0 <= n <= s.len(),
    ensures
        tags_in(s.take(n)).is_prefix_of(tags_in(s)),
    decreases s.len(),
{
    let cut = s.take(n);
    if tag_fits(cut) {
        assert(cut[1] == s[1]);
        assert(tag_fits(s));
        let m = n - 2 - s[1];
        assert(tag_value(cut) =~= tag_value(s));
        assert(behind_tag(cut) =~= behind_tag(s).take(m));
        lemma_cut_region_yields_a_prefix(behind_tag(s), m);
        let first = seq![(tag_name_of(s[0]), tag_value(s))];
        let short = tags_in(behind_tag(s).take(m));
        let long = tags_in(behind_tag(s));
        assert(tags_in(cut) == first + short);
        assert(tags_in(s) == first + long);
        assert((first + short).is_prefix_of(first + long)) by {
            assert(short =~= long.subrange(0, short.len() as int));
            assert((first + short) =~= (first + long).subrange(0, (first + short).len() as int));
        }
    } else {
        assert(tags_in(cut) =~= Seq::empty());
        assert(tags_in(cut) =~= tags_in(s).subrange(0, 0));
    }
}

/// A record that declares more value bytes than lie behind its header is
/// reported as one error: the walk hands out no record of that region,
/// ends in the error that carries the declared length and the bytes left
/// behind the header, and collecting gives that error. With the region
/// then empty, nothing follows.
pub proof fn lemma_overflow_ends_the_walk(s: Seq<u8>)
    requires
        s.len() >= 2,
        s.len() - 2 < s[1],
    ensures
        tag_overflows(s),
        tags_in(s) == Seq::<(TagName, Seq<u8>)>::empty(),
        overflow_in(s) == Some(overflow_of(s)),
        overflow_of(s).required_length == s[1],
        overflow_of(s).remaining_length == s.len() - 2,
        collected(s) == Err::<Map<TagName, Seq<u8>>, _>(overflow_of(s)),
        !tag_fits(Seq::<u8>::empty()) && !tag_overflows(Seq::<u8>::empty()),
{
}

/// A walk ends in an error at most at its end: the records before the
/// error are those of a walk without it, and an error there is exactly
/// where the region behind those records begins with an overflowing
/// record.
pub proof fn lemma_walk_unfolds(s: Seq<u8>)
    ensures
        tag_fits(s) ==> tags_in(s) == seq![(tag_name_of(s[0]), tag_value(s))] + tags_in(
            behind_tag(s),
        ) && overflow_in(s) == overflow_in(behind_tag(s)),
        !tag_fits(s) ==> tags_in(s) == Seq::<(TagName, Seq<u8>)>::empty(),
        !tag_fits(s) && !tag_overflows(s) ==> overflow_in(s) is None,
{
}

/// A region of whole records, one behind the other, is read back as
/// written: the walk hands out each record by its name and value, in
/// order, and ends without an error, so collecting gives the table of
/// those records.
pub proof fn lemma_whole_records_read_back(tags: Seq<(u8, Seq<u8>)>)
    requires
        values_fit(tags),
    ensures
        tags_in(records(tags)) == named(tags),
        overflow_in(records(tags)) is None,
        collected(records(tags)) == Ok::<_, crate::management::tagged_parameters::OverflowError>(
            filed(named(tags)),
        ),
    decreases tags.len(),
{
    let s = records(tags);
    if tags.len() == 0 {
        assert(tags_in(s) =~= named(tags));
    } else {
        let rest = tags.drop_first();
        let value = tags[0].1;
        assert(values_fit(rest)) by {
            assert forall|i: int| 0 <= i < rest.len() implies (#[trigger] rest[i]).1.len()
                <= 255 by {
                assert(rest[i] == tags[i + 1]);
            }
        }
        lemma_whole_records_read_back(rest);
        assert(s == record(tags[0].0, value) + records(rest));
        assert(s[0] == tags[0].0);
        assert(s[1] == value.len());
        assert(tag_fits(s));
        assert(tag_value(s) =~= value);
        assert(behind_tag(s) =~= records(rest));
        assert(tags_in(s) =~= named(tags)) by {
            assert forall|i: int| 0 <= i < rest.len() implies named(rest)[i] == named(tags)[i
                + 1] by {
                assert(rest[i] == tags[i + 1]);
            }
        }
    }
}

/// The table of `tags` holds a name exactly where a record of that name is
/// among them.
pub proof fn lemma_filed_names_occur(tags: Seq<(TagName, Seq<u8>)>, name: TagName)
    ensures
        filed(tags).contains_key(name) <==> occurs(tags, name),
    decreases tags.len(),
{
    if tags.len() > 0 {
        let front = tags.drop_last();
        lemma_filed_names_occur(front, name);
        if occurs(front, name) {
            let i = choose|i: int| 0 <= i < front.len() && (#[trigger] front[i]).0 == name;
            assert(tags[i] == front[i]);
        }
        if occurs(tags, name) {
            let i = choose|i: int| 0 <= i < tags.len() && (#[trigger] tags[i]).0 == name;
            if i < front.len() {
                assert(front[i] == tags[i]);
            }
        }
        if tags.last().0 == name {
            assert(tags[tags.len() - 1].0 == name);
        }
    }
}

/// On records of one name the last wins: the table of `tags` holds under
/// each name the value of the last record of that name.
pub proof fn lemma_last_occurrence_is_filed(tags: Seq<(TagName, Seq<u8>)>, name: TagName, i: int)
    requires
        is_last_occurrence(tags, name, i),
    ensures
        filed(tags).contains_key(name),
        filed(tags)[name] == tags[i].1,
    decreases tags.len(),
{
    let front = tags.drop_last();
    if i < tags.len() - 1 {
        assert(tags[tags.len() - 1].0 != name);
        assert(is_last_occurrence(front, name, i)) by {
            assert(front[i] == tags[i]);
            assert forall|j: int| i < j < front.len() implies (#[trigger] front[j]).0 != name by {
                assert(front[j] == tags[j]);
            }
        }
        lemma_last_occurrence_is_filed(front, name, i);
    }
}

} // verus!
