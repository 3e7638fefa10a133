//! From a point of this library to the builder of the database client.
//!
//! The client's builder keeps tags and fields in ordered maps, so that
//! setting a name twice keeps the later value. The integer fields, the tags,
//! the measurement and the timestamp of a point are set here; a field that is
//! carried as a bit pattern is left to the caller, who turns it back into a
//! number and sets it before building.

use vstd::prelude::*;
use influxdb2::models::data_point::DataPointBuilder;
use influxdb2::models::DataPoint;
use crate::point::{FieldValue, OutputPoint};
use crate::tags::{distinct_keys, has_key, lookup, position};

verus! {

/// `influxdb2::models::data_point::DataPointBuilder`, whose inside only the
/// client sees: a measurement, tags by key, fields by name and an optional
/// timestamp.
#[verifier::external_type_specification]
#[verifier::external_body]
pub struct ExDataPointBuilder(influxdb2::models::data_point::DataPointBuilder);

/// The measurement that a builder was made for.
pub uninterp spec fn builder_measurement(b: DataPointBuilder) -> Seq<char>;

/// The tags that a builder holds, by key.
pub uninterp spec fn builder_tags(b: DataPointBuilder) -> Map<Seq<char>, Seq<char>>;

/// The fields of a builder that hold a 64-bit integer, by name.
pub uninterp spec fn builder_integers(b: DataPointBuilder) -> Map<Seq<char>, i64>;

/// The timestamp of a builder, if one was set.
pub uninterp spec fn builder_timestamp(b: DataPointBuilder) -> Option<i64>;

/// `DataPoint::builder`: a builder for the given measurement, with no tag,
/// no field and no timestamp.
#[verifier::external_body]
fn new_builder(measurement: &str) -> (b: DataPointBuilder)
    ensures
        builder_measurement(b) == measurement@,
        builder_tags(b) == tag_map(Seq::empty()),
        builder_integers(b) == integer_map(Seq::empty()),
        builder_timestamp(b) == None::<i64>,
{
    DataPoint::builder(measurement)
}

/// `DataPointBuilder::tag`: sets a tag, in place of any tag of the same key,
/// and leaves the rest of the builder as it was.
#[verifier::external_body]
fn with_tag(b: DataPointBuilder, key: &str, value: &str) -> (out: DataPointBuilder)
    ensures
        builder_tags(out) == builder_tags(b).insert(key@, value@),
        builder_measurement(out) == builder_measurement(b),
        builder_integers(out) == builder_integers(b),
        builder_timestamp(out) == builder_timestamp(b),
{
    b.tag(key, value)
}

/// `DataPointBuilder::field` with a 64-bit integer: sets a field, in place of
/// any field of the same name, and leaves the rest of the builder as it was.
#[verifier::external_body]
fn with_integer(b: DataPointBuilder, name: &str, value: i64) -> (out: DataPointBuilder)
    ensures
        builder_integers(out) == builder_integers(b).insert(name@, value),
        builder_measurement(out) == builder_measurement(b),
        builder_tags(out) == builder_tags(b),
        builder_timestamp(out) == builder_timestamp(b),
{
    b.field(name, value)
}

/// `DataPointBuilder::timestamp`: sets the timestamp and leaves the rest of
/// the builder as it was.
#[verifier::external_body]
fn with_timestamp(b: DataPointBuilder, value: i64) -> (out: DataPointBuilder)
    ensures
        builder_timestamp(out) == Some(value),
        builder_measurement(out) == builder_measurement(b),
        builder_tags(out) == builder_tags(b),
        builder_integers(out) == builder_integers(b),
{
    b.timestamp(value)
}

/// The map that a list of tags makes when each is set in turn.
pub open spec fn tag_map(tags: Seq<(Seq<char>, Seq<char>)>) -> Map<Seq<char>, Seq<char>>
    decreases tags.len(),
{
    if tags.len() == 0 {
        Map::empty()
    } else {
        tag_map(tags.drop_last()).insert(tags.last().0, tags.last().1)
    }
}

/// The map that the integer fields of a list make when each is set in turn.
pub open spec fn integer_map(fields: Seq<(Seq<char>, FieldValue)>) -> Map<Seq<char>, i64>
    decreases fields.len(),
{
    if fields.len() == 0 {
        Map::empty()
    } else {
        match fields.last().1 {
            FieldValue::Integer(v) => integer_map(fields.drop_last()).insert(fields.last().0, v),
            FieldValue::DoubleBits(_) => integer_map(fields.drop_last()),
        }
    }
}

/// The map of a tag list without duplicate keys has exactly the keys of the
/// list, each with the value that the list gives it.
pub proof fn lemma_tag_map_lookup(tags: Seq<(Seq<char>, Seq<char>)>, k: Seq<char>)
    requires
        distinct_keys(tags),
    ensures
        tag_map(tags).contains_key(k) <==> has_key(tags, k),
        has_key(tags, k) ==> lookup(tags, k) == Some(tag_map(tags)[k]),
    decreases tags.len(),
{
    if tags.len() > 0 {
        let front = tags.drop_last();
        let last = tags.last();
        let n = tags.len() - 1;
        assert forall|i: int, j: int| 0 <= i < j < front.len() implies (#[trigger] front[i]).0 != (
        #[trigger] front[j]).0 by {
            assert(front[i] == tags[i]);
            assert(front[j] == tags[j]);
        }
        lemma_tag_map_lookup(front, k);
        assert(tags[n] == last);
        if has_key(front, k) {
            let i = position(front, k);
            assert(tags[i] == front[i]);
        }
        if has_key(tags, k) {
            let p = position(tags, k);
            if k == last.0 {
                assert(p == n) by {
                    if p != n {
                        assert(tags[p].0 == tags[n].0);
                    }
                }
            } else {
                assert(front[p] == tags[p]);
                let i = position(front, k);
                assert(tags[i] == front[i]);
                assert(p == i) by {
                    if p != i {
                        assert(tags[p].0 == tags[i].0);
                    }
                }
            }
        }
    }
}

/// A builder of the database client with the measurement, the tags, the
/// integer fields and the timestamp of `point`.
pub fn point_builder(point: &OutputPoint) -> (b: DataPointBuilder)
    ensures
        builder_measurement(b) == point@.measurement,
        builder_tags(b) == tag_map(point@.tags),
        builder_integers(b) == integer_map(point@.fields),
        builder_timestamp(b) == Some(point@.timestamp),
{
    let mut b = new_builder(point.measurement.as_str());
    b = with_timestamp(b, point.timestamp);
    let ghost fields = point@.fields;
    let ghost tags = point@.tags;
    let mut i: usize = 0;
    while i < point.fields.len()
        invariant
            i <= point.fields.len(),
            fields == point@.fields,
            builder_measurement(b) == point@.measurement,
            builder_timestamp(b) == Some(point@.timestamp),
            builder_tags(b) == tag_map(Seq::empty()),
            builder_integers(b) == integer_map(fields.take(i as int)),
        decreases point.fields.len() - i,
    {
        proof {
            let next = fields.take(i + 1);
            assert(next.drop_last() =~= fields.take(i as int));
            assert(next.last() == point.fields@[i as int]@);
        }
        match point.fields[i].value {
            FieldValue::Integer(v) => {
                b = with_integer(b, point.fields[i].name.as_str(), v);
            },
            FieldValue::DoubleBits(_) => {},
        }
        i += 1;
    }
    assert(fields.take(point.fields.len() as int) =~= fields);
    let mut j: usize = 0;
    while j < point.tags.len()
        invariant
            j <= point.tags.len(),
            tags == point@.tags,
            builder_measurement(b) == point@.measurement,
            builder_timestamp(b) == Some(point@.timestamp),
            builder_integers(b) == integer_map(point@.fields),
            builder_tags(b) == tag_map(tags.take(j as int)),
        decreases point.tags.len() - j,
    {
        proof {
            let next = tags.take(j + 1);
            assert(next.drop_last() =~= tags.take(j as int));
            assert(next.last() == point.tags@[j as int]@);
        }
        b = with_tag(b, point.tags[j].key.as_str(), point.tags[j].val.as_str());
        j += 1;
    }
    assert(tags.take(point.tags.len() as int) =~= tags);
    b
}

} // verus!
