//! The point that records one reading: a measurement name, numeric fields,
//! string tags and a timestamp.

use vstd::prelude::*;
use crate::reading::AirGradientData;
use crate::settings::{pairs_view, SettingsPair};
use crate::tags::{
    distinct_keys, has_key, lemma_merge_distinct, lemma_merge_keys, lemma_merge_last_wins, lookup,
    merge_into, merge_tags,
};

verus! {

/// The value of a field: a signed integer, or a double-precision number
/// carried as its bit pattern.
#[derive(Clone, Copy, Debug, PartialEq, Eq, Structural)]
pub enum FieldValue {
    Integer(i64),
    DoubleBits(u64),
}

/// A named field of a point.
#[derive(Debug)]
pub struct Field {
    pub name: String,
    pub value: FieldValue,
}

impl View for Field {
    type V = (Seq<char>, FieldValue);

    open spec fn view(&self) -> (Seq<char>, FieldValue) {
        (self.name@, self.value)
    }
}

/// The fields of a vector, in order, each as a name and a value.
pub open spec fn fields_view(v: Seq<Field>) -> Seq<(Seq<char>, FieldValue)> {
    Seq::new(v.len(), |i: int| v[i]@)
}

/// A point ready to be written.
#[derive(Debug)]
pub struct OutputPoint {
    pub measurement: String,
    pub fields: Vec<Field>,
    pub tags: Vec<SettingsPair>,
    pub timestamp: i64,
}

/// A point as plain values.
pub struct PointView {
    pub measurement: Seq<char>,
    pub fields: Seq<(Seq<char>, FieldValue)>,
    pub tags: Seq<(Seq<char>, Seq<char>)>,
    pub timestamp: i64,
}

impl View for OutputPoint {
    type V = PointView;

    open spec fn view(&self) -> PointView {
        PointView {
            measurement: self.measurement@,
            fields: fields_view(self.fields@),
            tags: pairs_view(self.tags@),
            timestamp: self.timestamp,
        }
    }
}

/// The twelve fields of the point for a reading and its index. The PM10
/// field comes from the PM10 reading, and both the raw value and the index
/// of the two gas sensors are recorded.
pub open spec fn point_fields(data: &AirGradientData, aqi: u32) -> Seq<(Seq<char>, FieldValue)> {
    seq![
        ("rco2"@, FieldValue::Integer(data.rco2 as i64)),
        ("pm01"@, FieldValue::Integer(data.pm01 as i64)),
        ("pm02"@, FieldValue::Integer(data.pm02 as i64)),
        ("pm10"@, FieldValue::Integer(data.pm10 as i64)),
        ("pm003Count"@, FieldValue::Integer(data.pm003_count as i64)),
        ("temp"@, FieldValue::DoubleBits(data.atmp_compensated_bits)),
        ("humidity"@, FieldValue::Integer(data.rhum_compensated as i64)),
        ("tvoc"@, FieldValue::Integer(data.tvoc_raw as i64)),
        ("tvocIndex"@, FieldValue::Integer(data.tvoc_index as i64)),
        ("nox"@, FieldValue::Integer(data.nox_raw as i64)),
        ("noxIndex"@, FieldValue::Integer(data.nox_index as i64)),
        ("aqi"@, FieldValue::Integer(aqi as i64)),
    ]
}

/// The three tags that say which device a reading came from.
pub open spec fn identity_tags(data: &AirGradientData) -> Seq<(Seq<char>, Seq<char>)> {
    seq![
        ("firmware"@, data.firmware@),
        ("model"@, data.model@),
        ("serialno"@, data.serialno@),
    ]
}

/// The point for a reading: the measurement `airgradient`, the twelve
/// fields, the identity tags with the static tags merged into them (a static
/// tag with the key of an identity tag takes its place), and the timestamp.
pub open spec fn output_point(
    data: &AirGradientData,
    aqi: u32,
    static_tags: Seq<(Seq<char>, Seq<char>)>,
    timestamp: i64,
) -> PointView {
    PointView {
        measurement: "airgradient"@,
        fields: point_fields(data, aqi),
        tags: merge_tags(identity_tags(data), static_tags),
        timestamp,
    }
}

/// The three identity tags have three different keys, and each key gives
/// the value of the reading that it is named after.
pub proof fn lemma_identity_tags(data: &AirGradientData)
    ensures
        distinct_keys(identity_tags(data)),
        lookup(identity_tags(data), "firmware"@) == Some(data.firmware@),
        lookup(identity_tags(data), "model"@) == Some(data.model@),
        lookup(identity_tags(data), "serialno"@) == Some(data.serialno@),
{
    reveal_strlit("firmware");
    reveal_strlit("model");
    reveal_strlit("serialno");
    assert("firmware"@.len() == 8);
    assert("model"@.len() == 5);
    assert("firmware"@[0] == 'f');
    assert("serialno"@[0] == 's');
    let t = identity_tags(data);
    assert(t[0].0 == "firmware"@);
    assert(t[1].0 == "model"@);
    assert(t[2].0 == "serialno"@);
}

/// The tags of a point are the three identity tags together with the static
/// tags, each key once. A key that no static tag names keeps its identity
/// value; a key that a static tag names has the value of the last static tag
/// with that key, also where an identity tag has the same key.
pub proof fn lemma_point_tags(
    data: &AirGradientData,
    aqi: u32,
    static_tags: Seq<(Seq<char>, Seq<char>)>,
    timestamp: i64,
    q: Seq<char>,
)
    ensures
        distinct_keys(output_point(data, aqi, static_tags, timestamp).tags),
        has_key(output_point(data, aqi, static_tags, timestamp).tags, q) <==> (q == "firmware"@
            || q == "model"@ || q == "serialno"@ || has_key(static_tags, q)),
        !has_key(static_tags, q) ==> lookup(
            output_point(data, aqi, static_tags, timestamp).tags,
            q,
        ) == lookup(identity_tags(data), q),
        forall|j: int|
            0 <= j < static_tags.len() && (#[trigger] static_tags[j]).0 == q && (forall|l: int|
                j < l < static_tags.len() ==> (#[trigger] static_tags[l]).0 != q) ==> lookup(
                output_point(data, aqi, static_tags, timestamp).tags,
                q,
            ) == Some(static_tags[j].1),
{
    let base = identity_tags(data);
    lemma_identity_tags(data);
    lemma_merge_distinct(base, static_tags);
    lemma_merge_keys(base, static_tags, q);
    assert(base[0].0 == "firmware"@);
    assert(base[1].0 == "model"@);
    assert(base[2].0 == "serialno"@);
    assert forall|j: int|
        0 <= j < static_tags.len() && (#[trigger] static_tags[j]).0 == q && (forall|l: int|
            j < l < static_tags.len() ==> (#[trigger] static_tags[l]).0 != q) implies lookup(
        merge_tags(base, static_tags),
        q,
    ) == Some(static_tags[j].1) by {
        lemma_merge_last_wins(base, static_tags, j);
    }
}

/// A field that holds an unsigned reading as a signed integer.
fn integer_field(name: &str, value: u32) -> (f: Field)
    ensures
        f@ == (name@, FieldValue::Integer(value as i64)),
{
    Field { name: name.to_owned(), value: FieldValue::Integer(value as i64) }
}

/// A tag with the given key and a copy of the value.
fn tag(key: &str, val: &String) -> (p: SettingsPair)
    ensures
        p@ == (key@, val@),
{
    SettingsPair { key: key.to_owned(), val: val.clone() }
}

/// Builds the point for a reading and its index, with the static tags of
/// the configuration and the time of writing in nanoseconds.
pub fn build_point(
    data: &AirGradientData,
    aqi: u32,
    static_tags: &Vec<SettingsPair>,
    timestamp: i64,
) -> (point: OutputPoint)
    ensures
        point@ == output_point(data, aqi, pairs_view(static_tags@), timestamp),
        distinct_keys(point@.tags),
{
    let mut fields: Vec<Field> = Vec::new();
    fields.push(integer_field("rco2", data.rco2));
    fields.push(integer_field("pm01", data.pm01));
    fields.push(integer_field("pm02", data.pm02));
    fields.push(integer_field("pm10", data.pm10));
    fields.push(integer_field("pm003Count", data.pm003_count));
    fields.push(
        Field { name: "temp".to_owned(), value: FieldValue::DoubleBits(data.atmp_compensated_bits) },
    );
    fields.push(integer_field("humidity", data.rhum_compensated));
    fields.push(integer_field("tvoc", data.tvoc_raw));
    fields.push(integer_field("tvocIndex", data.tvoc_index));
    fields.push(integer_field("nox", data.nox_raw));
    fields.push(integer_field("noxIndex", data.nox_index));
    fields.push(integer_field("aqi", aqi));
    assert(fields_view(fields@) =~= point_fields(data, aqi));

    let mut tags: Vec<SettingsPair> = Vec::new();
    tags.push(tag("firmware", &data.firmware));
    tags.push(tag("model", &data.model));
    tags.push(tag("serialno", &data.serialno));
    assert(pairs_view(tags@) =~= identity_tags(data));
    proof {
        lemma_identity_tags(data);
    }
    merge_into(&mut tags, static_tags);

    OutputPoint { measurement: "airgradient".to_owned(), fields, tags, timestamp }
}

} // verus!
