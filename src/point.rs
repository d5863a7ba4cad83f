use vstd::prelude::*;

use crate::reading::{type_tag_of, FieldKind};

verus! {

/// A string tag attached to a stored measurement.
#[derive(Debug)]
pub struct Tag {
    pub key: String,
    pub value: String,
}

/// One measurement as it is written to the database: a named series, one
/// numeric field and a list of string tags.
#[derive(Debug)]
pub struct SeriesPoint<V> {
    pub series: String,
    pub field: String,
    pub value: V,
    pub tags: Vec<Tag>,
}

/// The mathematical content of a `SeriesPoint`.
pub struct PointView<V> {
    pub series: Seq<char>,
    pub field: Seq<char>,
    pub value: V,
    pub tags: Seq<(Seq<char>, Seq<char>)>,
}

impl<V> View for SeriesPoint<V> {
    type V = PointView<V>;

    open spec fn view(&self) -> PointView<V> {
        PointView {
            series: self.series@,
            field: self.field@,
            value: self.value,
            tags: self.tags@.map_values(|t: Tag| (t.key@, t.value@)),
        }
    }
}

/// The model name every measurement is tagged with.
pub open spec fn sensor_model() -> Seq<char> {
    "bme680"@
}

/// The measurement that carries `value` of quantity `kind` for the device
/// `id`: series `sensor`, field `value`, and the tags `id`, `name` and `type`
/// in that order.
pub open spec fn measurement_spec<V>(kind: FieldKind, value: V, id: Seq<char>) -> PointView<V> {
    PointView {
        series: "sensor"@,
        field: "value"@,
        value: value,
        tags: seq![("id"@, id), ("name"@, sensor_model()), ("type"@, type_tag_of(kind))],
    }
}

fn tag(key: &str, value: &str) -> (r: Tag)
    ensures
        r.key@ == key@,
        r.value@ == value@,
{
    Tag { key: key.to_owned(), value: value.to_owned() }
}

/// Builds the single measurement that publishes `value` of quantity `kind` for
/// the device `id`.
pub fn measurement<V>(kind: FieldKind, value: V, id: &str) -> (r: SeriesPoint<V>)
    ensures
        r@ == measurement_spec(kind, value, id@),
{
    let mut tags: Vec<Tag> = Vec::new();
    tags.push(tag("id", id));
    tags.push(tag("name", "bme680"));
    tags.push(tag("type", kind.type_tag()));
    let r = SeriesPoint { series: "sensor".to_owned(), field: "value".to_owned(), value, tags };
    assert(r@.tags =~= measurement_spec(kind, r.value, id@).tags);
    r
}

} // verus!
