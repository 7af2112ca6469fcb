//! The value tree of a protobuf `Struct`, and its conversion from and to JSON.
use vstd::prelude::*;

use crate::error::{failure, result_view, AIApiError, AIApiErrorView};
use crate::json::{
    as_double, json_fields, json_items, json_text, json_view, number_as_double, number_view, Json,
    JsonView, NumberView,
};

verus! {

/// A double. JSON has the finite ones, as numbers that are doubles, and none of the
/// others, which are not told apart.
#[derive(Debug, PartialEq)]
pub enum Double {
    Finite(serde_json::Number),
    NotFinite,
}

/// A double.
pub enum DoubleView {
    Finite(NumberView),
    NotFinite,
}

impl DeepView for Double {
    type V = DoubleView;

    open spec fn deep_view(&self) -> DoubleView {
        match *self {
            Double::Finite(number) => DoubleView::Finite(number_view(number)),
            Double::NotFinite => DoubleView::NotFinite,
        }
    }
}

/// A struct: values under keys. Where a key occurs more than once, the last entry
/// counts.
#[derive(Debug, PartialEq)]
pub struct ProtoStruct {
    pub fields: Vec<(String, ProtoValue)>,
}

/// A value; one without a kind says nothing.
#[derive(Debug, PartialEq)]
pub struct ProtoValue {
    pub kind: Option<ProtoKind>,
}

/// The kinds of a value.
#[derive(Debug, PartialEq)]
pub enum ProtoKind {
    NullValue(i32),
    NumberValue(Double),
    StringValue(String),
    BoolValue(bool),
    StructValue(ProtoStruct),
    ListValue(Vec<ProtoValue>),
}

/// A protobuf value.
pub enum ProtoView {
    Missing,
    Null(i32),
    Number(DoubleView),
    Str(Seq<char>),
    Bool(bool),
    Struct(Map<Seq<char>, ProtoView>),
    List(Seq<ProtoView>),
}

/// The value that a `ProtoValue` denotes.
pub open spec fn proto_view(value: ProtoValue) -> ProtoView
    decreases value,
{
    match value.kind {
        None => ProtoView::Missing,
        Some(ProtoKind::NullValue(code)) => ProtoView::Null(code),
        Some(ProtoKind::NumberValue(double)) => ProtoView::Number(double.deep_view()),
        Some(ProtoKind::StringValue(text)) => ProtoView::Str(text@),
        Some(ProtoKind::BoolValue(b)) => ProtoView::Bool(b),
        Some(ProtoKind::StructValue(inner)) => ProtoView::Struct(proto_fields(inner.fields@)),
        Some(ProtoKind::ListValue(values)) => ProtoView::List(proto_items(values@)),
    }
}

/// The values that a list denotes.
pub open spec fn proto_items(values: Seq<ProtoValue>) -> Seq<ProtoView>
    decreases values,
{
    Seq::new(
        values.len(),
        |i: int|
            if 0 <= i < values.len() {
                proto_view(values[i])
            } else {
                ProtoView::Missing
            },
    )
}

/// The struct that a list of entries denotes.
pub open spec fn proto_fields(entries: Seq<(String, ProtoValue)>) -> Map<Seq<char>, ProtoView>
    decreases entries,
{
    if entries.len() == 0 {
        Map::empty()
    } else {
        proto_fields(entries.drop_last()).insert(entries.last().0@, proto_view(entries.last().1))
    }
}

impl DeepView for ProtoValue {
    type V = ProtoView;

    open spec fn deep_view(&self) -> ProtoView {
        proto_view(*self)
    }
}

impl DeepView for ProtoStruct {
    type V = Map<Seq<char>, ProtoView>;

    open spec fn deep_view(&self) -> Map<Seq<char>, ProtoView> {
        proto_fields(self.fields@)
    }
}

/// The protobuf value for a JSON value: the same tree, with every number as a double.
pub open spec fn json_to_proto(value: JsonView) -> ProtoView
    decreases value,
{
    match value {
        JsonView::Null => ProtoView::Null(0),
        JsonView::Bool(b) => ProtoView::Bool(b),
        JsonView::Number(number) => ProtoView::Number(DoubleView::Finite(as_double(number))),
        JsonView::Str(text) => ProtoView::Str(text),
        JsonView::Array(items) => ProtoView::List(
            Seq::new(
                items.len(),
                |i: int|
                    if 0 <= i < items.len() {
                        json_to_proto(items[i])
                    } else {
                        ProtoView::Missing
                    },
            ),
        ),
        JsonView::Object(fields) => ProtoView::Struct(
            Map::new(
                |key: Seq<char>| fields.contains_key(key),
                |key: Seq<char>|
                    if fields.contains_key(key) {
                        json_to_proto(fields[key])
                    } else {
                        ProtoView::Missing
                    },
            ),
        ),
    }
}

/// The JSON value for a protobuf value: the same tree, with null for a value without a
/// kind and for a number that JSON does not have.
pub open spec fn proto_to_json(value: ProtoView) -> JsonView
    decreases value,
{
    match value {
        ProtoView::Missing => JsonView::Null,
        ProtoView::Null(_) => JsonView::Null,
        ProtoView::Number(DoubleView::Finite(number)) => JsonView::Number(number),
        ProtoView::Number(DoubleView::NotFinite) => JsonView::Null,
        ProtoView::Str(text) => JsonView::Str(text),
        ProtoView::Bool(b) => JsonView::Bool(b),
        ProtoView::Struct(fields) => JsonView::Object(
            Map::new(
                |key: Seq<char>| fields.contains_key(key),
                |key: Seq<char>|
                    if fields.contains_key(key) {
                        proto_to_json(fields[key])
                    } else {
                        JsonView::Null
                    },
            ),
        ),
        ProtoView::List(values) => JsonView::Array(
            Seq::new(
                values.len(),
                |i: int|
                    if 0 <= i < values.len() {
                        proto_to_json(values[i])
                    } else {
                        JsonView::Null
                    },
            ),
        ),
    }
}

/// The protobuf values for the values of an object.
pub open spec fn fields_to_proto(fields: Map<Seq<char>, JsonView>) -> Map<Seq<char>, ProtoView> {
    fields.map_values(|value: JsonView| json_to_proto(value))
}

/// The JSON values for the values of a struct.
pub open spec fn fields_to_json(fields: Map<Seq<char>, ProtoView>) -> Map<Seq<char>, JsonView> {
    fields.map_values(|value: ProtoView| proto_to_json(value))
}

/// The struct for an object has what the object has.
pub(crate) proof fn lemma_object_to_proto(fields: Map<Seq<char>, JsonView>)
    ensures
        json_to_proto(JsonView::Object(fields)) == ProtoView::Struct(fields_to_proto(fields)),
{
    let image = json_to_proto(JsonView::Object(fields));
    assert(image->Struct_0 =~= fields_to_proto(fields));
}

/// The object for a struct has what the struct has.
pub(crate) proof fn lemma_struct_to_json(fields: Map<Seq<char>, ProtoView>)
    ensures
        proto_to_json(ProtoView::Struct(fields)) == JsonView::Object(fields_to_json(fields)),
{
    let image = proto_to_json(ProtoView::Struct(fields));
    assert(image->Object_0 =~= fields_to_json(fields));
}

proof fn lemma_entries_to_proto(
    entries: Seq<(String, Json)>,
    converted: Seq<(String, ProtoValue)>,
)
    requires
        entries.len() == converted.len(),
        forall|i: int|
            0 <= i < entries.len() ==> (#[trigger] converted[i]).0@ == entries[i].0@ && proto_view(
                converted[i].1,
            ) == json_to_proto(json_view(entries[i].1)),
    ensures
        proto_fields(converted) == fields_to_proto(json_fields(entries)),
    decreases entries.len(),
{
    if entries.len() > 0 {
        lemma_entries_to_proto(entries.drop_last(), converted.drop_last());
    }
    assert(proto_fields(converted) =~= fields_to_proto(json_fields(entries)));
}

proof fn lemma_entries_to_json(
    entries: Seq<(String, ProtoValue)>,
    converted: Seq<(String, Json)>,
)
    requires
        entries.len() == converted.len(),
        forall|i: int|
            0 <= i < entries.len() ==> (#[trigger] converted[i]).0@ == entries[i].0@ && json_view(
                converted[i].1,
            ) == proto_to_json(proto_view(entries[i].1)),
    ensures
        json_fields(converted) == fields_to_json(proto_fields(entries)),
    decreases entries.len(),
{
    if entries.len() > 0 {
        lemma_entries_to_json(entries.drop_last(), converted.drop_last());
    }
    assert(json_fields(converted) =~= fields_to_json(proto_fields(entries)));
}

/// A struct of which JSON can tell every entry is one of which JSON can tell all.
proof fn lemma_fields_told(entries: Seq<(String, ProtoValue)>)
    requires
        forall|i: int|
            0 <= i < entries.len() ==> json_tells(proto_view((#[trigger] entries[i]).1)),
    ensures
        forall|key: Seq<char>| #[trigger]
            proto_fields(entries).contains_key(key) ==> json_tells(proto_fields(entries)[key]),
    decreases entries.len(),
{
    if entries.len() > 0 {
        assert(json_tells(proto_view(entries[entries.len() - 1].1)));
        assert forall|i: int| 0 <= i < entries.drop_last().len() implies json_tells(
            proto_view((#[trigger] entries.drop_last()[i]).1),
        ) by {
            assert(entries.drop_last()[i] == entries[i]);
        }
        lemma_fields_told(entries.drop_last());
        let before = proto_fields(entries.drop_last());
        assert forall|key: Seq<char>| #[trigger]
            proto_fields(entries).contains_key(key) implies json_tells(
            proto_fields(entries)[key],
        ) by {
            if key != entries.last().0@ {
                assert(before.contains_key(key));
            }
        }
    }
}

/// The protobuf value for a JSON value. Every JSON number has a double, so that no value
/// is refused, and JSON can tell all that the protobuf value says.
pub fn serde_json_to_prost_value(value: Json) -> (r: Result<ProtoValue, AIApiError>)
    ensures
        r matches Ok(converted) && converted.deep_view() == json_to_proto(value.deep_view())
            && json_tells(converted.deep_view()),
    decreases value,
{
    let kind = match value {
        Json::Null => ProtoKind::NullValue(0),
        Json::Bool(b) => ProtoKind::BoolValue(b),
        Json::Number(number) => ProtoKind::NumberValue(
            Double::Finite(number_as_double(&number).unwrap()),
        ),
        Json::Str(text) => ProtoKind::StringValue(text),
        Json::Array(items) => {
            let mut values: Vec<ProtoValue> = Vec::new();
            for item in it: items
                invariant
                    it.seq() == items@,
                    values@.len() == it.index(),
                    decreases_to!(value => items@),
                    forall|j: int|
                        0 <= j < values@.len() ==> proto_view(#[trigger] values@[j])
                            == json_to_proto(json_view(items@[j])) && json_tells(
                            proto_view(values@[j]),
                        ),
            {
                assert(decreases_to!(items@ => items@[it.index()]));
                match serde_json_to_prost_value(item) {
                    Ok(converted) => values.push(converted),
                    Err(error) => return Err(error),
                }
            }
            assert(proto_items(values@) =~= json_to_proto(value.deep_view())->List_0);
            ProtoKind::ListValue(values)
        },
        Json::Object(entries) => {
            let mut fields: Vec<(String, ProtoValue)> = Vec::new();
            for entry in it: entries
                invariant
                    it.seq() == entries@,
                    fields@.len() == it.index(),
                    decreases_to!(value => entries@),
                    forall|j: int|
                        0 <= j < fields@.len() ==> (#[trigger] fields@[j]).0@ == entries@[j].0@
                            && proto_view(fields@[j].1) == json_to_proto(json_view(entries@[j].1))
                            && json_tells(proto_view(fields@[j].1)),
            {
                assert(decreases_to!(entries@ => entries@[it.index()]));
                assert(decreases_to!(entries@[it.index()] => entries@[it.index()].1));
                match serde_json_to_prost_value(entry.1) {
                    Ok(converted) => fields.push((entry.0, converted)),
                    Err(error) => return Err(error),
                }
            }
            proof {
                lemma_entries_to_proto(entries@, fields@);
                lemma_object_to_proto(json_fields(entries@));
                lemma_fields_told(fields@);
            }
            ProtoKind::StructValue(ProtoStruct { fields })
        },
    };
    Ok(ProtoValue { kind: Some(kind) })
}

/// What `json_value_to_prost_struct` makes of a value.
pub open spec fn struct_of(value: Option<JsonView>) -> Result<
    Option<Map<Seq<char>, ProtoView>>,
    AIApiErrorView,
> {
    match value {
        None => Ok(None),
        Some(JsonView::Object(fields)) => Ok(Some(fields_to_proto(fields))),
        Some(other) => Err(
            AIApiErrorView::Other(
                "Expected MCP `args` to be a JSON object, got: "@ + json_text(other),
            ),
        ),
    }
}

/// The struct for a JSON object, of which JSON can tell all. A value that is no object is
/// refused, with its text.
pub fn json_value_to_prost_struct(value: Option<Json>) -> (r: Result<
    Option<ProtoStruct>,
    AIApiError,
>)
    ensures
        result_view(r) == struct_of(value.deep_view()),
        r matches Ok(Some(made)) ==> json_tells(ProtoView::Struct(made.deep_view())),
{
    let value = match value {
        Some(value) => value,
        None => return Ok(None),
    };
    match value {
        Json::Object(entries) => {
            proof {
                lemma_object_to_proto(json_fields(entries@));
            }
            match serde_json_to_prost_value(Json::Object(entries)) {
                Ok(ProtoValue { kind: Some(ProtoKind::StructValue(inner)) }) => Ok(Some(inner)),
                Ok(_) => Ok(None),
                Err(error) => Err(error),
            }
        },
        other => Err(
            failure(
                "Expected MCP `args` to be a JSON object, got: ",
                other.to_text().as_str(),
            ),
        ),
    }
}

/// The JSON object for a struct.
pub fn prost_struct_to_json(value: &ProtoStruct) -> (r: Json)
    ensures
        r.deep_view() == JsonView::Object(fields_to_json(value.deep_view())),
    decreases value,
{
    let mut entries: Vec<(String, Json)> = Vec::new();
    for i in 0..value.fields.len()
        invariant
            entries@.len() == i,
            forall|j: int|
                0 <= j < i ==> (#[trigger] entries@[j]).0@ == value.fields@[j].0@ && json_view(
                    entries@[j].1,
                ) == proto_to_json(proto_view(value.fields@[j].1)),
    {
        let ghost fields = value.fields@;
        assert(decreases_to!(value => value.fields));
        assert(decreases_to!(fields => fields[i as int]));
        assert(decreases_to!(fields[i as int] => fields[i as int].1));
        let entry = &value.fields[i];
        entries.push((entry.0.clone(), prost_value_to_json(&entry.1)));
    }
    proof {
        lemma_entries_to_json(value.fields@, entries@);
    }
    Json::Object(entries)
}

/// The JSON value for a protobuf value.
pub fn prost_value_to_json(value: &ProtoValue) -> (r: Json)
    ensures
        r.deep_view() == proto_to_json(value.deep_view()),
    decreases value,
{
    match &value.kind {
        None => Json::Null,
        Some(ProtoKind::NullValue(_)) => Json::Null,
        Some(ProtoKind::NumberValue(Double::Finite(number))) => Json::Number(number.clone()),
        Some(ProtoKind::NumberValue(Double::NotFinite)) => Json::Null,
        Some(ProtoKind::StringValue(text)) => Json::Str(text.clone()),
        Some(ProtoKind::BoolValue(b)) => Json::Bool(*b),
        Some(ProtoKind::StructValue(inner)) => {
            proof {
                lemma_struct_to_json(inner.deep_view());
            }
            prost_struct_to_json(inner)
        },
        Some(ProtoKind::ListValue(values)) => {
            let mut items: Vec<Json> = Vec::new();
            for i in 0..values.len()
                invariant
                    items@.len() == i,
                    decreases_to!(value => values),
                    forall|j: int|
                        0 <= j < i ==> json_view(#[trigger] items@[j]) == proto_to_json(
                            proto_view(values@[j]),
                        ),
            {
                items.push(prost_value_to_json(&values[i]));
            }
            assert(json_items(items@) =~= proto_to_json(value.deep_view())->Array_0);
            Json::Array(items)
        },
    }
}

/// A JSON value with every number as the double nearest to it.
pub open spec fn with_doubles(value: JsonView) -> JsonView
    decreases value,
{
    match value {
        JsonView::Number(number) => JsonView::Number(as_double(number)),
        JsonView::Array(items) => JsonView::Array(
            Seq::new(
                items.len(),
                |i: int|
                    if 0 <= i < items.len() {
                        with_doubles(items[i])
                    } else {
                        JsonView::Null
                    },
            ),
        ),
        JsonView::Object(fields) => JsonView::Object(
            Map::new(
                |key: Seq<char>| fields.contains_key(key),
                |key: Seq<char>|
                    if fields.contains_key(key) {
                        with_doubles(fields[key])
                    } else {
                        JsonView::Null
                    },
            ),
        ),
        _ => value,
    }
}

/// A JSON value that goes to protobuf and back is the same but that every number is a
/// double now.
pub proof fn law_json_through_proto(value: JsonView)
    ensures
        proto_to_json(json_to_proto(value)) == with_doubles(value),
    decreases value,
{
    match value {
        JsonView::Array(items) => {
            assert forall|i: int| 0 <= i < items.len() implies proto_to_json(
                json_to_proto(#[trigger] items[i]),
            ) == with_doubles(items[i]) by {
                law_json_through_proto(items[i]);
            }
            assert(proto_to_json(json_to_proto(value))->Array_0 =~= with_doubles(value)->Array_0);
        },
        JsonView::Object(fields) => {
            assert forall|key: Seq<char>| #[trigger] fields.contains_key(key) implies proto_to_json(
                json_to_proto(fields[key]),
            ) == with_doubles(fields[key]) by {
                law_json_through_proto(fields[key]);
            }
            assert(proto_to_json(json_to_proto(value))->Object_0 =~= with_doubles(
                value,
            )->Object_0);
        },
        _ => {},
    }
}

/// Whether the numbers that a value holds are doubles.
pub open spec fn integerless(value: JsonView) -> bool
    decreases value,
{
    match value {
        JsonView::Null | JsonView::Bool(_) | JsonView::Str(_) => true,
        JsonView::Number(number) => number is Float,
        JsonView::Array(items) => forall|i: int|
            0 <= i < items.len() ==> integerless(#[trigger] items[i]),
        JsonView::Object(fields) => forall|key: Seq<char>| #[trigger]
            fields.contains_key(key) ==> integerless(fields[key]),
    }
}

/// A JSON value whose numbers are doubles goes to protobuf and back unchanged.
pub proof fn law_integerless_json_through_proto(value: JsonView)
    requires
        integerless(value),
    ensures
        proto_to_json(json_to_proto(value)) == value,
{
    law_json_through_proto(value);
    lemma_with_doubles_integerless(value);
}

proof fn lemma_with_doubles_integerless(value: JsonView)
    requires
        integerless(value),
    ensures
        with_doubles(value) == value,
    decreases value,
{
    match value {
        JsonView::Array(items) => {
            assert forall|i: int| 0 <= i < items.len() implies with_doubles(#[trigger] items[i])
                == items[i] by {
                lemma_with_doubles_integerless(items[i]);
            }
            assert(with_doubles(value)->Array_0 =~= items);
        },
        JsonView::Object(fields) => {
            assert forall|key: Seq<char>| #[trigger] fields.contains_key(key) implies with_doubles(
                fields[key],
            ) == fields[key] by {
                lemma_with_doubles_integerless(fields[key]);
            }
            assert(with_doubles(value)->Object_0 =~= fields);
        },
        _ => {},
    }
}

/// Whether JSON can tell all that a protobuf value says: every value has a kind, null has
/// its one code, and every number is finite and a double.
pub open spec fn json_tells(value: ProtoView) -> bool
    decreases value,
{
    match value {
        ProtoView::Missing => false,
        ProtoView::Null(code) => code == 0,
        ProtoView::Number(DoubleView::Finite(number)) => number is Float,
        ProtoView::Number(DoubleView::NotFinite) => false,
        ProtoView::Str(_) => true,
        ProtoView::Bool(_) => true,
        ProtoView::Struct(fields) => forall|key: Seq<char>| #[trigger]
            fields.contains_key(key) ==> json_tells(fields[key]),
        ProtoView::List(values) => forall|i: int|
            0 <= i < values.len() ==> json_tells(#[trigger] values[i]),
    }
}

/// A protobuf value of which JSON can tell all goes to JSON and back unchanged.
pub proof fn law_proto_through_json(value: ProtoView)
    requires
        json_tells(value),
    ensures
        json_to_proto(proto_to_json(value)) == value,
    decreases value,
{
    match value {
        ProtoView::Struct(fields) => {
            assert forall|key: Seq<char>| #[trigger] fields.contains_key(key) implies json_to_proto(
                proto_to_json(fields[key]),
            ) == fields[key] by {
                law_proto_through_json(fields[key]);
            }
            assert(json_to_proto(proto_to_json(value))->Struct_0 =~= fields);
        },
        ProtoView::List(values) => {
            assert forall|i: int| 0 <= i < values.len() implies json_to_proto(
                proto_to_json(#[trigger] values[i]),
            ) == values[i] by {
                law_proto_through_json(values[i]);
            }
            assert(json_to_proto(proto_to_json(value))->List_0 =~= values);
        },
        _ => {},
    }
}

} // verus!
