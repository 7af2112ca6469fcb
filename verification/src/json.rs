//! JSON values, their text, and what the library reads of them.
use vstd::prelude::*;

use crate::text::{same_text, trimmed};

verus! {

/// `serde_json::Value`, the outside type of a JSON value.
#[verifier::external_type_specification]
#[verifier::external_body]
pub struct ExJsonValue(serde_json::Value);

/// `serde_json::Number`, the outside type of a JSON number.
#[verifier::external_type_specification]
#[verifier::external_body]
pub struct ExJsonNumber(serde_json::Number);

/// A JSON number: an integer from zero up, an integer below zero, or a finite
/// double given by its bits.
pub enum NumberView {
    PosInt(u64),
    NegInt(i64),
    Float(u64),
}

/// A JSON value.
pub enum JsonView {
    Null,
    Bool(bool),
    Number(NumberView),
    Str(Seq<char>),
    Array(Seq<JsonView>),
    Object(Map<Seq<char>, JsonView>),
}

/// A JSON value. Where an object names a key more than once, the last entry counts.
#[derive(Debug, PartialEq)]
pub enum Json {
    Null,
    Bool(bool),
    Number(serde_json::Number),
    Str(String),
    Array(Vec<Json>),
    Object(Vec<(String, Json)>),
}

/// A JSON value of the outside crate, opened by one level.
pub enum ValueShape {
    Null,
    Bool(bool),
    Number(serde_json::Number),
    Str(String),
    Array(Vec<serde_json::Value>),
    Object(Vec<(String, serde_json::Value)>),
}

/// What a JSON value of the outside crate holds.
pub uninterp spec fn value_view(value: serde_json::Value) -> JsonView;

/// What a JSON number of the outside crate holds.
pub uninterp spec fn number_view(number: serde_json::Number) -> NumberView;

/// What `serde_json::from_str` makes of a text: the value it denotes, or the text of
/// the error.
pub uninterp spec fn json_parse(text: Seq<char>) -> Result<JsonView, Seq<char>>;

/// Whether a text parses, and to the given value.
pub open spec fn parses_to(text: Seq<char>, value: JsonView) -> bool {
    json_parse(text) matches Ok(parsed) && parsed == value
}

/// The compact JSON text that serde_json prints for a value.
pub uninterp spec fn json_text(value: JsonView) -> Seq<char>;

/// The double nearest to a number.
pub uninterp spec fn number_double(number: NumberView) -> NumberView;

/// A number as a double: itself where it is one, else the double nearest to it.
pub open spec fn as_double(number: NumberView) -> NumberView {
    if number is Float {
        number
    } else {
        number_double(number)
    }
}

/// Whether a value holds no double.
pub open spec fn doubleless(value: JsonView) -> bool
    decreases value,
{
    match value {
        JsonView::Null | JsonView::Bool(_) | JsonView::Str(_) => true,
        JsonView::Number(NumberView::PosInt(_)) => true,
        JsonView::Number(NumberView::NegInt(n)) => n < 0,
        JsonView::Number(NumberView::Float(_)) => false,
        JsonView::Array(items) => forall|i: int|
            0 <= i < items.len() ==> doubleless(#[trigger] items[i]),
        JsonView::Object(fields) => forall|key: Seq<char>| #[trigger]
            fields.contains_key(key) ==> doubleless(fields[key]),
    }
}

/// Whether a value nests arrays and objects at most `depth` deep.
pub open spec fn nests_within(value: JsonView, depth: nat) -> bool
    decreases depth,
{
    match value {
        JsonView::Array(items) => depth > 0 && forall|i: int|
            0 <= i < items.len() ==> nests_within(#[trigger] items[i], (depth - 1) as nat),
        JsonView::Object(fields) => depth > 0 && forall|key: Seq<char>| #[trigger]
            fields.contains_key(key) ==> nests_within(fields[key], (depth - 1) as nat),
        _ => true,
    }
}

/// Whether a value holds no double and nests arrays and objects at most `depth` deep. The
/// text of such a value tells it exactly.
pub open spec fn exact_within(value: JsonView, depth: nat) -> bool {
    doubleless(value) && nests_within(value, depth)
}

/// The object that a list of entries of the outside crate denotes.
pub open spec fn value_fields(entries: Seq<(String, serde_json::Value)>) -> Map<
    Seq<char>,
    JsonView,
>
    decreases entries.len(),
{
    if entries.len() == 0 {
        Map::empty()
    } else {
        value_fields(entries.drop_last()).insert(
            entries.last().0@,
            value_view(entries.last().1),
        )
    }
}

/// Whether no two entries have one key.
pub open spec fn distinct_keys(entries: Seq<(String, serde_json::Value)>) -> bool {
    forall|i: int, j: int|
        0 <= i < j < entries.len() ==> (#[trigger] entries[i]).0@ != (#[trigger] entries[j]).0@
}

impl ValueShape {
    /// The value that the opened level and the values below it make up.
    pub open spec fn closed_view(self) -> JsonView {
        match self {
            ValueShape::Null => JsonView::Null,
            ValueShape::Bool(b) => JsonView::Bool(b),
            ValueShape::Number(n) => JsonView::Number(number_view(n)),
            ValueShape::Str(s) => JsonView::Str(s@),
            ValueShape::Array(items) => JsonView::Array(
                items@.map_values(|v: serde_json::Value| value_view(v)),
            ),
            ValueShape::Object(entries) => JsonView::Object(value_fields(entries@)),
        }
    }
}

impl DeepView for Json {
    type V = JsonView;

    open spec fn deep_view(&self) -> JsonView {
        json_view(*self)
    }
}

/// The value that a `Json` denotes.
pub open spec fn json_view(json: Json) -> JsonView
    decreases json,
{
    match json {
        Json::Null => JsonView::Null,
        Json::Bool(b) => JsonView::Bool(b),
        Json::Number(n) => JsonView::Number(number_view(n)),
        Json::Str(s) => JsonView::Str(s@),
        Json::Array(items) => JsonView::Array(json_items(items@)),
        Json::Object(entries) => JsonView::Object(json_fields(entries@)),
    }
}

/// The values that a list denotes.
pub open spec fn json_items(items: Seq<Json>) -> Seq<JsonView>
    decreases items,
{
    Seq::new(
        items.len(),
        |i: int|
            if 0 <= i < items.len() {
                json_view(items[i])
            } else {
                JsonView::Null
            },
    )
}

/// The object that a list of entries denotes.
pub open spec fn json_fields(entries: Seq<(String, Json)>) -> Map<Seq<char>, JsonView>
    decreases entries,
{
    if entries.len() == 0 {
        Map::empty()
    } else {
        json_fields(entries.drop_last()).insert(entries.last().0@, json_view(entries.last().1))
    }
}

/// What an object has under a key. Nothing else has keys.
pub open spec fn json_get(value: JsonView, key: Seq<char>) -> Option<JsonView> {
    match value {
        JsonView::Object(fields) if fields.contains_key(key) => Some(fields[key]),
        _ => None,
    }
}

/// The text of a string.
pub open spec fn json_str(value: JsonView) -> Option<Seq<char>> {
    match value {
        JsonView::Str(text) => Some(text),
        _ => None,
    }
}

/// The text that an object has under a key, where it has a string there.
pub open spec fn json_get_str(value: JsonView, key: Seq<char>) -> Option<Seq<char>> {
    match json_get(value, key) {
        Some(found) => json_str(found),
        None => None,
    }
}

/// The number of an integer from zero up.
pub open spec fn json_u64(value: JsonView) -> Option<u64> {
    match value {
        JsonView::Number(NumberView::PosInt(n)) => Some(n),
        _ => None,
    }
}

/// `serde_json::from_str` into `serde_json::Value`: the value that the text denotes, or
/// the text of its error; which one, and which value, is named `json_parse`. A text that
/// nests deeper than the parser goes is an error.
#[verifier::external_body]
fn parse_value(text: &str) -> (r: Result<serde_json::Value, String>)
    ensures
        match r {
            Ok(value) => parses_to(text@, value_view(value)),
            Err(error) => json_parse(text@) matches Err(message) && message == error@,
        },
        r matches Ok(value) ==> nests_within(value_view(value), 127),
{
    serde_json::from_str::<serde_json::Value>(text).map_err(|e| e.to_string())
}

/// The variants of `serde_json::Value`: the value opened by one level holds what the
/// value holds. The entries of an object come out one for each key.
#[verifier::external_body]
fn open_value(value: serde_json::Value) -> (r: ValueShape)
    ensures
        value_view(value) == r.closed_view(),
        r matches ValueShape::Object(entries) ==> distinct_keys(entries@),
{
    match value {
        serde_json::Value::Null => ValueShape::Null,
        serde_json::Value::Bool(b) => ValueShape::Bool(b),
        serde_json::Value::Number(n) => ValueShape::Number(n),
        serde_json::Value::String(s) => ValueShape::Str(s),
        serde_json::Value::Array(items) => ValueShape::Array(items),
        serde_json::Value::Object(fields) => ValueShape::Object(fields.into_iter().collect()),
    }
}

/// The variants of `serde_json::Value`: the value made from one opened level holds what
/// the level holds. No two entries of an object have one key.
#[verifier::external_body]
fn close_value(shape: ValueShape) -> (r: serde_json::Value)
    requires
        shape matches ValueShape::Object(entries) ==> distinct_keys(entries@),
    ensures
        value_view(r) == shape.closed_view(),
{
    match shape {
        ValueShape::Null => serde_json::Value::Null,
        ValueShape::Bool(b) => serde_json::Value::Bool(b),
        ValueShape::Number(n) => serde_json::Value::Number(n),
        ValueShape::Str(s) => serde_json::Value::String(s),
        ValueShape::Array(items) => serde_json::Value::Array(items),
        ValueShape::Object(entries) => serde_json::Value::Object(entries.into_iter().collect()),
    }
}

/// `Display` of `serde_json::Value`: the compact text, named `json_text`. The text is
/// not empty and has no white space at its ends. Parsing it gives the value back where
/// the value holds no double and is nested no deeper than the parser goes. An empty object
/// is a pair of braces.
#[verifier::external_body]
fn value_text(value: &serde_json::Value) -> (r: String)
    ensures
        r@ == json_text(value_view(*value)),
        r@.len() > 0,
        trimmed(r@) == r@,
        exact_within(value_view(*value), 127) ==> parses_to(r@, value_view(*value)),
        value_view(*value) == JsonView::Object(Map::empty()) ==> r@ == "{}"@,
{
    value.to_string()
}

/// `serde_json::Number::as_u64`: the number if it is an integer from zero up.
#[verifier::external_body]
fn number_as_u64(number: &serde_json::Number) -> (r: Option<u64>)
    ensures
        r == (match number_view(*number) {
            NumberView::PosInt(n) => Some(n),
            _ => None,
        }),
{
    number.as_u64()
}

/// `serde_json::Number::as_f64`, with the double as a JSON number again
/// (`serde_json::Number::from_f64`): every number has one, named `number_double`. It is a
/// double, and a number that is a double already is its own.
#[verifier::external_body]
pub(crate) fn number_as_double(number: &serde_json::Number) -> (r: Option<serde_json::Number>)
    ensures
        r is Some,
        number_view(r->0) == number_double(number_view(*number)),
        number_view(r->0) is Float,
        number_view(*number) is Float ==> number_view(r->0) == number_view(*number),
{
    number.as_f64().and_then(serde_json::Number::from_f64)
}

/// `Clone` of `serde_json::Number`: the copy holds the same number.
pub assume_specification[ <serde_json::Number as Clone>::clone ](number: &serde_json::Number) -> (r:
    serde_json::Number)
    ensures
        number_view(r) == number_view(*number),
;

/// Lists that agree in their keys and in what their values hold denote one object.
proof fn lemma_fields_agree(entries: Seq<(String, Json)>, values: Seq<(String, serde_json::Value)>)
    requires
        entries.len() == values.len(),
        forall|i: int|
            0 <= i < entries.len() ==> (#[trigger] entries[i]).0@ == values[i].0@ && json_view(
                entries[i].1,
            ) == value_view(values[i].1),
    ensures
        json_fields(entries) == value_fields(values),
    decreases entries.len(),
{
    if entries.len() > 0 {
        lemma_fields_agree(entries.drop_last(), values.drop_last());
    }
}

proof fn lemma_fields_same(a: Seq<(String, Json)>, b: Seq<(String, Json)>)
    requires
        a.len() == b.len(),
        forall|i: int|
            0 <= i < a.len() ==> (#[trigger] a[i]).0@ == b[i].0@ && json_view(a[i].1) == json_view(
                b[i].1,
            ),
    ensures
        json_fields(a) == json_fields(b),
    decreases a.len(),
{
    if a.len() > 0 {
        lemma_fields_same(a.drop_last(), b.drop_last());
    }
}

/// Each of the entries is found under its key.
proof fn lemma_value_fields_entry(entries: Seq<(String, serde_json::Value)>, k: int)
    requires
        distinct_keys(entries),
        0 <= k < entries.len(),
    ensures
        value_fields(entries).contains_key(entries[k].0@),
        value_fields(entries)[entries[k].0@] == value_view(entries[k].1),
    decreases entries.len(),
{
    if k < entries.len() - 1 {
        lemma_value_fields_entry(entries.drop_last(), k);
    }
}

proof fn lemma_value_fields_finite(entries: Seq<(String, serde_json::Value)>)
    ensures
        value_fields(entries).dom().finite(),
    decreases entries.len(),
{
    if entries.len() > 0 {
        lemma_value_fields_finite(entries.drop_last());
    }
}

/// The last entry for a key is the one that counts.
proof fn lemma_fields_found(entries: Seq<(String, Json)>, k: int, key: Seq<char>)
    requires
        0 <= k < entries.len(),
        entries[k].0@ == key,
        forall|j: int| k < j < entries.len() ==> (#[trigger] entries[j]).0@ != key,
    ensures
        json_fields(entries).contains_key(key),
        json_fields(entries)[key] == json_view(entries[k].1),
    decreases entries.len(),
{
    if k < entries.len() - 1 {
        lemma_fields_found(entries.drop_last(), k, key);
    }
}

proof fn lemma_fields_absent(entries: Seq<(String, Json)>, key: Seq<char>)
    requires
        forall|j: int| 0 <= j < entries.len() ==> (#[trigger] entries[j]).0@ != key,
    ensures
        !json_fields(entries).contains_key(key),
    decreases entries.len(),
{
    if entries.len() > 0 {
        lemma_fields_absent(entries.drop_last(), key);
    }
}

/// Another value under the key of an entry takes the place of the old one.
proof fn lemma_value_fields_update(
    entries: Seq<(String, serde_json::Value)>,
    k: int,
    entry: (String, serde_json::Value),
)
    requires
        distinct_keys(entries),
        0 <= k < entries.len(),
        entries[k].0@ == entry.0@,
    ensures
        value_fields(entries.update(k, entry)) == value_fields(entries).insert(
            entry.0@,
            value_view(entry.1),
        ),
    decreases entries.len(),
{
    let updated = entries.update(k, entry);
    if k == entries.len() - 1 {
        assert(updated.drop_last() =~= entries.drop_last());
    } else {
        assert(entries[k].0@ != entries.last().0@);
        assert(updated.drop_last() =~= entries.drop_last().update(k, entry));
        lemma_value_fields_update(entries.drop_last(), k, entry);
    }
    assert(value_fields(updated) =~= value_fields(entries).insert(entry.0@, value_view(entry.1)));
}

/// Puts a value under a key, in place of the one that was there.
fn put_entry(entries: &mut Vec<(String, serde_json::Value)>, key: String, value: serde_json::Value)
    requires
        distinct_keys(old(entries)@),
    ensures
        distinct_keys(final(entries)@),
        value_fields(final(entries)@) == value_fields(old(entries)@).insert(
            key@,
            value_view(value),
        ),
{
    let count: usize = entries.len();
    for k in 0..count
        invariant
            count == entries@.len(),
            distinct_keys(entries@),
            *entries == *old(entries),
            forall|j: int| 0 <= j < k ==> (#[trigger] entries@[j]).0@ != key@,
    {
        if same_text(entries[k].0.as_str(), key.as_str()) {
            proof {
                lemma_value_fields_update(entries@, k as int, (key, value));
            }
            entries.set(k, (key, value));
            return;
        }
    }
    entries.push((key, value));
    assert(entries@.drop_last() =~= old(entries)@);
}

impl Clone for Json {
    fn clone(&self) -> (r: Self)
        ensures
            r.deep_view() == self.deep_view(),
        decreases self,
    {
        match self {
            Json::Null => Json::Null,
            Json::Bool(b) => Json::Bool(*b),
            Json::Number(n) => Json::Number(n.clone()),
            Json::Str(s) => Json::Str(s.clone()),
            Json::Array(items) => {
                let mut copy: Vec<Json> = Vec::new();
                for i in 0..items.len()
                    invariant
                        copy@.len() == i,
                        decreases_to!(self => items),
                        forall|j: int|
                            0 <= j < i ==> json_view(copy@[j]) == json_view(#[trigger] items@[j]),
                {
                    copy.push(items[i].clone());
                }
                assert(json_items(copy@) =~= json_items(items@));
                Json::Array(copy)
            },
            Json::Object(entries) => {
                let mut copy: Vec<(String, Json)> = Vec::new();
                for i in 0..entries.len()
                    invariant
                        copy@.len() == i,
                        decreases_to!(self => entries),
                        forall|j: int|
                            0 <= j < i ==> (#[trigger] copy@[j]).0@ == entries@[j].0@ && json_view(
                                copy@[j].1,
                            ) == json_view(entries@[j].1),
                {
                    copy.push((entries[i].0.clone(), entries[i].1.clone()));
                }
                proof {
                    lemma_fields_same(copy@, entries@);
                }
                Json::Object(copy)
            },
        }
    }
}

impl Json {
    /// The value that a value of the outside crate holds.
    pub fn from_value(value: serde_json::Value) -> (r: Json)
        ensures
            r.deep_view() == value_view(value),
        decreases value_view(value),
    {
        match open_value(value) {
            ValueShape::Null => Json::Null,
            ValueShape::Bool(b) => Json::Bool(b),
            ValueShape::Number(n) => Json::Number(n),
            ValueShape::Str(s) => Json::Str(s),
            ValueShape::Array(values) => {
                let ghost view = value_view(value)->Array_0;
                let mut items: Vec<Json> = Vec::new();
                for item in it: values
                    invariant
                        it.seq() == values@,
                        items@.len() == it.index(),
                        value_view(value) == JsonView::Array(view),
                        view == values@.map_values(|v: serde_json::Value| value_view(v)),
                        forall|j: int|
                            0 <= j < items@.len() ==> json_view(#[trigger] items@[j]) == view[j],
                {
                    let ghost k = it.index();
                    assert(value_view(item) == view[k]);
                    assert(decreases_to!(value_view(value) => value_view(value)->Array_0));
                    assert(decreases_to!(view => view[k]));
                    items.push(Json::from_value(item));
                }
                assert(json_items(items@) =~= view);
                Json::Array(items)
            },
            ValueShape::Object(values) => {
                let ghost view = value_view(value)->Object_0;
                let mut entries: Vec<(String, Json)> = Vec::new();
                for entry in it: values
                    invariant
                        it.seq() == values@,
                        entries@.len() == it.index(),
                        value_view(value) == JsonView::Object(view),
                        view == value_fields(values@),
                        distinct_keys(values@),
                        forall|j: int|
                            0 <= j < entries@.len() ==> (#[trigger] entries@[j]).0@
                                == values@[j].0@ && json_view(entries@[j].1) == value_view(
                                values@[j].1,
                            ),
                {
                    let ghost k = it.index();
                    proof {
                        lemma_value_fields_entry(values@, k);
                        lemma_value_fields_finite(values@);
                        assert(decreases_to!(value_view(value) => value_view(value)->Object_0));
                        assert(decreases_to!(view => view[values@[k].0@]));
                    }
                    entries.push((entry.0, Json::from_value(entry.1)));
                }
                proof {
                    lemma_fields_agree(entries@, values@);
                }
                Json::Object(entries)
            },
        }
    }

    /// The value as one of the outside crate.
    pub fn to_value(&self) -> (r: serde_json::Value)
        ensures
            value_view(r) == self.deep_view(),
        decreases self,
    {
        let shape = match self {
            Json::Null => ValueShape::Null,
            Json::Bool(b) => ValueShape::Bool(*b),
            Json::Number(n) => ValueShape::Number(n.clone()),
            Json::Str(s) => ValueShape::Str(s.clone()),
            Json::Array(items) => {
                let mut values: Vec<serde_json::Value> = Vec::new();
                for i in 0..items.len()
                    invariant
                        values@.len() == i,
                        decreases_to!(self => items),
                        forall|j: int|
                            0 <= j < i ==> value_view(values@[j]) == json_view(
                                #[trigger] items@[j],
                            ),
                {
                    values.push(items[i].to_value());
                }
                assert(json_items(items@) =~= values@.map_values(
                    |v: serde_json::Value| value_view(v),
                ));
                ValueShape::Array(values)
            },
            Json::Object(entries) => {
                let mut values: Vec<(String, serde_json::Value)> = Vec::new();
                assert(json_fields(entries@.take(0)) =~= value_fields(values@));
                for i in 0..entries.len()
                    invariant
                        decreases_to!(self => entries),
                        distinct_keys(values@),
                        value_fields(values@) == json_fields(entries@.take(i as int)),
                {
                    assert(entries@.take(i + 1).drop_last() =~= entries@.take(i as int));
                    put_entry(&mut values, entries[i].0.clone(), entries[i].1.to_value());
                }
                assert(entries@.take(entries@.len() as int) =~= entries@);
                ValueShape::Object(values)
            },
        };
        close_value(shape)
    }

    /// The value that a text denotes, or the text of the parser's error.
    pub fn parse(text: &str) -> (r: Result<Json, String>)
        ensures
            match r {
                Ok(json) => parses_to(text@, json.deep_view()) && nests_within(
                    json.deep_view(),
                    127,
                ),
                Err(error) => json_parse(text@) matches Err(message) && message == error@,
            },
    {
        match parse_value(text) {
            Ok(value) => Ok(Json::from_value(value)),
            Err(error) => Err(error),
        }
    }

    /// The compact text of the value.
    pub fn to_text(&self) -> (r: String)
        ensures
            r@ == json_text(self.deep_view()),
            r@.len() > 0,
            trimmed(r@) == r@,
            exact_within(self.deep_view(), 127) ==> parses_to(r@, self.deep_view()),
            self.deep_view() == JsonView::Object(Map::empty()) ==> r@ == "{}"@,
    {
        value_text(&self.to_value())
    }

    /// The place of the entry that counts for a key.
    fn place_of(entries: &Vec<(String, Json)>, key: &str) -> (r: Option<usize>)
        ensures
            match r {
                Some(k) => k < entries@.len() && json_fields(entries@).contains_key(key@)
                    && json_fields(entries@)[key@] == json_view(entries@[k as int].1),
                None => !json_fields(entries@).contains_key(key@),
            },
    {
        let mut i: usize = entries.len();
        while i > 0
            invariant
                i <= entries@.len(),
                forall|j: int| i <= j < entries@.len() ==> (#[trigger] entries@[j]).0@ != key@,
            decreases i,
        {
            i = i - 1;
            if same_text(entries[i].0.as_str(), key) {
                proof {
                    lemma_fields_found(entries@, i as int, key@);
                }
                return Some(i);
            }
        }
        proof {
            lemma_fields_absent(entries@, key@);
        }
        None
    }

    /// What an object has under a key.
    pub fn get(&self, key: &str) -> (r: Option<&Json>)
        ensures
            r.deep_view() == json_get(self.deep_view(), key@),
    {
        match self {
            Json::Object(entries) => match Json::place_of(entries, key) {
                Some(k) => Some(&entries[k].1),
                None => None,
            },
            _ => None,
        }
    }

    /// What an object has under a key, taken out of it.
    pub fn take(self, key: &str) -> (r: Option<Json>)
        ensures
            r.deep_view() == json_get(self.deep_view(), key@),
    {
        match self {
            Json::Object(entries) => {
                let mut entries = entries;
                match Json::place_of(&entries, key) {
                    Some(k) => {
                        let (_, found) = entries.swap_remove(k);
                        Some(found)
                    },
                    None => None,
                }
            },
            _ => None,
        }
    }

    /// The text of a string.
    pub fn as_str(&self) -> (r: Option<&str>)
        ensures
            r.deep_view() == json_str(self.deep_view()),
    {
        match self {
            Json::Str(s) => Some(s.as_str()),
            _ => None,
        }
    }

    /// The text that an object has under a key, where it has a string there.
    pub fn get_str(&self, key: &str) -> (r: Option<&str>)
        ensures
            r.deep_view() == json_get_str(self.deep_view(), key@),
    {
        match self.get(key) {
            Some(found) => found.as_str(),
            None => None,
        }
    }

    /// The number of an integer from zero up.
    pub fn as_u64(&self) -> (r: Option<u64>)
        ensures
            r == json_u64(self.deep_view()),
    {
        match self {
            Json::Number(n) => number_as_u64(n),
            _ => None,
        }
    }

    /// Whether the value is null.
    pub fn is_null(&self) -> (r: bool)
        ensures
            r == (self.deep_view() is Null),
    {
        matches!(self, Json::Null)
    }

    /// Whether the value is an object without entries.
    pub fn is_empty_object(&self) -> (r: bool)
        ensures
            r == (self.deep_view() == JsonView::Object(Map::empty())),
    {
        match self {
            Json::Object(entries) => {
                proof {
                    if entries@.len() > 0 {
                        assert(json_fields(entries@).contains_key(entries@.last().0@));
                    }
                }
                entries.is_empty()
            },
            _ => false,
        }
    }
}

} // verus!
