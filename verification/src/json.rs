//! A JSON document model for request bodies and response payloads.
//!
//! Request bodies are assembled here from plain values; the HTTP layer turns
//! a [`JsonValue`] into wire JSON one node at a time. Floating-point numbers
//! are carried by their IEEE-754 bit pattern (`f64::to_bits`), so the model
//! never computes with them.
use vstd::prelude::*;

verus! {

/// A JSON value. `Int` and `UInt` are integers; `Float` is an `f64` held by
/// its bit pattern; `Object` keeps its fields in the order they were added.
#[derive(Debug)]
pub enum JsonValue {
    Null,
    Bool(bool),
    Int(i64),
    UInt(u64),
    Float(u64),
    Str(String),
    Array(Vec<JsonValue>),
    Object(Vec<(String, JsonValue)>),
}

/// The mathematical meaning of a [`JsonValue`]: integers of either width
/// become one `int`, strings become their characters.
pub enum Json {
    Null,
    Bool(bool),
    Int(int),
    Float(u64),
    Str(Seq<char>),
    Array(Seq<Json>),
    Object(Seq<(Seq<char>, Json)>),
}

impl JsonValue {
    pub open spec fn json(self) -> Json
        decreases self,
    {
        match self {
            JsonValue::Null => Json::Null,
            JsonValue::Bool(b) => Json::Bool(b),
            JsonValue::Int(i) => Json::Int(i as int),
            JsonValue::UInt(u) => Json::Int(u as int),
            JsonValue::Float(bits) => Json::Float(bits),
            JsonValue::Str(s) => Json::Str(s@),
            JsonValue::Array(items) => Json::Array(
                Seq::new(
                    items@.len(),
                    |i: int|
                        if 0 <= i < items@.len() {
                            items@[i].json()
                        } else {
                            Json::Null
                        },
                ),
            ),
            JsonValue::Object(fields) => Json::Object(
                Seq::new(
                    fields@.len(),
                    |i: int|
                        if 0 <= i < fields@.len() {
                            (fields@[i].0@, fields@[i].1.json())
                        } else {
                            (Seq::empty(), Json::Null)
                        },
                ),
            ),
        }
    }
}

impl View for JsonValue {
    type V = Json;

    open spec fn view(&self) -> Json {
        self.json()
    }
}

/// The meaning of a list of array items.
pub open spec fn items_json(items: Seq<JsonValue>) -> Seq<Json> {
    Seq::new(items.len(), |i: int| items[i].json())
}

/// The meaning of a list of object fields.
pub open spec fn fields_json(fields: Seq<(String, JsonValue)>) -> Seq<(Seq<char>, Json)> {
    Seq::new(fields.len(), |i: int| (fields[i].0@, fields[i].1.json()))
}

/// The value of the first field named `key`, if any.
pub open spec fn field_value(fields: Seq<(Seq<char>, Json)>, key: Seq<char>) -> Option<Json>
    decreases fields.len(),
{
    if fields.len() == 0 {
        None
    } else if fields[0].0 == key {
        Some(fields[0].1)
    } else {
        field_value(fields.drop_first(), key)
    }
}

/// A field list of at most one field: none when `value` is `None`.
pub open spec fn optional_field(key: Seq<char>, value: Option<Json>) -> Seq<(Seq<char>, Json)> {
    match value {
        Some(v) => seq![(key, v)],
        None => seq![],
    }
}

/// The JSON string holding the characters of `s`.
pub fn json_str(s: &str) -> (r: JsonValue)
    ensures
        r.json() == Json::Str(s@),
{
    JsonValue::Str(String::from_str(s))
}

/// A JSON object with the given fields, in that order.
pub fn json_object(fields: Vec<(String, JsonValue)>) -> (r: JsonValue)
    ensures
        r.json() == Json::Object(fields_json(fields@)),
{
    let r = JsonValue::Object(fields);
    proof {
        assert(r.json() matches Json::Object(f) && f =~= fields_json(fields@));
    }
    r
}

/// A JSON array with the given items, in that order.
pub fn json_array(items: Vec<JsonValue>) -> (r: JsonValue)
    ensures
        r.json() == Json::Array(items_json(items@)),
{
    let r = JsonValue::Array(items);
    proof {
        assert(r.json() matches Json::Array(a) && a =~= items_json(items@));
    }
    r
}

/// A JSON array of strings.
pub fn json_string_array(items: &Vec<String>) -> (r: JsonValue)
    ensures
        r.json() == Json::Array(Seq::new(items@.len(), |i: int| Json::Str(items@[i]@))),
{
    let mut out: Vec<JsonValue> = Vec::new();
    for i in 0..items.len()
        invariant
            out@.len() == i,
            forall|j: int| 0 <= j < i ==> (#[trigger] out@[j]).json() == Json::Str(items@[j]@),
    {
        out.push(json_str(items[i].as_str()));
    }
    let r = json_array(out);
    proof {
        assert(items_json(out@) =~= Seq::new(items@.len(), |i: int| Json::Str(items@[i]@)));
    }
    r
}

/// A JSON array of strings, from a slice.
pub fn json_string_slice(items: &[String]) -> (r: JsonValue)
    ensures
        r.json() == Json::Array(Seq::new(items@.len(), |i: int| Json::Str(items@[i]@))),
{
    let mut out: Vec<JsonValue> = Vec::new();
    for i in 0..items.len()
        invariant
            out@.len() == i,
            forall|j: int| 0 <= j < i ==> (#[trigger] out@[j]).json() == Json::Str(items@[j]@),
    {
        out.push(json_str(items[i].as_str()));
    }
    let r = json_array(out);
    proof {
        assert(items_json(out@) =~= Seq::new(items@.len(), |i: int| Json::Str(items@[i]@)));
    }
    r
}

/// The JSON form of an optional string.
pub open spec fn opt_str_json(o: Option<&str>) -> Option<Json> {
    match o {
        Some(s) => Some(Json::Str(s@)),
        None => None,
    }
}

/// The JSON form of an optional integer.
pub open spec fn opt_int_json(o: Option<i64>) -> Option<Json> {
    match o {
        Some(n) => Some(Json::Int(n as int)),
        None => None,
    }
}

/// The JSON form of an optional field list, as an object.
pub open spec fn opt_object_json(o: Option<Vec<(String, JsonValue)>>) -> Option<Json> {
    match o {
        Some(f) => Some(Json::Object(fields_json(f@))),
        None => None,
    }
}

/// Appends `key` holding the string `value` when there is one.
pub fn push_optional_str(fields: &mut Vec<(String, JsonValue)>, key: &str, value: Option<&str>)
    ensures
        fields_json(final(fields)@) == fields_json(old(fields)@) + optional_field(key@, opt_str_json(value)),
{
    match value {
        Some(v) => {
            push_field(fields, key, json_str(v));
            proof {
                assert(fields_json(fields@) =~= fields_json(old(fields)@) + seq![(key@, Json::Str(v@))]);
            }
        },
        None => {
            proof {
                assert(fields_json(fields@) =~= fields_json(old(fields)@) + seq![]);
            }
        },
    }
}

/// Appends `key` holding the integer `value` when there is one.
pub fn push_optional_int(fields: &mut Vec<(String, JsonValue)>, key: &str, value: Option<i64>)
    ensures
        fields_json(final(fields)@) == fields_json(old(fields)@) + optional_field(key@, opt_int_json(value)),
{
    match value {
        Some(v) => {
            push_field(fields, key, JsonValue::Int(v));
            proof {
                assert(fields_json(fields@) =~= fields_json(old(fields)@) + seq![(key@, Json::Int(v as int))]);
            }
        },
        None => {
            proof {
                assert(fields_json(fields@) =~= fields_json(old(fields)@) + seq![]);
            }
        },
    }
}

/// Appends `key` holding the object with the given fields when there is one.
pub fn push_optional_object(
    fields: &mut Vec<(String, JsonValue)>,
    key: &str,
    value: Option<Vec<(String, JsonValue)>>,
)
    ensures
        fields_json(final(fields)@) == fields_json(old(fields)@) + optional_field(key@, opt_object_json(value)),
{
    match value {
        Some(v) => {
            let ghost j = Json::Object(fields_json(v@));
            push_field(fields, key, json_object(v));
            proof {
                assert(fields_json(fields@) =~= fields_json(old(fields)@) + seq![(key@, j)]);
            }
        },
        None => {
            proof {
                assert(fields_json(fields@) =~= fields_json(old(fields)@) + seq![]);
            }
        },
    }
}

/// Appends the field `key: value` to an object's field list.
pub fn push_field(fields: &mut Vec<(String, JsonValue)>, key: &str, value: JsonValue)
    ensures
        fields_json(final(fields)@) == fields_json(old(fields)@).push((key@, value.json())),
{
    fields.push((String::from_str(key), value));
    proof {
        assert(fields_json(fields@) =~= fields_json(old(fields)@).push((key@, value.json())));
    }
}

// ── Laws of the field and item lists ──

/// Looking a key up in two field lists one after the other finds it in the
/// first list when it is there, and in the second otherwise.
pub proof fn lemma_field_value_concat(
    f: Seq<(Seq<char>, Json)>,
    g: Seq<(Seq<char>, Json)>,
    key: Seq<char>,
)
    ensures
        field_value(f + g, key) == match field_value(f, key) {
            Some(v) => Some(v),
            None => field_value(g, key),
        },
    decreases f.len(),
{
    if f.len() == 0 {
        assert(f + g =~= g);
    } else {
        assert((f + g).drop_first() =~= f.drop_first() + g);
        assert((f + g)[0] == f[0]);
        lemma_field_value_concat(f.drop_first(), g, key);
    }
}

/// A list of one field holds exactly that field.
pub proof fn lemma_field_value_single(k: Seq<char>, v: Json, key: Seq<char>)
    ensures
        field_value(seq![(k, v)], key) == (if k == key {
            Some(v)
        } else {
            None::<Json>
        }),
{
    let f = seq![(k, v)];
    assert(f.drop_first() =~= Seq::<(Seq<char>, Json)>::empty());
    assert(field_value(f.drop_first(), key) is None);
    assert(f[0] == (k, v));
}

/// An optional field is found exactly when it is present, with its value.
pub proof fn lemma_optional_field(k: Seq<char>, value: Option<Json>, key: Seq<char>)
    ensures
        field_value(optional_field(k, value), key) == (if k == key {
            value
        } else {
            None::<Json>
        }),
{
    match value {
        Some(v) => lemma_field_value_single(k, v, key),
        None => {},
    }
}

/// The meaning of an item list keeps every item, in order.
pub proof fn lemma_items_json(items: Seq<JsonValue>)
    ensures
        items_json(items).len() == items.len(),
        forall|i: int| 0 <= i < items.len() ==> #[trigger] items_json(items)[i] == items[i].json(),
{
}

/// The meaning of a field list keeps every field, in order, with its name.
pub proof fn lemma_fields_json(fields: Seq<(String, JsonValue)>)
    ensures
        fields_json(fields).len() == fields.len(),
        forall|i: int|
            0 <= i < fields.len() ==> #[trigger] fields_json(fields)[i] == (
            fields[i].0@,
            fields[i].1.json(),
            ),
{
}

/// An optional string, integer or object is present exactly when given,
/// and then holds what was given.
pub proof fn lemma_optional_values(s: Option<&str>, n: Option<i64>, o: Option<Vec<(String, JsonValue)>>)
    ensures
        opt_str_json(s) is Some <==> s is Some,
        s matches Some(t) ==> opt_str_json(s) == Some(Json::Str(t@)),
        opt_int_json(n) is Some <==> n is Some,
        n matches Some(k) ==> opt_int_json(n) == Some(Json::Int(k as int)),
        opt_object_json(o) is Some <==> o is Some,
        o matches Some(f) ==> opt_object_json(o) == Some(Json::Object(fields_json(f@))),
{
}

/// The value of the first field named `key` of `j`, when `j` is an object.
pub open spec fn member(j: Json, key: Seq<char>) -> Option<Json> {
    match j {
        Json::Object(fields) => field_value(fields, key),
        _ => None,
    }
}

/// `j` is an array holding the strings of `strs`, one item per string, in
/// order.
pub open spec fn is_string_array(j: Option<Json>, strs: Seq<String>) -> bool {
    match j {
        Some(Json::Array(a)) => a.len() == strs.len() && forall|i: int|
            0 <= i < a.len() ==> #[trigger] a[i] == Json::Str(strs[i]@),
        _ => false,
    }
}

/// Looking a key up in four field lists one after the other finds it in the
/// first of them that has it.
pub proof fn lemma_field_value_concat4(
    a: Seq<(Seq<char>, Json)>,
    b: Seq<(Seq<char>, Json)>,
    c: Seq<(Seq<char>, Json)>,
    d: Seq<(Seq<char>, Json)>,
    key: Seq<char>,
)
    ensures
        field_value(a + b + c + d, key) == match field_value(a, key) {
            Some(v) => Some(v),
            None => match field_value(b, key) {
                Some(v) => Some(v),
                None => match field_value(c, key) {
                    Some(v) => Some(v),
                    None => field_value(d, key),
                },
            },
        },
{
    lemma_field_value_concat(a + b + c, d, key);
    lemma_field_value_concat(a + b, c, key);
    lemma_field_value_concat(a, b, key);
}

/// The meaning of each kind of value: scalars keep their value (both integer
/// widths become one integer), strings their characters, arrays every item
/// in order, objects every field in order.
pub proof fn lemma_json_meaning(v: JsonValue)
    ensures
        v matches JsonValue::Null ==> v.json() == Json::Null,
        v matches JsonValue::Bool(b) ==> v.json() == Json::Bool(b),
        v matches JsonValue::Int(i) ==> v.json() == Json::Int(i as int),
        v matches JsonValue::UInt(u) ==> v.json() == Json::Int(u as int),
        v matches JsonValue::Float(bits) ==> v.json() == Json::Float(bits),
        v matches JsonValue::Str(s) ==> v.json() == Json::Str(s@),
        v matches JsonValue::Array(items) ==> v.json() == Json::Array(items_json(items@)),
        v matches JsonValue::Object(fields) ==> v.json() == Json::Object(fields_json(fields@)),
{
    match v {
        JsonValue::Array(items) => {
            assert(v.json() matches Json::Array(a) && a =~= items_json(items@));
        },
        JsonValue::Object(fields) => {
            assert(v.json() matches Json::Object(f) && f =~= fields_json(fields@));
        },
        _ => {},
    }
}

} // verus!
