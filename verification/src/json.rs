//! A JSON value model and its text form.
//!
//! The history store holds one JSON document. The library models a document
//! as [`Json`], a plain tree of values, and states every codec contract over
//! its mathematical form [`JsonModel`]. Turning text into a tree and a tree
//! into text is the work of `serde_json`, reached through the two trusted
//! functions at the bottom; both results are deterministic in their input
//! and are named by `json_parse` and `json_dump`.

use vstd::prelude::*;

verus! {

/// A JSON value.
///
/// Numbers are carried as their decimal rendering: the codec never inspects
/// or produces one, it only keeps them apart from the shapes it decodes.
#[derive(Debug)]
pub enum Json {
    Null,
    Bool(bool),
    Number(String),
    Str(String),
    Array(Vec<Json>),
    Object(Vec<(String, Json)>),
}

/// The mathematical value of a [`Json`] tree.
#[verifier::ext_equal]
pub enum JsonModel {
    Null,
    Bool(bool),
    Number(Seq<char>),
    Str(Seq<char>),
    Array(Seq<JsonModel>),
    Object(Seq<(Seq<char>, JsonModel)>),
}

/// The mathematical value of a [`Json`] tree: each string by its view, each
/// list element in place.
pub open spec fn json_model(j: Json) -> JsonModel
    decreases j,
{
    match j {
        Json::Null => JsonModel::Null,
        Json::Bool(b) => JsonModel::Bool(b),
        Json::Number(s) => JsonModel::Number(s@),
        Json::Str(s) => JsonModel::Str(s@),
        Json::Array(items) => JsonModel::Array(items_model(items@)),
        Json::Object(fields) => JsonModel::Object(fields_model(fields@)),
    }
}

/// The element-wise mathematical value of a list of JSON values. (The
/// in-range guard keeps the recursion well founded; it does not change the
/// constructed sequence.)
pub open spec fn items_model(items: Seq<Json>) -> Seq<JsonModel>
    decreases items,
{
    Seq::new(
        items.len(),
        |i: int|
            if 0 <= i < items.len() {
                json_model(items[i])
            } else {
                JsonModel::Null
            },
    )
}

/// The element-wise mathematical value of an object's field list.
pub open spec fn fields_model(fields: Seq<(String, Json)>) -> Seq<(Seq<char>, JsonModel)>
    decreases fields,
{
    Seq::new(
        fields.len(),
        |i: int|
            (
                fields[i].0@,
                if 0 <= i < fields.len() {
                    json_model(fields[i].1)
                } else {
                    JsonModel::Null
                },
            ),
    )
}

impl View for Json {
    type V = JsonModel;

    open spec fn view(&self) -> JsonModel {
        json_model(*self)
    }
}

impl DeepView for Json {
    type V = JsonModel;

    open spec fn deep_view(&self) -> JsonModel {
        self.view()
    }
}

#[verifier::external_type_specification]
#[verifier::external_body]
pub struct ExValue(serde_json::Value);

/// The [`Json`] tree that JSON text parses to, or `None` when the text is
/// not valid JSON.
pub uninterp spec fn json_parse(s: Seq<char>) -> Option<JsonModel>;

/// The JSON text that a [`Json`] tree serializes to.
pub uninterp spec fn json_dump(v: JsonModel) -> Seq<char>;

/// Relies on `serde_json::Value`: one arm per variant, moving the payload
/// into the library's own tree (numbers as their decimal rendering, object
/// fields in the map's deterministic key order).
#[verifier::external_body]
fn value_to_json(v: &serde_json::Value) -> Json {
    match v {
        serde_json::Value::Null => Json::Null,
        serde_json::Value::Bool(b) => Json::Bool(*b),
        serde_json::Value::Number(n) => Json::Number(n.to_string()),
        serde_json::Value::String(s) => Json::Str(s.clone()),
        serde_json::Value::Array(a) => Json::Array(a.iter().map(value_to_json).collect()),
        serde_json::Value::Object(m) => Json::Object(
            m.iter().map(|(k, x)| (k.clone(), value_to_json(x))).collect(),
        ),
    }
}

/// Relies on `serde_json::Value` and `serde_json::Number`: one arm per
/// variant, moving the payload back; a number rendering that does not parse
/// back becomes `Null` rather than failing.
#[verifier::external_body]
fn json_to_value(j: &Json) -> serde_json::Value {
    match j {
        Json::Null => serde_json::Value::Null,
        Json::Bool(b) => serde_json::Value::Bool(*b),
        Json::Number(n) => match serde_json::from_str::<serde_json::Number>(n) {
            Ok(num) => serde_json::Value::Number(num),
            Err(_) => serde_json::Value::Null,
        },
        Json::Str(s) => serde_json::Value::String(s.clone()),
        Json::Array(items) => serde_json::Value::Array(items.iter().map(json_to_value).collect()),
        Json::Object(fields) => serde_json::Value::Object(
            fields.iter().map(|(k, v)| (k.clone(), json_to_value(v))).collect(),
        ),
    }
}

/// Relies on `serde_json::from_str`: parsing JSON text is a function of the
/// text alone; it fails on text the parser does not accept as a JSON
/// document.
#[verifier::external_body]
pub(crate) fn parse_json(s: &str) -> (r: Option<Json>)
    ensures
        r is Some <==> json_parse(s@) is Some,
        r is Some ==> r->0@ == json_parse(s@)->0,
{
    match serde_json::from_str::<serde_json::Value>(s) {
        Ok(v) => Some(value_to_json(&v)),
        Err(_) => None,
    }
}

/// Relies on `serde_json::to_string`: serializing a JSON value is a function
/// of the value alone, and cannot fail for a value tree.
#[verifier::external_body]
pub(crate) fn dump_json(j: &Json) -> (r: String)
    ensures
        r@ == json_dump(j@),
{
    match serde_json::to_string(&json_to_value(j)) {
        Ok(s) => s,
        Err(_) => String::new(),
    }
}

} // verus!
