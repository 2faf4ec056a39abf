//! Reading JSON one layer at a time.
//!
//! A document is read by its outermost value only: a scalar is handed out
//! whole, an array as the texts of its items, an object as its keys with the
//! texts of their values. Walking further down means reading such a text
//! again, so every step of a walk is made by verified code.

use serde_json::Value;
use vstd::prelude::*;
use crate::text::{extract_json_object, object_text, same_text};

verus! {

/// A JSON number, as the two readings the library asks for.
#[derive(Clone, Copy, Debug, PartialEq, Eq)]
pub struct JsonNumber {
    /// The number as an unsigned integer, where it is one.
    pub unsigned: Option<u64>,
    /// The bit pattern of the number read as a double.
    pub double_bits: Option<u64>,
}

/// The outermost value of a JSON document.
#[derive(Debug)]
pub enum JsonLayer {
    Null,
    Bool(bool),
    Number(JsonNumber),
    Text(String),
    /// The JSON text of each item, in order.
    Array(Vec<String>),
    /// Each key with the JSON text of its value.
    Object(Vec<(String, String)>),
}

/// The mathematical content of a `JsonLayer`.
pub enum JsonLayerModel {
    Null,
    Bool(bool),
    Number(JsonNumber),
    Text(Seq<char>),
    Array(Seq<Seq<char>>),
    Object(Seq<(Seq<char>, Seq<char>)>),
}

impl View for JsonLayer {
    type V = JsonLayerModel;

    open spec fn view(&self) -> JsonLayerModel {
        match self {
            JsonLayer::Null => JsonLayerModel::Null,
            JsonLayer::Bool(b) => JsonLayerModel::Bool(*b),
            JsonLayer::Number(n) => JsonLayerModel::Number(*n),
            JsonLayer::Text(t) => JsonLayerModel::Text(t@),
            JsonLayer::Array(items) => JsonLayerModel::Array(items.deep_view()),
            JsonLayer::Object(members) => JsonLayerModel::Object(members.deep_view()),
        }
    }
}

impl DeepView for JsonLayer {
    type V = JsonLayerModel;

    open spec fn deep_view(&self) -> JsonLayerModel {
        self@
    }
}

/// The outermost value of the JSON document `text`, or `None` where `text`
/// is not one JSON document.
pub uninterp spec fn json_layer(text: Seq<char>) -> Option<JsonLayerModel>;

/// Parses `text` with `serde_json::from_str` into a `serde_json::Value` and
/// hands out its outermost layer: scalars by their accessors (`as_u64`,
/// `as_f64`), each array item and each member value as its own JSON text
/// (`Value`'s `Display`). The contract only names the outcome: the same text
/// always gives the same layer.
#[verifier::external_body]
pub(crate) fn read_layer(text: &str) -> (layer: Option<JsonLayer>)
    ensures
        layer.deep_view() == json_layer(text@),
{
    Some(match serde_json::from_str::<Value>(text).ok()? {
        Value::Null => JsonLayer::Null,
        Value::Bool(b) => JsonLayer::Bool(b),
        Value::Number(n) => JsonLayer::Number(
            JsonNumber { unsigned: n.as_u64(), double_bits: n.as_f64().map(|d| d.to_bits()) },
        ),
        Value::String(s) => JsonLayer::Text(s),
        Value::Array(items) => JsonLayer::Array(items.iter().map(|v| v.to_string()).collect()),
        Value::Object(members) => JsonLayer::Object(
            members.iter().map(|(k, v)| (k.clone(), v.to_string())).collect(),
        ),
    })
}

/// The position of the first member of `members` at or after `from` whose key
/// is `key`, or `members.len()` when there is none.
pub open spec fn member_index(
    members: Seq<(Seq<char>, Seq<char>)>,
    key: Seq<char>,
    from: int,
) -> int
    decreases members.len() - from,
{
    if from >= members.len() {
        members.len() as int
    } else if members[from].0 == key {
        from
    } else {
        member_index(members, key, from + 1)
    }
}

/// The JSON text of the value that `members` holds under `key`: that of the
/// first member with this key.
pub open spec fn member_raw(members: Seq<(Seq<char>, Seq<char>)>, key: Seq<char>) -> Option<
    Seq<char>,
> {
    let at = member_index(members, key, 0);
    if at < members.len() {
        Some(members[at].1)
    } else {
        None
    }
}

/// The members of a layer that is an object; no members for anything else.
pub open spec fn members_in(layer: Option<JsonLayerModel>) -> Seq<(Seq<char>, Seq<char>)> {
    match layer {
        Some(JsonLayerModel::Object(members)) => members,
        _ => Seq::empty(),
    }
}

/// The item texts of a layer that is an array.
pub open spec fn items_in(layer: Option<JsonLayerModel>) -> Option<Seq<Seq<char>>> {
    match layer {
        Some(JsonLayerModel::Array(items)) => Some(items),
        _ => None,
    }
}

/// The characters of a layer that is a string.
pub open spec fn text_in(layer: Option<JsonLayerModel>) -> Option<Seq<char>> {
    match layer {
        Some(JsonLayerModel::Text(t)) => Some(t),
        _ => None,
    }
}

/// The value of a layer that is an unsigned integer.
pub open spec fn unsigned_in(layer: Option<JsonLayerModel>) -> Option<u64> {
    match layer {
        Some(JsonLayerModel::Number(n)) => n.unsigned,
        _ => None,
    }
}

/// The double's bit pattern of a layer that is a number.
pub open spec fn double_bits_in(layer: Option<JsonLayerModel>) -> Option<u64> {
    match layer {
        Some(JsonLayerModel::Number(n)) => n.double_bits,
        _ => None,
    }
}

/// The layer of the value that `members` holds under `key`.
pub open spec fn field_layer(members: Seq<(Seq<char>, Seq<char>)>, key: Seq<char>) -> Option<
    JsonLayerModel,
> {
    match member_raw(members, key) {
        Some(raw) => json_layer(raw),
        None => None,
    }
}

/// The JSON text of the value that `members` holds under `key`.
pub fn find_member<'a>(members: &'a Vec<(String, String)>, key: &str) -> (raw: Option<&'a String>)
    ensures
        raw.deep_view() == member_raw(members.deep_view(), key@),
{
    let mut at: usize = 0;
    while at < members.len()
        invariant
            at <= members.len(),
            member_index(members.deep_view(), key@, 0) == member_index(
                members.deep_view(),
                key@,
                at as int,
            ),
        decreases members.len() - at,
    {
        if same_text(members[at].0.as_str(), key) {
            return Some(&members[at].1);
        }
        at += 1;
    }
    None
}

/// The members of the JSON object `text`; none where `text` is not a JSON
/// object.
pub fn read_members(text: &str) -> (members: Vec<(String, String)>)
    ensures
        members.deep_view() == members_in(json_layer(text@)),
{
    match read_layer(text) {
        Some(JsonLayer::Object(members)) => members,
        _ => {
            let none: Vec<(String, String)> = Vec::new();
            assert(none.deep_view() =~= Seq::empty());
            none
        },
    }
}

/// The layer of the value under `key`.
pub fn read_field(members: &Vec<(String, String)>, key: &str) -> (layer: Option<JsonLayer>)
    ensures
        layer.deep_view() == field_layer(members.deep_view(), key@),
{
    match find_member(members, key) {
        Some(raw) => read_layer(raw.as_str()),
        None => None,
    }
}

/// The string under `key`, where the value there is a string.
pub fn field_text(members: &Vec<(String, String)>, key: &str) -> (text: Option<String>)
    ensures
        text.deep_view() == text_in(field_layer(members.deep_view(), key@)),
{
    match read_field(members, key) {
        Some(JsonLayer::Text(t)) => Some(t),
        _ => None,
    }
}

/// The unsigned integer under `key`, where the value there is one.
pub fn field_unsigned(members: &Vec<(String, String)>, key: &str) -> (number: Option<u64>)
    ensures
        number == unsigned_in(field_layer(members.deep_view(), key@)),
{
    match read_field(members, key) {
        Some(JsonLayer::Number(n)) => n.unsigned,
        _ => None,
    }
}

/// The bit pattern, as a double, of the number under `key`.
pub fn field_double_bits(members: &Vec<(String, String)>, key: &str) -> (bits: Option<u64>)
    ensures
        bits == double_bits_in(field_layer(members.deep_view(), key@)),
{
    match read_field(members, key) {
        Some(JsonLayer::Number(n)) => n.double_bits,
        _ => None,
    }
}

/// The item texts of the array under `key`, where the value there is an
/// array.
pub fn field_items(members: &Vec<(String, String)>, key: &str) -> (items: Option<Vec<String>>)
    ensures
        items.deep_view() == items_in(field_layer(members.deep_view(), key@)),
{
    match read_field(members, key) {
        Some(JsonLayer::Array(items)) => Some(items),
        _ => None,
    }
}

/// Whether the answer holds a JSON object between its first `{` and its
/// last `}`.
pub open spec fn holds_json_object(completion: Seq<char>) -> bool {
    object_text(completion) matches Some(object) && json_layer(object) matches Some(
        JsonLayerModel::Object(_),
    )
}

/// The members of the JSON object in the answer; none where it holds no
/// JSON object.
pub open spec fn answer_members(completion: Seq<char>) -> Seq<(Seq<char>, Seq<char>)> {
    match object_text(completion) {
        Some(object) => members_in(json_layer(object)),
        None => Seq::empty(),
    }
}

/// Reads the members of the JSON object that stands between the first `{`
/// and the last `}` of an answer; none where the answer holds no such
/// object.
pub fn read_answer_members(completion: &str) -> (members: Vec<(String, String)>)
    ensures
        members.deep_view() == answer_members(completion@),
{
    match extract_json_object(completion) {
        Some(object) => read_members(object.as_str()),
        None => {
            let none: Vec<(String, String)> = Vec::new();
            assert(none.deep_view() =~= Seq::empty());
            none
        },
    }
}

} // verus!
