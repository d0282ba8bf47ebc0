//! JSON, as far as the wallet's storage needs it: the members of an object
//! and the elements of an array, read and written by `serde_json`.

use vstd::prelude::*;
use vstd::string::*;
use serde_json::Value;

verus! {

/// What was found under a name in a JSON text.
#[derive(Debug, Clone)]
pub enum JsonField {
    /// The text is no JSON.
    Invalid,
    /// The text is no object, or the object has no such member.
    Missing,
    /// The member is `null`.
    Null,
    /// The member is a string.
    Text(String),
    /// The member is a number that fits in 64 bits without a sign.
    Number(u64),
    /// The member is an object: its members, each with its name and its
    /// value as JSON text.
    Members(Vec<(String, String)>),
    /// The member is anything else.
    Other,
}

/// What was found under a name, as plain values.
pub enum JsonFieldView {
    Invalid,
    Missing,
    Null,
    Text(Seq<char>),
    Number(u64),
    Members(Seq<(Seq<char>, Seq<char>)>),
    Other,
}

/// Pairs of texts as plain values.
pub open spec fn pairs_view(pairs: Seq<(String, String)>) -> Seq<(Seq<char>, Seq<char>)> {
    Seq::new(pairs.len(), |i: int| (pairs[i].0@, pairs[i].1@))
}

/// Texts as plain values.
pub open spec fn texts_view(texts: Seq<String>) -> Seq<Seq<char>> {
    Seq::new(texts.len(), |i: int| texts[i]@)
}

impl View for JsonField {
    type V = JsonFieldView;

    open spec fn view(&self) -> JsonFieldView {
        match *self {
            JsonField::Invalid => JsonFieldView::Invalid,
            JsonField::Missing => JsonFieldView::Missing,
            JsonField::Null => JsonFieldView::Null,
            JsonField::Text(s) => JsonFieldView::Text(s@),
            JsonField::Number(n) => JsonFieldView::Number(n),
            JsonField::Members(m) => JsonFieldView::Members(pairs_view(m@)),
            JsonField::Other => JsonFieldView::Other,
        }
    }
}

/// A value to be written as the member of an object.
#[derive(Debug, Clone)]
pub enum JsonValue {
    Null,
    Text(String),
    Number(u64),
    /// A value that is JSON text already; what is no JSON is written as
    /// `null`.
    Raw(String),
}

/// A value to be written, as plain values.
pub enum JsonValueView {
    Null,
    Text(Seq<char>),
    Number(u64),
    Raw(Seq<char>),
}

impl View for JsonValue {
    type V = JsonValueView;

    open spec fn view(&self) -> JsonValueView {
        match *self {
            JsonValue::Null => JsonValueView::Null,
            JsonValue::Text(s) => JsonValueView::Text(s@),
            JsonValue::Number(n) => JsonValueView::Number(n),
            JsonValue::Raw(s) => JsonValueView::Raw(s@),
        }
    }
}

/// Members to be written, as plain values.
pub open spec fn members_view(members: Seq<(String, JsonValue)>) -> Seq<(Seq<char>, JsonValueView)> {
    Seq::new(members.len(), |i: int| (members[i].0@, members[i].1@))
}

/// What a JSON text holds under a name.
pub uninterp spec fn json_member(text: Seq<char>, name: Seq<char>) -> JsonFieldView;

/// The elements of a JSON text that is an array, each as JSON text; `None`
/// where the text is no array.
pub uninterp spec fn json_elements(text: Seq<char>) -> Option<Seq<Seq<char>>>;

/// The JSON text of an object with given members.
pub uninterp spec fn json_object_text(members: Seq<(Seq<char>, JsonValueView)>) -> Seq<char>;

/// The JSON text of an array with given elements, each JSON text itself.
pub uninterp spec fn json_array_text(elements: Seq<Seq<char>>) -> Seq<char>;

/// `serde_json::from_str` and `Value::get`: what the text holds under the
/// name, which depends on the two alone. Believed of the `serde_json`
/// crate, not proved.
#[verifier::external_body]
pub(crate) fn read_member(text: &str, name: &str) -> (field: JsonField)
    ensures
        field@ == json_member(text@, name@),
{
    let value: Value = match serde_json::from_str(text) {
        Ok(v) => v,
        Err(_) => return JsonField::Invalid,
    };
    match value.get(name) {
        None => JsonField::Missing,
        Some(Value::Null) => JsonField::Null,
        Some(Value::String(s)) => JsonField::Text(s.clone()),
        Some(Value::Number(n)) => n.as_u64().map_or(JsonField::Other, JsonField::Number),
        Some(Value::Object(m)) => JsonField::Members(m.iter().map(|(k, v)| (k.clone(), v.to_string())).collect()),
        Some(_) => JsonField::Other,
    }
}

/// `serde_json::from_str` on an array: its elements, each as JSON text,
/// which depend on the text alone. Believed of the `serde_json` crate, not
/// proved.
#[verifier::external_body]
pub(crate) fn read_elements(text: &str) -> (elements: Option<Vec<String>>)
    ensures
        elements is Some <==> json_elements(text@) is Some,
        elements is Some ==> Some(texts_view(elements.unwrap()@)) == json_elements(text@),
{
    let items: Vec<Value> = serde_json::from_str(text).ok()?;
    Some(items.iter().map(|v| v.to_string()).collect())
}

/// `Value::Object` and its `to_string`: the JSON text of an object with the
/// given members, which depends on them alone. Believed of the
/// `serde_json` crate, not proved.
#[verifier::external_body]
pub(crate) fn write_object(members: &Vec<(String, JsonValue)>) -> (text: String)
    ensures
        text@ == json_object_text(members_view(members@)),
{
    let mut map = serde_json::Map::new();
    for (name, value) in members {
        let v = match value {
            JsonValue::Null => Value::Null,
            JsonValue::Text(s) => Value::String(s.clone()),
            JsonValue::Number(n) => Value::from(*n),
            JsonValue::Raw(s) => serde_json::from_str(s).unwrap_or(Value::Null),
        };
        map.insert(name.clone(), v);
    }
    Value::Object(map).to_string()
}

/// `Value::Array` and its `to_string`: the JSON text of an array with the
/// given elements, which depends on them alone; an element that is no JSON
/// is written as `null`. Believed of the `serde_json` crate, not proved.
#[verifier::external_body]
pub(crate) fn write_array(elements: &Vec<String>) -> (text: String)
    ensures
        text@ == json_array_text(texts_view(elements@)),
{
    let items = elements.iter().map(|s| serde_json::from_str(s).unwrap_or(Value::Null)).collect();
    Value::Array(items).to_string()
}

/// The text under a name, where the member is a string.
pub open spec fn text_member(text: Seq<char>, name: Seq<char>) -> Option<Seq<char>> {
    match json_member(text, name) {
        JsonFieldView::Text(s) => Some(s),
        _ => None,
    }
}

/// The text under a name, where the member is a string.
pub fn read_text(text: &str, name: &str) -> (r: Option<String>)
    ensures
        r is Some <==> text_member(text@, name@) is Some,
        r is Some ==> Some(r.unwrap()@) == text_member(text@, name@),
{
    match read_member(text, name) {
        JsonField::Text(s) => Some(s),
        _ => None,
    }
}

/// A text that may be absent, as a value to be written: `null` in its
/// absence.
pub open spec fn text_or_null(text: Option<Seq<char>>) -> JsonValueView {
    match text {
        Some(t) => JsonValueView::Text(t),
        None => JsonValueView::Null,
    }
}

} // verus!
