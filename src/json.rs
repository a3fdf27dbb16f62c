//! JSON values as this crate reads and writes them. The values themselves
//! are `serde_json`'s; `JsonView` is what the contracts see of them.

use vstd::prelude::*;

verus! {

/// The contents of a JSON value.
pub enum JsonView {
    Null,
    Bool(bool),
    /// A number that serde_json holds as an integer (a `u64` or an `i64`).
    Int(int),
    /// A number that serde_json holds as an `f64`, such as `256.0`, given by
    /// the bits of that `f64`.
    Float(u64),
    Str(Seq<char>),
    Array(Seq<JsonView>),
    Object(Map<Seq<char>, JsonView>),
}

#[verifier::external_type_specification]
#[verifier::external_body]
pub struct ExValue(serde_json::Value);

#[verifier::external_type_specification]
#[verifier::external_body]
#[verifier::reject_recursive_types(K)]
#[verifier::reject_recursive_types(V)]
pub struct ExMap<K, V>(serde_json::Map<K, V>);

#[verifier::external_type_specification]
#[verifier::external_body]
pub struct ExError(serde_json::Error);

/// What a `serde_json::Value` holds.
pub uninterp spec fn json_of(v: serde_json::Value) -> JsonView;

/// The members that a `serde_json::Map` holds, by key.
pub uninterp spec fn members_of(m: serde_json::Map<String, serde_json::Value>) -> Map<Seq<char>, JsonView>;

/// The members of an empty object.
pub open spec fn no_members() -> Map<Seq<char>, JsonView> {
    Map::empty()
}

/// What `serde_json::from_str` reads from a text: `None` where the text is
/// no JSON document.
pub uninterp spec fn parsed_json(text: Seq<char>) -> Option<JsonView>;

/// The text that `serde_json::to_string` writes for a value.
pub uninterp spec fn json_text(v: JsonView) -> Seq<char>;

/// Relies on `serde_json::from_str` into a `Value`: it reads a whole JSON
/// document, and fails where the text is none.
#[verifier::external_body]
pub(crate) fn parse_json(text: &str) -> (r: Result<serde_json::Value, serde_json::Error>)
    ensures
        match r {
            Ok(v) => parsed_json(text@) == Some(json_of(v)),
            Err(_) => parsed_json(text@) is None,
        },
{
    serde_json::from_str(text)
}

/// Relies on `serde_json::to_string` on a `Value`: the value's JSON text.
/// It fails only where a `Serialize` impl fails or a map has keys that are
/// not strings, and `Value`'s impl does neither, so for a `Value` it
/// succeeds.
#[verifier::external_body]
pub(crate) fn json_to_text(v: &serde_json::Value) -> (r: Result<String, serde_json::Error>)
    ensures
        r is Ok,
        r->Ok_0@ == json_text(json_of(*v)),
{
    serde_json::to_string(v)
}

/// Relies on `serde_json::Value::get` with a string key: the member of an
/// object under that key, and nothing for a value that is no object.
#[verifier::external_body]
pub(crate) fn json_member<'a>(v: &'a serde_json::Value, key: &str) -> (r: Option<&'a serde_json::Value>)
    ensures
        match json_of(*v) {
            JsonView::Object(m) => match r {
                Some(x) => m.contains_key(key@) && json_of(*x) == m[key@],
                None => !m.contains_key(key@),
            },
            _ => r is None,
        },
{
    v.get(key)
}

/// Relies on `serde_json::Value::String`: a string value.
#[verifier::external_body]
pub(crate) fn json_string(s: String) -> (r: serde_json::Value)
    ensures
        json_of(r) == JsonView::Str(s@),
{
    serde_json::Value::String(s)
}

/// Relies on `serde_json::Value::Array`: an array of these items, in order.
#[verifier::external_body]
pub(crate) fn json_array(items: Vec<serde_json::Value>) -> (r: serde_json::Value)
    ensures
        json_of(r) == JsonView::Array(items@.map_values(|x: serde_json::Value| json_of(x))),
{
    serde_json::Value::Array(items)
}

/// Relies on `serde_json::Value::Object`: an object with these members.
#[verifier::external_body]
pub(crate) fn json_object(m: serde_json::Map<String, serde_json::Value>) -> (r: serde_json::Value)
    ensures
        json_of(r) == JsonView::Object(members_of(m)),
{
    serde_json::Value::Object(m)
}

/// Relies on `serde_json::Map::new`: a map with no members.
pub assume_specification[ serde_json::Map::<String, serde_json::Value>::new ]() -> (r: serde_json::Map<String, serde_json::Value>)
    ensures
        members_of(r) == no_members(),
;

/// Relies on `serde_json::Map::insert`: the key now holds the value, and the
/// other members stay.
pub assume_specification[ serde_json::Map::<String, serde_json::Value>::insert ](
    m: &mut serde_json::Map<String, serde_json::Value>,
    k: String,
    v: serde_json::Value,
) -> (r: Option<serde_json::Value>)
    ensures
        members_of(*final(m)) == members_of(*old(m)).insert(k@, json_of(v)),
;

/// Relies on `serde_json::Value::as_str`: the text of a string value.
pub assume_specification[ serde_json::Value::as_str ](v: &serde_json::Value) -> (r: Option<&str>)
    ensures
        match json_of(*v) {
            JsonView::Str(s) => r is Some && r->Some_0@ == s,
            _ => r is None,
        },
;

/// Relies on `serde_json::Value::as_u64`: an integer that fits in a `u64`.
pub assume_specification[ serde_json::Value::as_u64 ](v: &serde_json::Value) -> (r: Option<u64>)
    ensures
        match json_of(*v) {
            JsonView::Int(i) => if 0 <= i <= u64::MAX {
                r == Some(i as u64)
            } else {
                r is None
            },
            _ => r is None,
        },
;

/// Relies on `serde_json::Value::as_array`: the items of an array value.
pub assume_specification[ serde_json::Value::as_array ](v: &serde_json::Value) -> (r: Option<&Vec<serde_json::Value>>)
    ensures
        match json_of(*v) {
            JsonView::Array(items) => r is Some && r->Some_0@.map_values(|x: serde_json::Value| json_of(x)) == items,
            _ => r is None,
        },
;

/// Relies on `serde_json::Value::is_object`.
pub assume_specification[ serde_json::Value::is_object ](v: &serde_json::Value) -> (r: bool)
    ensures
        r == (json_of(*v) is Object),
;


/// The member of an object under a key.
pub open spec fn member(j: JsonView, key: Seq<char>) -> Option<JsonView> {
    match j {
        JsonView::Object(m) => if m.contains_key(key) {
            Some(m[key])
        } else {
            None
        },
        _ => None,
    }
}

/// The text of an object's string member under a key.
pub open spec fn str_member(j: JsonView, key: Seq<char>) -> Option<Seq<char>> {
    match member(j, key) {
        Some(JsonView::Str(s)) => Some(s),
        _ => None,
    }
}

/// The text of an object's string member under a key, if it has one.
pub fn member_text(v: &serde_json::Value, key: &str) -> (r: Option<String>)
    ensures
        match r {
            Some(s) => str_member(json_of(*v), key@) == Some(s@),
            None => str_member(json_of(*v), key@) is None,
        },
{
    match json_member(v, key) {
        Some(x) => match x.as_str() {
            Some(s) => Some(s.to_owned()),
            None => None,
        },
        None => None,
    }
}

} // verus!
