//! Fields read out of the JSON documents that remote version sources
//! serve. A missing field, or one of another type, gives `None`.
use vstd::prelude::*;
use crate::status::opt_view;

verus! {

#[verifier::external_type_specification]
#[verifier::external_body]
pub struct ExJsonValue(serde_json::Value);

/// What a JSON value holds, variant for variant as `serde_json::Value`
/// has it; the digits of a number are left out, as no lookup reads them.
pub enum JsonModel {
    Null,
    Bool(bool),
    Number,
    Text(Seq<char>),
    Array(Seq<JsonModel>),
    Object(Map<Seq<char>, JsonModel>),
}

/// What a `serde_json::Value` holds.
pub uninterp spec fn json_model(v: serde_json::Value) -> JsonModel;

/// The document that `serde_json::from_str` reads from `text`, or `None`
/// when `text` is not a JSON document.
pub uninterp spec fn json_of(text: Seq<char>) -> Option<JsonModel>;

/// The member `key` of an object; `None` for a missing key or a value that
/// is not an object.
pub open spec fn member_of(j: JsonModel, key: Seq<char>) -> Option<JsonModel> {
    match j {
        JsonModel::Object(m) => if m.contains_key(key) {
            Some(m[key])
        } else {
            None
        },
        _ => None,
    }
}

/// Element `i` of an array; `None` past its end or for a value that is not
/// an array.
pub open spec fn element_of(j: JsonModel, i: nat) -> Option<JsonModel> {
    match j {
        JsonModel::Array(s) => if i < s.len() {
            Some(s[i as int])
        } else {
            None
        },
        _ => None,
    }
}

/// The text of a JSON string; `None` for any other value.
pub open spec fn text_of(j: JsonModel) -> Option<Seq<char>> {
    match j {
        JsonModel::Text(t) => Some(t),
        _ => None,
    }
}

/// The text at `results[0].name` of a tag listing.
pub open spec fn tag_name_in(doc: Option<JsonModel>) -> Option<Seq<char>> {
    match doc {
        Some(d) => match member_of(d, "results"@) {
            Some(results) => match element_of(results, 0) {
                Some(first) => match member_of(first, "name"@) {
                    Some(name) => text_of(name),
                    None => None,
                },
                None => None,
            },
            None => None,
        },
        None => None,
    }
}

/// The text at `version` of an update document.
pub open spec fn version_member_in(doc: Option<JsonModel>) -> Option<Seq<char>> {
    match doc {
        Some(d) => match member_of(d, "version"@) {
            Some(v) => text_of(v),
            None => None,
        },
        None => None,
    }
}

/// Relies on `serde_json::from_str`: `text` read as a JSON document, or
/// `None` when it is not one.
#[verifier::external_body]
fn parse_json(text: &str) -> (r: Option<serde_json::Value>)
    ensures
        match r {
            Some(v) => json_of(text@) == Some(json_model(v)),
            None => json_of(text@) is None,
        },
{
    serde_json::from_str(text).ok()
}

/// Relies on `serde_json::Value::get` with a key: the member `key` of an
/// object, `None` for a missing key or any other value.
#[verifier::external_body]
fn json_member<'a>(v: &'a serde_json::Value, key: &str) -> (r: Option<&'a serde_json::Value>)
    ensures
        match r {
            Some(x) => member_of(json_model(*v), key@) == Some(json_model(*x)),
            None => member_of(json_model(*v), key@) is None,
        },
{
    v.get(key)
}

/// Relies on `serde_json::Value::get` with a position: element `i` of an
/// array, `None` past its end or for any other value.
#[verifier::external_body]
fn json_element<'a>(v: &'a serde_json::Value, i: usize) -> (r: Option<&'a serde_json::Value>)
    ensures
        match r {
            Some(x) => element_of(json_model(*v), i as nat) == Some(json_model(*x)),
            None => element_of(json_model(*v), i as nat) is None,
        },
{
    v.get(i)
}

/// Relies on `serde_json::Value::as_str`: the text of a JSON string,
/// `None` for any other value.
#[verifier::external_body]
fn json_text(v: &serde_json::Value) -> (r: Option<String>)
    ensures
        opt_view(r) == text_of(json_model(*v)),
{
    v.as_str().map(|s| s.to_string())
}

/// The name of the first tag in a tag listing (`results[0].name`).
pub fn first_tag_name(body: &str) -> (r: Option<String>)
    ensures
        opt_view(r) == tag_name_in(json_of(body@)),
{
    let doc = match parse_json(body) {
        Some(d) => d,
        None => {
            return None;
        },
    };
    let results = match json_member(&doc, "results") {
        Some(r) => r,
        None => {
            return None;
        },
    };
    let first = match json_element(results, 0) {
        Some(f) => f,
        None => {
            return None;
        },
    };
    match json_member(first, "name") {
        Some(name) => json_text(name),
        None => None,
    }
}

/// The `version` member of an update document.
pub fn update_document_version(body: &str) -> (r: Option<String>)
    ensures
        opt_view(r) == version_member_in(json_of(body@)),
{
    let doc = match parse_json(body) {
        Some(d) => d,
        None => {
            return None;
        },
    };
    match json_member(&doc, "version") {
        Some(v) => json_text(v),
        None => None,
    }
}

} // verus!
