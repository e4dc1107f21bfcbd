//! The boundary with `serde_json`. A parsed document stays a
//! `serde_json::Value`; what it holds is modelled by [`Json`], and the few
//! accessors that the library calls are stated over that model.

use vstd::prelude::*;
use crate::text::text_view;

verus! {

/// A JSON document as a mathematical value.
#[verifier::ext_equal]
pub enum Json {
    Null,
    Bool(bool),
    /// A number, with its value where it is an integer that `u64` holds.
    Number { unsigned: Option<u64> },
    Text(Seq<char>),
    Array(Seq<Json>),
    Object(Map<Seq<char>, Json>),
}

impl Json {
    /// The member under `key`: `Null` where `self` is no object or has no
    /// such member.
    pub open spec fn member(self, key: Seq<char>) -> Json {
        match self {
            Json::Object(members) => if members.contains_key(key) {
                members[key]
            } else {
                Json::Null
            },
            _ => Json::Null,
        }
    }

    /// The text, where `self` is a string.
    pub open spec fn text(self) -> Option<Seq<char>> {
        match self {
            Json::Text(text) => Some(text),
            _ => None,
        }
    }

    /// The elements, where `self` is an array.
    pub open spec fn elements(self) -> Option<Seq<Json>> {
        match self {
            Json::Array(elements) => Some(elements),
            _ => None,
        }
    }

    /// The truth value, where `self` is a boolean.
    pub open spec fn truth(self) -> Option<bool> {
        match self {
            Json::Bool(truth) => Some(truth),
            _ => None,
        }
    }

    /// The value, where `self` is a number that `u64` holds.
    pub open spec fn unsigned(self) -> Option<u64> {
        match self {
            Json::Number { unsigned } => unsigned,
            _ => None,
        }
    }

    /// The text of the member under `key`: `None` where there is no such
    /// member or it is no string.
    pub open spec fn text_at(self, key: Seq<char>) -> Option<Seq<char>> {
        self.member(key).text()
    }
}

/// `serde_json::Value`, a JSON document or a part of one. Nothing is known
/// of a value but what the accessors below say.
#[verifier::external_type_specification]
#[verifier::external_body]
pub struct ExJsonValue(serde_json::Value);

/// `serde_json::Error`, the reason for which a text was rejected. The
/// library reads nothing from it.
#[verifier::external_type_specification]
#[verifier::external_body]
pub struct ExJsonError(serde_json::Error);

/// What a `serde_json::Value` holds.
pub uninterp spec fn json_of(value: serde_json::Value) -> Json;

/// The document that `serde_json::from_str` reads from `text`, or `None`
/// where it rejects the text.
pub uninterp spec fn parsed_text(text: Seq<char>) -> Option<Json>;

/// What each of a list of values holds, in order.
pub open spec fn jsons_of(values: Seq<serde_json::Value>) -> Seq<Json> {
    Seq::new(values.len(), |i: int| json_of(values[i]))
}

/// Calls `serde_json::from_str` for a `serde_json::Value`. Trusted: parsing
/// succeeds on exactly the texts on which `parsed_text` is `Some`, and the
/// value that it returns holds that document.
#[verifier::external_body]
pub(crate) fn parse(text: &str) -> (r: Result<serde_json::Value, serde_json::Error>)
    ensures
        r is Ok <==> parsed_text(text@) is Some,
        r matches Ok(value) ==> parsed_text(text@) == Some(json_of(value)),
{
    serde_json::from_str::<serde_json::Value>(text)
}

/// Indexes a `serde_json::Value` with a string key (`&value[key]`, which
/// does not panic on a shared reference). Trusted: the result holds the
/// member under the key where the value is an object that has one, and null
/// otherwise.
#[verifier::external_body]
pub(crate) fn get_member<'a>(value: &'a serde_json::Value, key: &str) -> (r: &'a serde_json::Value)
    ensures
        json_of(*r) == json_of(*value).member(key@),
{
    &value[key]
}

/// `serde_json::Value::as_str`. Trusted: it returns the text where the value
/// is a string, and `None` otherwise.
pub assume_specification<'a>[ serde_json::Value::as_str ](value: &'a serde_json::Value) -> (r:
    Option<&'a str>)
    ensures
        match r {
            Some(text) => json_of(*value) == Json::Text(text@),
            None => !(json_of(*value) is Text),
        },
;

/// `serde_json::Value::as_array`. Trusted: it returns the elements where the
/// value is an array, and `None` otherwise.
pub assume_specification<'a>[ serde_json::Value::as_array ](value: &'a serde_json::Value) -> (r:
    Option<&'a Vec<serde_json::Value>>)
    ensures
        match r {
            Some(items) => json_of(*value) == Json::Array(jsons_of(items@)),
            None => !(json_of(*value) is Array),
        },
;

/// `serde_json::Value::as_bool`. Trusted: it returns the truth value where
/// the value is a boolean, and `None` otherwise.
pub assume_specification[ serde_json::Value::as_bool ](value: &serde_json::Value) -> (r: Option<
    bool,
>)
    ensures
        r == json_of(*value).truth(),
;

/// `serde_json::Value::as_u64`. Trusted: it returns the number where the
/// value is an integer that `u64` holds, and `None` otherwise.
pub assume_specification[ serde_json::Value::as_u64 ](value: &serde_json::Value) -> (r: Option<
    u64,
>)
    ensures
        r == json_of(*value).unsigned(),
;

/// Copies the text under `key` out of `value`.
pub fn read_text(value: &serde_json::Value, key: &str) -> (r: Option<String>)
    ensures
        text_view(r) == json_of(*value).text_at(key@),
{
    match get_member(value, key).as_str() {
        Some(text) => Some(text.to_owned()),
        None => None,
    }
}

} // verus!
