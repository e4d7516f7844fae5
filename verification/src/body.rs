//! Request bodies as plain values, and the two outside computations they
//! need: lossy UTF-8 decoding and JSON member extraction.

use vstd::prelude::*;
use crate::query::opt_view;

verus! {

/// An inbound request body: absent, text, or raw bytes.
pub enum RequestBody {
    Empty,
    Text(String),
    Binary(Vec<u8>),
}

/// The mathematical model of a [`RequestBody`].
pub enum BodyModel {
    Empty,
    Text(Seq<char>),
    Binary(Seq<u8>),
}

impl View for RequestBody {
    type V = BodyModel;

    open spec fn view(&self) -> BodyModel {
        match self {
            RequestBody::Empty => BodyModel::Empty,
            RequestBody::Text(t) => BodyModel::Text(t@),
            RequestBody::Binary(b) => BodyModel::Binary(b@),
        }
    }
}

/// The text that decoding bytes as UTF-8 yields, with invalid sequences
/// replaced; it depends on the bytes alone.
pub uninterp spec fn utf8_lossy(bytes: Seq<u8>) -> Seq<char>;

/// Relies on `String::from_utf8_lossy`: invalid sequences become replacement
/// characters; the result depends on the bytes alone.
#[verifier::external_body]
pub(crate) fn decode_lossy(bytes: &Vec<u8>) -> (r: String)
    ensures
        r@ == utf8_lossy(bytes@),
{
    String::from_utf8_lossy(bytes.as_slice()).into_owned()
}

/// The string under `key` when the text is a JSON object whose `key` member
/// is a string, and nothing otherwise; it depends on the text and key alone.
pub uninterp spec fn json_string_member(text: Seq<char>, key: Seq<char>) -> Option<Seq<char>>;

/// Relies on `serde_json::from_str::<Value>` and `serde_json::Map::get`:
/// parsing yields `Value::Object` exactly when the text is a JSON object, the
/// object holds its members by name, and both depend on the text alone.
#[verifier::external_body]
pub(crate) fn json_member(text: &str, key: &str) -> (r: Option<String>)
    ensures
        opt_view(r) == json_string_member(text@, key@),
{
    match serde_json::from_str::<serde_json::Value>(text) {
        Ok(serde_json::Value::Object(members)) => match members.get(key) {
            Some(serde_json::Value::String(s)) => Some(s.clone()),
            _ => None,
        },
        _ => None,
    }
}

} // verus!
