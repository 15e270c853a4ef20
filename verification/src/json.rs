//! Writing the body of a response as JSON text.

use crate::response::{Body, BodyView, Payload, PayloadView, Response, ResponseView};
use vstd::prelude::*;
use vstd::string::StringExecFns;

verus! {

/// The JSON string literal that stands for `text`.
pub uninterp spec fn json_string(text: Seq<char>) -> Seq<char>;

/// Encodes `text` as a JSON string literal with `serde_json::to_string`: the
/// text between double quotes, with the characters that JSON does not take
/// as they are written as escapes. serde_json has no way to fail on a `str`;
/// were it to fail, the result would be the empty text. The contract gives
/// the result a name and says no more of it.
#[verifier::external_body]
fn encode_json_string(text: &str) -> (json: String)
    ensures
        json@ == json_string(text@),
{
    serde_json::to_string(text).unwrap_or_default()
}

/// The text of the JSON object with one entry, given the texts of its key and
/// of its value.
pub open spec fn entry_json(key: Seq<char>, value: Seq<char>) -> Seq<char> {
    "{"@ + key + ":"@ + value + "}"@
}

/// The text of a body.
pub open spec fn body_json(body: BodyView) -> Seq<char> {
    match body {
        BodyView::Entry { key, value: PayloadView::Text(text) } => entry_json(
            json_string(key),
            json_string(text),
        ),
        BodyView::Entry { key, value: PayloadView::Json(document) } => entry_json(
            json_string(key),
            document,
        ),
        BodyView::Document(document) => document,
    }
}

/// The text of a response's body; the empty text where it has none.
pub open spec fn payload_of(response: ResponseView) -> Seq<char> {
    match response.body {
        Some(body) => body_json(body),
        None => Seq::empty(),
    }
}

/// Writes the JSON object with one entry, given the texts of its key and of
/// its value.
pub fn assemble_entry(key: &str, value: &str) -> (json: String)
    ensures
        json@ == entry_json(key@, value@),
{
    let mut json = "{".to_owned();
    json.append(key);
    json.append(":");
    json.append(value);
    json.append("}");
    json
}

impl Body {
    /// Writes this body as JSON text.
    pub fn to_json(&self) -> (json: String)
        ensures
            json@ == body_json(self@),
    {
        match self {
            Body::Entry { key, value } => {
                let key = encode_json_string(key.as_str());
                match value {
                    Payload::Text(text) => {
                        let value = encode_json_string(text.as_str());
                        assemble_entry(key.as_str(), value.as_str())
                    },
                    Payload::Json(document) => assemble_entry(key.as_str(), document.as_str()),
                }
            },
            Body::Document(document) => document.clone(),
        }
    }
}

impl Response {
    /// The text of this response's body; the empty text where it has none.
    pub fn payload(&self) -> (text: String)
        ensures
            text@ == payload_of(self@),
    {
        match &self.body {
            Some(body) => body.to_json(),
            None => String::new(),
        }
    }
}

} // verus!
