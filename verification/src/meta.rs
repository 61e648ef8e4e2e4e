//! Metadata fetching, minus the transport: building the endpoint request URL,
//! digging the `player_response` payload out of the response body, and
//! parsing it into the metadata document. The two parsing steps that outside
//! crates perform stand behind trusted items; everything around them is
//! verified.

use vstd::prelude::*;

use crate::error::VideoError;
use crate::id::{get_video_id, id_of_url};
use crate::json::JsonValue;

verus! {

#[verifier::external_type_specification]
#[verifier::external_body]
pub struct ExValue(serde_json::Value);

/// The value under `key` in `body` read as a URL-encoded query string, with
/// percent-escapes decoded; absence when no pair carries that name.
pub uninterp spec fn query_value_of(body: Seq<char>, key: Seq<char>) -> Option<Seq<char>>;

/// The metadata document that `text` parses to as JSON, or absence when the
/// text is not well-formed JSON.
pub uninterp spec fn json_tree_of(text: Seq<char>) -> Option<JsonValue>;

/// Relies on qstring::QString: `from` parses a URL-encoded query string into
/// name/value pairs, percent-decoding both, and `get` returns the value of
/// the first pair under the name. The result depends on the body and the key
/// alone. The parser probes the remaining input one byte at a time, and that
/// byte slice panics when a pair begins with a multi-byte character, so only
/// an all-ASCII body may be handed to it.
#[verifier::external_body]
fn query_get(body: &str, key: &str) -> (r: Option<String>)
    requires
        body.is_ascii(),
    ensures
        r is Some <==> query_value_of(body@, key@) is Some,
        r is Some ==> r.unwrap()@ == query_value_of(body@, key@).unwrap(),
{
    qstring::QString::from(body).get(key).map(|v| v.to_owned())
}

/// Part of the trusted JSON parse below: carries a `serde_json::Value` over
/// into the library's own node type, variant for variant; a number becomes
/// its decimal text.
#[verifier::external_body]
fn json_value_from(v: serde_json::Value) -> JsonValue {
    match v {
        serde_json::Value::Null => JsonValue::Null,
        serde_json::Value::Bool(b) => JsonValue::Bool(b),
        serde_json::Value::Number(n) => JsonValue::Number(n.to_string()),
        serde_json::Value::String(s) => JsonValue::Text(s),
        serde_json::Value::Array(items) => JsonValue::Array(
            items.into_iter().map(json_value_from).collect(),
        ),
        serde_json::Value::Object(entries) => JsonValue::Object(
            entries.into_iter().map(|(name, member)| (name, json_value_from(member))).collect(),
        ),
    }
}

/// Relies on serde_json::from_str: parses JSON text, deterministically, and
/// rejects text that is not well-formed JSON — the empty text in particular.
/// The parsed value is carried over into the library's own node type by the
/// converter above.
#[verifier::external_body]
fn parse_json(text: &str) -> (r: Option<JsonValue>)
    ensures
        r == json_tree_of(text@),
        text@.len() == 0 ==> r is None,
{
    serde_json::from_str::<serde_json::Value>(text).ok().map(json_value_from)
}

/// The metadata-endpoint URL for an identifier: the fixed base path, the
/// identifier interpolated as the `video_id` query parameter, and the two
/// fixed parameters the endpoint requires.
pub open spec fn spec_metadata_url(id: Seq<char>) -> Seq<char> {
    "https://www.youtube.com/get_video_info?video_id="@ + id + "&el=embedded&ps=default"@
}

/// Builds the metadata-endpoint URL for a video identifier.
pub fn metadata_url(id: &str) -> (r: String)
    ensures
        r@ == spec_metadata_url(id@),
{
    let mut url = String::from_str("https://www.youtube.com/get_video_info?video_id=");
    url.append(id);
    url.append("&el=embedded&ps=default");
    url
}

/// From page URL to the metadata request to issue: extracts the video
/// identifier and builds the endpoint URL around it; the error when the page
/// URL carries no identifier.
pub fn metadata_request_url(page_url: &str) -> (r: Result<String, VideoError>)
    ensures
        match r {
            Ok(u) => id_of_url(page_url@) is Some && u@ == spec_metadata_url(
                id_of_url(page_url@).unwrap(),
            ),
            Err(e) => id_of_url(page_url@) is None && e == VideoError::MissingVideoId,
        },
{
    match get_video_id(page_url) {
        Some(id) => Ok(metadata_url(id)),
        None => Err(VideoError::MissingVideoId),
    }
}

/// The JSON payload embedded in a metadata response body: the
/// `player_response` field of the URL-encoded body, or the empty text when
/// the field is absent.
pub open spec fn spec_payload(body: Seq<char>) -> Seq<char> {
    match query_value_of(body, "player_response"@) {
        Some(v) => v,
        None => Seq::empty(),
    }
}

/// The metadata document a response body yields.
pub open spec fn spec_video_info(body: Seq<char>) -> Option<JsonValue> {
    json_tree_of(spec_payload(body))
}

/// Digs the `player_response` payload out of a metadata response body and
/// parses it into the metadata document. A body outside the URL-encoded
/// ASCII alphabet is rejected up front — the query-string parser cannot read
/// it — and an absent field substitutes the empty text, which then fails the
/// parse.
pub fn video_info_from_response(body: &str) -> (r: Result<JsonValue, VideoError>)
    ensures
        match r {
            Ok(doc) => body.is_ascii() && spec_video_info(body@) == Some(doc),
            Err(e) => if !body.is_ascii() {
                e == VideoError::MetadataNotAscii
            } else {
                spec_video_info(body@) is None && e == VideoError::MetadataParse
            },
        },
{
    if !body.is_ascii() {
        return Err(VideoError::MetadataNotAscii);
    }
    let payload = match query_get(body, "player_response") {
        Some(v) => v,
        None => String::new(),
    };
    match parse_json(payload.as_str()) {
        Some(doc) => Ok(doc),
        None => Err(VideoError::MetadataParse),
    }
}

} // verus!
