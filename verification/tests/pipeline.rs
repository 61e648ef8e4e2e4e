use ytdl::error::VideoError;
use ytdl::id::get_video_id;
use ytdl::json::JsonValue;
use ytdl::meta::{metadata_request_url, metadata_url, video_info_from_response};
use ytdl::select::{
    get_video_download_url, get_video_file_name, mime_has_mp4_codec, plan_download,
};

fn text(s: &str) -> JsonValue {
    JsonValue::Text(s.to_string())
}

fn obj(entries: Vec<(&str, JsonValue)>) -> JsonValue {
    JsonValue::Object(entries.into_iter().map(|(k, v)| (k.to_string(), v)).collect())
}

fn format_record(quality: &str, mime: &str, url: Option<&str>) -> JsonValue {
    let mut entries = vec![("qualityLabel", text(quality)), ("mimeType", text(mime))];
    if let Some(u) = url {
        entries.push(("url", text(u)));
    }
    obj(entries)
}

fn doc_with(formats: Vec<JsonValue>, title: Option<&str>) -> JsonValue {
    let mut entries = vec![(
        "streamingData",
        obj(vec![("formats", JsonValue::Array(formats))]),
    )];
    if let Some(t) = title {
        entries.push(("videoDetails", obj(vec![("title", text(t))])));
    }
    obj(entries)
}

const MP4_MIME: &str = "video/mp4; codecs=mp4a.40.2";
const WEBM_MIME: &str = "video/webm; codecs=vp8, vorbis";

#[test]
fn test_id_from_url_extraction_short() {
    let url = "https://www.youtube.com/watch?v=0YJq7mzVw7c";
    let id = get_video_id(url);

    assert!(id.is_some());
    assert_eq!(id.unwrap(), "0YJq7mzVw7c");
}

#[test]
fn id_is_trailing_segment_unmodified() {
    let id = get_video_id("https://www.youtube.com/watch?v=ABC123");
    assert_eq!(id, Some("ABC123"));
}

#[test]
fn id_of_prefix_alone_is_empty() {
    let id = get_video_id("https://www.youtube.com/watch?v=");
    assert_eq!(id, Some(""));
}

#[test]
fn no_id_outside_the_pattern() {
    assert_eq!(get_video_id("https://example.com/watch?v=ABC123"), None);
    assert_eq!(get_video_id("http://www.youtube.com/watch?v=ABC123"), None);
    assert_eq!(get_video_id(""), None);
    assert_eq!(get_video_id("https://www.youtube.com/embed/ABC123"), None);
}

#[test]
fn metadata_url_interpolates_the_id() {
    assert_eq!(
        metadata_url("abc").as_str(),
        "https://www.youtube.com/get_video_info?video_id=abc&el=embedded&ps=default"
    );
}

#[test]
fn metadata_request_url_reports_missing_id() {
    let r = metadata_request_url("https://example.com/clip");
    assert_eq!(r.unwrap_err(), VideoError::MissingVideoId);

    let ok = metadata_request_url("https://www.youtube.com/watch?v=zCLOJ9j1k2Y");
    assert_eq!(
        ok.unwrap().as_str(),
        "https://www.youtube.com/get_video_info?video_id=zCLOJ9j1k2Y&el=embedded&ps=default"
    );
}

#[test]
fn codec_predicate_accepts_mp4_after_codecs_parameter() {
    assert!(mime_has_mp4_codec(MP4_MIME));
    assert!(mime_has_mp4_codec("audio/x; codecs=\"aac, mp4a\""));
}

#[test]
fn codec_predicate_scans_past_the_first_codecs_parameter() {
    assert!(mime_has_mp4_codec("video/x; codecs=vp8; codecs=mp4a"));
}

#[test]
fn codec_predicate_rejects_without_mp4_codec() {
    assert!(!mime_has_mp4_codec(WEBM_MIME));
    // `mp4` occurs only before the `codecs=` parameter: no match.
    assert!(!mime_has_mp4_codec("video/mp4; codecs=\"vp8\""));
    assert!(!mime_has_mp4_codec("video/mp4"));
    assert!(!mime_has_mp4_codec(""));
}

#[test]
fn selector_returns_first_matching_format() {
    let doc = doc_with(
        vec![
            format_record("720p", MP4_MIME, Some("http://example.org/hi.mp4")),
            format_record("360p", WEBM_MIME, Some("http://example.org/lo.webm")),
            format_record("360p", MP4_MIME, Some("http://example.org/first.mp4")),
            format_record("360p", MP4_MIME, Some("http://example.org/second.mp4")),
        ],
        Some("My Video"),
    );
    assert_eq!(
        get_video_download_url(&doc),
        Some("http://example.org/first.mp4")
    );
}

#[test]
fn selector_returns_absence_without_a_match() {
    let doc = doc_with(
        vec![
            format_record("720p", MP4_MIME, Some("http://example.org/hi.mp4")),
            format_record("360p", WEBM_MIME, Some("http://example.org/lo.webm")),
        ],
        Some("My Video"),
    );
    assert_eq!(get_video_download_url(&doc), None);

    let empty = doc_with(vec![], Some("My Video"));
    assert_eq!(get_video_download_url(&empty), None);

    let no_streaming_data = obj(vec![("videoDetails", obj(vec![("title", text("t"))]))]);
    assert_eq!(get_video_download_url(&no_streaming_data), None);
}

#[test]
fn selector_yields_absence_when_first_match_has_no_url() {
    let doc = doc_with(
        vec![
            format_record("360p", MP4_MIME, None),
            format_record("360p", MP4_MIME, Some("http://example.org/later.mp4")),
        ],
        Some("My Video"),
    );
    assert_eq!(get_video_download_url(&doc), None);
}

#[test]
fn file_name_appends_fixed_extension() {
    let doc = doc_with(vec![], Some("My Video"));
    assert_eq!(get_video_file_name(&doc).unwrap().as_str(), "My Video.mp4");
}

#[test]
fn file_name_absent_without_title() {
    let doc = doc_with(vec![], None);
    assert_eq!(get_video_file_name(&doc), None);
}

#[test]
fn round_trip_on_a_synthetic_document() {
    let doc = doc_with(
        vec![format_record(
            "360p",
            MP4_MIME,
            Some("http://example.org/v.mp4"),
        )],
        Some("My Video"),
    );
    let first = plan_download(&doc).unwrap();
    assert!(!first.url.is_empty());
    assert_eq!(first.url.as_str(), "http://example.org/v.mp4");
    assert!(first.file_name.ends_with(".mp4"));
    assert!(first.file_name.len() > ".mp4".len());
    assert_eq!(first.file_name.as_str(), "My Video.mp4");

    // Deterministic: a second reading of the same document yields the same.
    let second = plan_download(&doc).unwrap();
    assert_eq!(first.url, second.url);
    assert_eq!(first.file_name, second.file_name);
}

#[test]
fn plan_reports_each_missing_piece() {
    let no_format = doc_with(vec![], Some("My Video"));
    assert_eq!(
        plan_download(&no_format).unwrap_err(),
        VideoError::NoMatchingFormat
    );

    let no_title = doc_with(
        vec![format_record(
            "360p",
            MP4_MIME,
            Some("http://example.org/v.mp4"),
        )],
        None,
    );
    assert_eq!(plan_download(&no_title).unwrap_err(), VideoError::MissingTitle);
}

#[test]
fn object_lookup_takes_the_first_entry() {
    let doc = JsonValue::Object(vec![
        ("k".to_string(), text("first")),
        ("k".to_string(), text("second")),
    ]);
    let v = doc.get("k").unwrap();
    assert_eq!(v.as_str(), Some("first"));
    assert_eq!(doc.get("missing").map(|_| ()), None);
    assert_eq!(text("x").get("k").map(|_| ()), None);
}

#[test]
fn response_payload_is_decoded_and_parsed() {
    let body = "status=ok&player_response=%7B%22videoDetails%22%3A%7B%22title%22%3A%22My%20Video%22%7D%7D&other=1";
    let doc = video_info_from_response(body).unwrap();
    assert_eq!(get_video_file_name(&doc).unwrap().as_str(), "My Video.mp4");
}

#[test]
fn full_response_body_yields_a_plan() {
    let payload = "{\"streamingData\":{\"formats\":[\
{\"qualityLabel\":\"720p\",\"mimeType\":\"video/webm; codecs=vp8\",\"url\":\"http://example.org/hi\"},\
{\"qualityLabel\":\"360p\",\"mimeType\":\"video/mp4; codecs=mp4a.40.2\",\"url\":\"http://example.org/v.mp4\"}\
]},\"videoDetails\":{\"title\":\"My Video\"}}";
    let body = format!("player_response={}", payload);
    let doc = video_info_from_response(&body).unwrap();
    let plan = plan_download(&doc).unwrap();
    assert_eq!(plan.url.as_str(), "http://example.org/v.mp4");
    assert_eq!(plan.file_name.as_str(), "My Video.mp4");
}

#[test]
fn non_ascii_title_is_decoded_and_kept() {
    let body = "player_response=%7B%22videoDetails%22%3A%7B%22title%22%3A%22%E6%97%A5%E6%9C%AC%22%7D%7D";
    let doc = video_info_from_response(body).unwrap();
    assert_eq!(get_video_file_name(&doc).unwrap().as_str(), "日本.mp4");
}

#[test]
fn raw_non_ascii_body_is_rejected_not_parsed() {
    // A pair that begins with a multi-byte character: rejected up front
    // through the uniform error path.
    assert_eq!(
        video_info_from_response("日=x").unwrap_err(),
        VideoError::MetadataNotAscii
    );
    assert_eq!(
        video_info_from_response("a=b&日本=x").unwrap_err(),
        VideoError::MetadataNotAscii
    );
}

#[test]
fn parse_failures_surface_as_metadata_errors() {
    // No player_response field: the empty payload fails the parse.
    assert_eq!(
        video_info_from_response("status=ok").unwrap_err(),
        VideoError::MetadataParse
    );
    // A present but malformed payload fails the parse too.
    assert_eq!(
        video_info_from_response("player_response=%7Bnot-json").unwrap_err(),
        VideoError::MetadataParse
    );
}

#[test]
fn parsed_numbers_and_nulls_are_kept_but_not_text() {
    let body = "player_response=%7B%22videoDetails%22%3A%7B%22title%22%3A42%7D%7D";
    let doc = video_info_from_response(body).unwrap();
    // The title is a number, not text: the resolver reports absence.
    assert_eq!(get_video_file_name(&doc), None);
}

#[test]
fn error_messages_name_the_failing_stage() {
    assert_eq!(
        VideoError::MissingLink.message().as_str(),
        "video link must be provided"
    );
    assert_eq!(
        VideoError::MissingVideoId.message().as_str(),
        "couldn't get video id"
    );
    assert_eq!(
        VideoError::MetadataNotAscii.message().as_str(),
        "metadata response body is not ascii"
    );
    assert_eq!(
        VideoError::MetadataParse.message().as_str(),
        "couldn't parse video metadata"
    );
    assert_eq!(
        VideoError::NoMatchingFormat.message().as_str(),
        "video download url not found"
    );
    assert_eq!(
        VideoError::MissingTitle.message().as_str(),
        "filename in video info not present"
    );
}
