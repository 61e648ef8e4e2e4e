//! Variant selector and filename resolver: scan the metadata's format list
//! for the one fixed quality/codec preference and derive the output file name
//! from the video title.

use vstd::prelude::*;

use crate::error::VideoError;
use crate::json::JsonValue;
use crate::text::{contains_from, find_from, matches_at, str_eq};

verus! {

/// The MIME descriptor carries a `codecs=` parameter in which the token
/// `mp4` occurs somewhere after the parameter's start.
pub open spec fn codec_matches(mime: Seq<char>) -> bool {
    exists|i: int, j: int|
        matches_at(mime, "codecs="@, i) && matches_at(mime, "mp4"@, j) && i + "codecs="@.len()
            <= j
}

/// Whether a MIME descriptor names an mp4 codec in its `codecs=` parameter.
pub fn mime_has_mp4_codec(mime: &str) -> (r: bool)
    ensures
        r == codec_matches(mime@),
{
    match find_from(mime, "codecs=", 0) {
        Some(i) => {
            let mime_len = mime.unicode_len();
            let params_len = "codecs=".unicode_len();
            proof {
                assert(i + params_len <= mime_len);
            }
            let params_at = i + params_len;
            match find_from(mime, "mp4", params_at) {
                Some(j) => {
                    proof {
                        assert(codec_matches(mime@)) by {
                            assert(matches_at(mime@, "codecs="@, i as int) && matches_at(
                                mime@,
                                "mp4"@,
                                j as int,
                            ) && i + "codecs="@.len() <= j);
                        }
                    }
                    true
                },
                None => {
                    proof {
                        assert(!codec_matches(mime@)) by {
                            if codec_matches(mime@) {
                                let (ci, cj) = choose|ci: int, cj: int|
                                    matches_at(mime@, "codecs="@, ci) && matches_at(
                                        mime@,
                                        "mp4"@,
                                        cj,
                                    ) && ci + "codecs="@.len() <= cj;
                                assert(ci >= i);
                                assert(contains_from(mime@, "mp4"@, params_at as int));
                            }
                        }
                    }
                    false
                },
            }
        },
        None => {
            proof {
                assert(!codec_matches(mime@)) by {
                    if codec_matches(mime@) {
                        let (ci, cj) = choose|ci: int, cj: int|
                            matches_at(mime@, "codecs="@, ci) && matches_at(mime@, "mp4"@, cj)
                                && ci + "codecs="@.len() <= cj;
                        assert(contains_from(mime@, "codecs="@, 0));
                    }
                }
            }
            false
        },
    }
}

/// The quality label a format record carries, when it is a text field.
pub open spec fn spec_quality(f: JsonValue) -> Option<Seq<char>> {
    match f.spec_get("qualityLabel"@) {
        Some(q) => q.spec_str(),
        None => None,
    }
}

/// The MIME/codec descriptor a format record carries, when it is a text field.
pub open spec fn spec_mime(f: JsonValue) -> Option<Seq<char>> {
    match f.spec_get("mimeType"@) {
        Some(m) => m.spec_str(),
        None => None,
    }
}

/// The direct media URL a format record carries, when it is a text field.
pub open spec fn spec_format_url(f: JsonValue) -> Option<Seq<char>> {
    match f.spec_get("url"@) {
        Some(u) => u.spec_str(),
        None => None,
    }
}

/// The fixed selection criterion: quality label exactly `360p`, and an mp4
/// codec named in the MIME descriptor.
pub open spec fn format_accepts(f: JsonValue) -> bool {
    spec_quality(f) == Some("360p"@) && match spec_mime(f) {
        Some(m) => codec_matches(m),
        None => false,
    }
}

/// The URL the selector yields on a format list: the URL field of the first
/// accepting record, or nothing when no record accepts (or the first
/// accepting record carries no text URL).
pub open spec fn spec_select_formats(formats: Seq<JsonValue>) -> Option<Seq<char>>
    decreases formats.len(),
{
    if formats.len() == 0 {
        None
    } else if format_accepts(formats[0]) {
        spec_format_url(formats[0])
    } else {
        spec_select_formats(formats.skip(1))
    }
}

/// The format list at the metadata document's fixed path
/// `streamingData.formats`, when present and an array.
pub open spec fn spec_formats(doc: JsonValue) -> Option<Seq<JsonValue>> {
    match doc.spec_get("streamingData"@) {
        Some(sd) => match sd.spec_get("formats"@) {
            Some(f) => f.spec_items(),
            None => None,
        },
        None => None,
    }
}

/// The URL the selector yields on a whole metadata document.
pub open spec fn spec_download_url(doc: JsonValue) -> Option<Seq<char>> {
    match spec_formats(doc) {
        Some(formats) => spec_select_formats(formats),
        None => None,
    }
}

/// Whether one format record meets the fixed selection criterion.
pub fn format_matches(f: &JsonValue) -> (r: bool)
    ensures
        r == format_accepts(*f),
{
    let quality_ok = match f.get("qualityLabel") {
        Some(q) => match q.as_str() {
            Some(s) => str_eq(s, "360p"),
            None => false,
        },
        None => false,
    };
    if !quality_ok {
        return false;
    }
    match f.get("mimeType") {
        Some(m) => match m.as_str() {
            Some(s) => mime_has_mp4_codec(s),
            None => false,
        },
        None => false,
    }
}

/// Scans `streamingData.formats` in the document's original order and returns
/// the URL of the first format whose quality label is exactly `360p` and
/// whose MIME descriptor names an mp4 codec; absence when no format matches.
pub fn get_video_download_url<'a>(doc: &'a JsonValue) -> (r: Option<&'a str>)
    ensures
        match r {
            Some(u) => spec_download_url(*doc) == Some(u@),
            None => spec_download_url(*doc) is None,
        },
{
    let streaming_data = match doc.get("streamingData") {
        Some(v) => v,
        None => { return None },
    };
    let formats_node = match streaming_data.get("formats") {
        Some(v) => v,
        None => { return None },
    };
    let formats = match formats_node.as_array() {
        Some(v) => v,
        None => { return None },
    };
    let ghost all = formats@;
    proof {
        assert(spec_formats(*doc) == Some(all));
        assert(all.skip(0) =~= all);
    }
    let n = formats.len();
    let mut i: usize = 0;
    while i < n
        invariant
            n == all.len(),
            i <= n,
            formats@ == all,
            spec_download_url(*doc) == spec_select_formats(all.skip(i as int)),
        decreases n - i,
    {
        proof {
            assert(all.skip(i as int)[0] == all[i as int]);
        }
        let f = &formats[i];
        if format_matches(f) {
            return match f.get("url") {
                Some(u) => u.as_str(),
                None => None,
            };
        }
        proof {
            assert(all.skip(i as int).skip(1) =~= all.skip(i + 1));
        }
        i += 1;
    }
    proof {
        assert(all.skip(n as int) =~= Seq::<JsonValue>::empty());
    }
    None
}

/// The title at the metadata document's fixed path `videoDetails.title`,
/// when present and a text field.
pub open spec fn spec_title(doc: JsonValue) -> Option<Seq<char>> {
    match doc.spec_get("videoDetails"@) {
        Some(vd) => match vd.spec_get("title"@) {
            Some(t) => t.spec_str(),
            None => None,
        },
        None => None,
    }
}

/// The output file name: the title with the fixed extension appended, or
/// nothing when the document carries no title.
pub open spec fn spec_file_name(doc: JsonValue) -> Option<Seq<char>> {
    match spec_title(doc) {
        Some(t) => Some(t + ".mp4"@),
        None => None,
    }
}

/// Reads `videoDetails.title` and, when present, appends the fixed `.mp4`
/// extension; absence when the document carries no title.
pub fn get_video_file_name(doc: &JsonValue) -> (r: Option<String>)
    ensures
        match r {
            Some(name) => spec_file_name(*doc) == Some(name@),
            None => spec_file_name(*doc) is None,
        },
{
    let video_details = match doc.get("videoDetails") {
        Some(v) => v,
        None => { return None },
    };
    let title_node = match video_details.get("title") {
        Some(v) => v,
        None => { return None },
    };
    let title = match title_node.as_str() {
        Some(s) => s,
        None => { return None },
    };
    let mut name = String::from_str(title);
    name.append(".mp4");
    Some(name)
}

/// What the downloader needs: the selected media URL and the destination
/// file name.
#[derive(Debug)]
pub struct DownloadPlan {
    pub url: String,
    pub file_name: String,
}

/// Selects the media URL and resolves the file name in one step, mapping each
/// absence to the error the pipeline reports: no accepting format first, then
/// no title.
pub fn plan_download(doc: &JsonValue) -> (r: Result<DownloadPlan, VideoError>)
    ensures
        match r {
            Ok(plan) => spec_download_url(*doc) == Some(plan.url@) && spec_file_name(*doc)
                == Some(plan.file_name@),
            Err(e) => if spec_download_url(*doc) is None {
                e == VideoError::NoMatchingFormat
            } else {
                spec_file_name(*doc) is None && e == VideoError::MissingTitle
            },
        },
{
    let url = match get_video_download_url(doc) {
        Some(u) => u,
        None => { return Err(VideoError::NoMatchingFormat) },
    };
    let file_name = match get_video_file_name(doc) {
        Some(n) => n,
        None => { return Err(VideoError::MissingTitle) },
    };
    Ok(DownloadPlan { url: String::from_str(url), file_name })
}

} // verus!
