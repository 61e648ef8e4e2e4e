//! Identifier extractor: derives the video identifier from a page URL by an
//! anchored match against the one recognised watch-URL shape.

use vstd::prelude::*;

use crate::text::{is_match_at, matches_at};

verus! {

/// The characters of the page-URL prefix that every recognised watch URL
/// starts with.
pub open spec fn watch_prefix() -> Seq<char> {
    "https://www.youtube.com/watch?v="@
}

/// The identifier a page URL carries: everything after the fixed watch-URL
/// prefix, or nothing when the URL does not start with that prefix.
pub open spec fn id_of_url(url: Seq<char>) -> Option<Seq<char>> {
    if matches_at(url, watch_prefix(), 0) {
        Some(url.skip(watch_prefix().len() as int))
    } else {
        None
    }
}

/// Extracts the video identifier from a page URL. Returns the trailing
/// segment after the watch-URL prefix, unmodified; absence — never an error —
/// for a URL of any other shape.
pub fn get_video_id<'a>(url: &'a str) -> (r: Option<&'a str>)
    ensures
        match r {
            Some(id) => id_of_url(url@) == Some(id@),
            None => id_of_url(url@) is None,
        },
{
    let prefix = "https://www.youtube.com/watch?v=";
    if is_match_at(url, prefix, 0) {
        let url_len = url.unicode_len();
        let prefix_len = prefix.unicode_len();
        let id = url.substring_char(prefix_len, url_len);
        proof {
            assert(id@ =~= url@.skip(watch_prefix().len() as int));
        }
        Some(id)
    } else {
        None
    }
}

} // verus!
