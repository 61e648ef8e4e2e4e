//! Laws of the pipeline, proved once and for all: the selector picks exactly
//! the first accepting format, and a document with an accepting format and a
//! title always yields a media URL and an `.mp4` file name.

use vstd::prelude::*;

use crate::json::JsonValue;
use crate::select::{
    format_accepts, spec_download_url, spec_file_name, spec_format_url, spec_formats,
    spec_select_formats, spec_title,
};

verus! {

/// When no format in the list meets the criterion, the selector yields
/// absence.
pub proof fn lemma_selector_none(formats: Seq<JsonValue>)
    requires
        forall|i: int| 0 <= i < formats.len() ==> !format_accepts(formats[i]),
    ensures
        spec_select_formats(formats) is None,
    decreases formats.len(),
{
    if formats.len() > 0 {
        assert(forall|i: int|
            0 <= i < formats.skip(1).len() ==> formats.skip(1)[i] == formats[i + 1]);
        lemma_selector_none(formats.skip(1));
    }
}

/// The selector yields exactly the URL field of the first accepting format:
/// for an accepting entry before which nothing accepts, the selection is that
/// entry's URL.
pub proof fn lemma_selector_first_match(formats: Seq<JsonValue>, i: int)
    requires
        0 <= i < formats.len(),
        format_accepts(formats[i]),
        forall|j: int| 0 <= j < i ==> !format_accepts(formats[j]),
    ensures
        spec_select_formats(formats) == spec_format_url(formats[i]),
    decreases i,
{
    if i > 0 {
        assert(forall|k: int|
            0 <= k < formats.skip(1).len() ==> formats.skip(1)[k] == formats[k + 1]);
        lemma_selector_first_match(formats.skip(1), i - 1);
    }
}

/// When some format in the list accepts, and every accepting format carries a
/// non-empty text URL, the selector yields a non-empty URL.
pub proof fn lemma_selector_some(formats: Seq<JsonValue>)
    requires
        exists|i: int| 0 <= i < formats.len() && format_accepts(formats[i]),
        forall|i: int|
            0 <= i < formats.len() && format_accepts(formats[i]) ==> (spec_format_url(formats[i])
                is Some && spec_format_url(formats[i]).unwrap().len() > 0),
    ensures
        spec_select_formats(formats) is Some,
        spec_select_formats(formats).unwrap().len() > 0,
    decreases formats.len(),
{
    if !format_accepts(formats[0]) {
        let i = choose|i: int| 0 <= i < formats.len() && format_accepts(formats[i]);
        assert(forall|k: int|
            0 <= k < formats.skip(1).len() ==> formats.skip(1)[k] == formats[k + 1]);
        assert(formats.skip(1)[i - 1] == formats[i]);
        lemma_selector_some(formats.skip(1));
    }
}

/// Round trip: a metadata document whose format list holds at least one
/// accepting entry, each accepting entry carrying a non-empty text URL, and
/// which carries a title, yields a non-empty selected URL and a file name
/// that ends in `.mp4` — longer than the extension alone whenever the title
/// is non-empty — and, both being functions of the document alone, yields
/// the same ones on every reading.
pub proof fn lemma_round_trip(doc: JsonValue)
    requires
        spec_formats(doc) is Some,
        exists|i: int|
            0 <= i < spec_formats(doc).unwrap().len() && format_accepts(
                spec_formats(doc).unwrap()[i],
            ),
        forall|i: int|
            0 <= i < spec_formats(doc).unwrap().len() && format_accepts(
                spec_formats(doc).unwrap()[i],
            ) ==> (spec_format_url(spec_formats(doc).unwrap()[i]) is Some && spec_format_url(
                spec_formats(doc).unwrap()[i],
            ).unwrap().len() > 0),
        spec_title(doc) is Some,
    ensures
        spec_download_url(doc) is Some,
        spec_download_url(doc).unwrap().len() > 0,
        spec_file_name(doc) is Some,
        ".mp4"@.is_suffix_of(spec_file_name(doc).unwrap()),
        spec_title(doc).unwrap().len() > 0 ==> spec_file_name(doc).unwrap().len() > 4,
{
    lemma_selector_some(spec_formats(doc).unwrap());
    let title = spec_title(doc).unwrap();
    let name = spec_file_name(doc).unwrap();
    reveal_strlit(".mp4");
    assert(name == title + ".mp4"@);
    assert(".mp4"@ =~= name.subrange(name.len() - 4, name.len() as int));
}

} // verus!
