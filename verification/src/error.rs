//! The pipeline's error taxonomy. Every stage surfaces its first failure
//! through one of these variants; nothing in the library panics.

use vstd::prelude::*;

verus! {

/// What stopped the pipeline.
#[derive(Clone, Copy, Debug, PartialEq, Eq, Structural)]
pub enum VideoError {
    /// No page URL was supplied at all.
    MissingLink,
    /// The page URL does not have the recognised watch-URL shape.
    MissingVideoId,
    /// The metadata response body falls outside the URL-encoded ASCII
    /// alphabet the endpoint answers in, so no payload can be dug out of it.
    MetadataNotAscii,
    /// The metadata payload is absent or is not well-formed JSON.
    MetadataParse,
    /// No streaming format carries the fixed quality label and codec, or the
    /// first such format carries no URL.
    NoMatchingFormat,
    /// The metadata carries no title to name the output file after.
    MissingTitle,
}

impl VideoError {
    /// The human-readable message this error surfaces with.
    pub open spec fn spec_message(self) -> Seq<char> {
        match self {
            VideoError::MissingLink => "video link must be provided"@,
            VideoError::MissingVideoId => "couldn't get video id"@,
            VideoError::MetadataNotAscii => "metadata response body is not ascii"@,
            VideoError::MetadataParse => "couldn't parse video metadata"@,
            VideoError::NoMatchingFormat => "video download url not found"@,
            VideoError::MissingTitle => "filename in video info not present"@,
        }
    }

    /// The message, for reporting at the entry point.
    pub fn message(&self) -> (r: String)
        ensures
            r@ == self.spec_message(),
    {
        match self {
            VideoError::MissingLink => String::from_str("video link must be provided"),
            VideoError::MissingVideoId => String::from_str("couldn't get video id"),
            VideoError::MetadataNotAscii => String::from_str("metadata response body is not ascii"),
            VideoError::MetadataParse => String::from_str("couldn't parse video metadata"),
            VideoError::NoMatchingFormat => String::from_str("video download url not found"),
            VideoError::MissingTitle => String::from_str("filename in video info not present"),
        }
    }
}

} // verus!
