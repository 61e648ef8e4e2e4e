//! Extracting a downloadable media URL from a video page: derive the video
//! identifier from a page URL, build the metadata-endpoint request, pull the
//! `player_response` payload out of the response body, parse it into a JSON
//! tree, select the streaming format with the fixed quality and codec, and
//! resolve the output file name from the video title.

pub mod error;
pub mod id;
pub mod json;
pub mod laws;
pub mod meta;
pub mod select;
pub mod text;
